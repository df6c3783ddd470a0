//! Startup validation for client-mode configuration: the service refuses to
//! start when `target_printer` or `printer_address` would silently drop jobs
//! at runtime.
use vstd::prelude::*;

use crate::config::ClientConfig;
use crate::printer::list_printers;
use crate::text::{chars_of, eq_str, join, join_exec, push_str, str_lowercase, to_lowercase, views};

verus! {

/// The message when no printer is installed at all.
pub open spec fn no_printers_text(target: Seq<char>) -> Seq<char> {
    "No printers installed on this machine. Install the printer driver before configuring DevBridge (target_printer = \""@
        + target + "\")"@
}

/// The installed printers, one per line, each as `    - <name>`.
pub open spec fn alternatives_text(available: Seq<Seq<char>>) -> Seq<char> {
    join(bullets(available), '\n')
}

/// Each name as a list item: `    - <name>`.
pub open spec fn bullets(available: Seq<Seq<char>>) -> Seq<Seq<char>> {
    available.map_values(|p: Seq<char>| "    - "@ + p)
}

/// The message when the target printer is not among the installed ones.
pub open spec fn not_found_text(target: Seq<char>, available: Seq<Seq<char>>) -> Seq<char> {
    "target_printer \""@ + target + "\" not found on this machine.\n  Available printers:\n"@
        + alternatives_text(available)
        + "\n  Suggestion: edit C:\\ProgramData\\DevBridge\\config.toml and set target_printer to one of the names above, then restart the DevBridge scheduled task."@
}

/// Whether some installed printer has the target's name, case-insensitively.
pub open spec fn printer_listed(available: Seq<Seq<char>>, target: Seq<char>) -> bool {
    exists|i: int| 0 <= i < available.len() && str_lowercase(#[trigger] available[i]) == str_lowercase(target)
}

/// What [`validate_local_printer_against`] decides.
pub open spec fn local_printer_outcome(available: Seq<Seq<char>>, target: Seq<char>) -> Result<(), Seq<char>> {
    if available.len() == 0 {
        Err(no_printers_text(target))
    } else if printer_listed(available, target) {
        Ok(())
    } else {
        Err(not_found_text(target, available))
    }
}

/// The message when `direct_ipp` has no printer address.
pub open spec fn missing_address_text() -> Seq<char> {
    "direct_ipp backend requires printer_address in config. Suggestion: set [client] printer_address = \"<host>:631\" in C:\\ProgramData\\DevBridge\\config.toml."@
}

/// What [`validate_ipp_address`] decides: an address must be present and non-empty.
pub open spec fn ipp_address_outcome(address: Option<Seq<char>>) -> Result<(), Seq<char>> {
    match address {
        Some(a) => if a.len() > 0 {
            Ok(())
        } else {
            Err(missing_address_text())
        },
        None => Err(missing_address_text()),
    }
}

/// A `Result` with its message taken by its characters.
pub open spec fn check_view(r: Result<(), String>) -> Result<(), Seq<char>> {
    match r {
        Ok(()) => Ok(()),
        Err(e) => Err(e@),
    }
}

pub open spec fn names(v: Seq<String>) -> Seq<Seq<char>> {
    v.map_values(|s: String| s@)
}

/// What [`validate_client_config_against`] decides: `windows_spooler` (or
/// no backend) needs the target printer installed, `direct_ipp` needs an
/// address; other backends are not checked here.
pub open spec fn client_config_outcome(config: ClientConfig, available: Seq<Seq<char>>) -> Result<(), Seq<char>> {
    let b = config.print_backend@;
    if b == "windows_spooler"@ || b == Seq::<char>::empty() {
        local_printer_outcome(available, config.target_printer@)
    } else if b == "direct_ipp"@ {
        ipp_address_outcome(
            match config.printer_address {
                Some(a) => Some(a@),
                None => None,
            },
        )
    } else {
        Ok(())
    }
}

/// Entry point: validate a `ClientConfig` against the printers installed
/// on this machine (none when they cannot be listed).
pub fn validate_client_config(config: &ClientConfig) -> (r: Result<(), String>)
    ensures
        check_view(r) == client_config_outcome(*config, Seq::<Seq<char>>::empty()),
{
    let printers: Vec<String> = match list_printers() {
        Ok(list) => {
            let mut names_out: Vec<String> = Vec::new();
            let mut i: usize = 0;
            while i < list.len()
                invariant
                    i <= list@.len(),
                    list@.len() == 0,
                    names_out@.len() == i,
                decreases list@.len() - i,
            {
                names_out.push(list[i].name.clone());
                i = i + 1;
            }
            names_out
        },
        Err(_) => Vec::new(),
    };
    assert(names(printers@) =~= Seq::<Seq<char>>::empty());
    validate_client_config_against(config, &printers)
}

/// Validates `config` against an explicit list of installed printers.
pub fn validate_client_config_against(config: &ClientConfig, printers: &Vec<String>) -> (r: Result<(), String>)
    ensures
        check_view(r) == client_config_outcome(*config, names(printers@)),
{
    let b = chars_of(config.print_backend.as_str());
    if eq_str(b.as_slice(), "windows_spooler") || b.len() == 0 {
        proof {
            if b@.len() == 0 {
                assert(b@ =~= Seq::<char>::empty());
            }
        }
        validate_local_printer_against(printers, config.target_printer.as_str())
    } else if eq_str(b.as_slice(), "direct_ipp") {
        match &config.printer_address {
            Some(a) => validate_ipp_address(Some(a.as_str())),
            None => validate_ipp_address(None),
        }
    } else {
        Ok(())
    }
}

/// Validate that `target` is one of the entries in `available` (case-insensitive).
pub fn validate_local_printer_against(available: &Vec<String>, target: &str) -> (r: Result<(), String>)
    ensures
        check_view(r) == local_printer_outcome(names(available@), target@),
{
    let ghost av = names(available@);
    if available.len() == 0 {
        let mut s = String::new();
        push_str(
            &mut s,
            "No printers installed on this machine. Install the printer driver before configuring DevBridge (target_printer = \"",
        );
        push_str(&mut s, target);
        push_str(&mut s, "\")");
        return Err(s);
    }
    let target_lower = to_lowercase(target);
    let tl = chars_of(target_lower.as_str());
    let mut i: usize = 0;
    while i < available.len()
        invariant
            i <= available@.len(),
            av == names(available@),
            tl@ == str_lowercase(target@),
            forall|j: int| 0 <= j < i ==> str_lowercase(#[trigger] av[j]) != str_lowercase(target@),
        decreases available@.len() - i,
    {
        let pl = to_lowercase(available[i].as_str());
        let plc = chars_of(pl.as_str());
        if crate::text::chars_eq(plc.as_slice(), tl.as_slice()) {
            assert(av[i as int] == available@[i as int]@);
            return Ok(());
        }
        assert(av[i as int] == available@[i as int]@);
        i = i + 1;
    }
    let mut items: Vec<Vec<char>> = Vec::new();
    let mut k: usize = 0;
    while k < available.len()
        invariant
            k <= available@.len(),
            av == names(available@),
            views(items@) == bullets(av.take(k as int)),
        decreases available@.len() - k,
    {
        let mut line = String::new();
        push_str(&mut line, "    - ");
        push_str(&mut line, available[k].as_str());
        let lc = chars_of(line.as_str());
        let ghost before = views(items@);
        items.push(lc);
        assert(av[k as int] == available@[k as int]@);
        assert(views(items@) =~= before.push(lc@));
        assert(bullets(av.take(k + 1)) =~= bullets(av.take(k as int)).push("    - "@ + av[k as int]));
        k = k + 1;
    }
    assert(av.take(available@.len() as int) =~= av);
    let alt = join_exec(&items, '\n');
    let mut s = String::new();
    push_str(&mut s, "target_printer \"");
    push_str(&mut s, target);
    push_str(&mut s, "\" not found on this machine.\n  Available printers:\n");
    crate::text::push_chars(&mut s, alt.as_slice());
    push_str(
        &mut s,
        "\n  Suggestion: edit C:\\ProgramData\\DevBridge\\config.toml and set target_printer to one of the names above, then restart the DevBridge scheduled task.",
    );
    Err(s)
}

/// Validate that `direct_ipp` has a `printer_address` set.
pub fn validate_ipp_address(address: Option<&str>) -> (r: Result<(), String>)
    ensures
        check_view(r) == ipp_address_outcome(
            match address {
                Some(a) => Some(a@),
                None => None,
            },
        ),
{
    match address {
        Some(s) => {
            if !s.is_empty() {
                return Ok(());
            }
        },
        None => {},
    }
    Err(
        "direct_ipp backend requires printer_address in config. Suggestion: set [client] printer_address = \"<host>:631\" in C:\\ProgramData\\DevBridge\\config.toml.".to_owned(),
    )
}

} // verus!
