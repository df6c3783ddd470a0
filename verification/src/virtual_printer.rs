//! Virtual printers: the server-side printers that applications print to,
//! each optionally paired to one client, with the Windows driver they are
//! registered with and the URL-safe slug that routes IPP requests to them.
use vstd::prelude::*;

use crate::text::{
    char_is_alphanumeric, char_is_control, chars_of, fields_by, fields_exec, hex_char, is_alphanumeric,
    is_control, join, join_exec, all_ascii, ascii_lower, ascii_lower_seq, lemma_fields_by_chars, lemma_fields_by_join, lemma_join_shape, push_char, push_chars,
    push_str, str_lowercase, string_of, strip_pred, to_lowercase, trim, trim_str,
};

verus! {

/// Windows driver used for a virtual printer's server-side Windows printer
/// when no override is set.
pub const DEFAULT_WINDOWS_DRIVER: &'static str = "Microsoft IPP Class Driver";

/// Longest accepted Windows printer-driver name. Windows' own limit for a
/// driver name is well below this; anything longer is a typo or garbage.
pub const MAX_DRIVER_NAME_LEN: usize = 200;

/// A virtual printer. `created_at` and `updated_at` are seconds since the
/// Unix epoch (UTC).
#[derive(Debug, Clone)]
pub struct VirtualPrinter {
    pub id: String,
    pub display_name: String,
    pub ipp_name: String,
    pub paired_client_id: Option<String>,
    /// Optional Windows driver override for the server-side Windows printer
    /// (a vendor driver renders the job and its bytes travel to the client
    /// unchanged). `None` means [`DEFAULT_WINDOWS_DRIVER`].
    pub driver: Option<String>,
    pub created_at: i64,
    pub updated_at: i64,
}

impl VirtualPrinter {
    /// The Windows driver the reconciler registers this printer with.
    pub fn effective_driver(&self) -> (r: &str)
        ensures
            r@ == (match self.driver {
                Some(d) => d@,
                None => "Microsoft IPP Class Driver"@,
            }),
    {
        match &self.driver {
            Some(d) => d.as_str(),
            None => DEFAULT_WINDOWS_DRIVER,
        }
    }
}

/// Characters a driver name may not hold: they could break out of the
/// quoted `printui.dll /m "<driver>"` argument or out of a TOML string.
pub open spec fn forbidden(c: char) -> bool {
    c == '"' || c == '\\' || char_is_control(c)
}

/// Index of the first forbidden character, or the length when there is none.
pub open spec fn first_forbidden(s: Seq<char>) -> nat
    decreases s.len(),
{
    if s.len() == 0 {
        0
    } else if forbidden(s[0]) {
        0
    } else {
        1 + first_forbidden(s.drop_first())
    }
}

/// Lower-case hexadecimal rendering of `n`, without leading zeros.
pub open spec fn hex_text(n: nat) -> Seq<char>
    decreases n,
{
    if n < 16 {
        seq![hex_char(n)]
    } else {
        hex_text(n / 16).push(hex_char(n % 16))
    }
}

/// `{:?}` of a forbidden character: quoted, with `\t`, `\r`, `\n`, `\0`
/// and the backslash escaped by name and any other control character as
/// `\u{<hex>}`.
pub open spec fn forbidden_debug(c: char) -> Seq<char> {
    "'"@ + (if c == '\t' {
        "\\t"@
    } else if c == '\r' {
        "\\r"@
    } else if c == '\n' {
        "\\n"@
    } else if c == '\0' {
        "\\0"@
    } else if c == '\\' {
        "\\\\"@
    } else if c == '"' {
        "\""@
    } else {
        "\\u{"@ + hex_text(c as nat) + "}"@
    }) + "'"@
}

/// What [`normalize_driver_name`] makes of its argument.
pub open spec fn driver_name_outcome(raw: Option<Seq<char>>) -> Result<Option<Seq<char>>, Seq<char>> {
    match raw {
        None => Ok(None),
        Some(s) => {
            let t = trim(s);
            if t.len() == 0 {
                Ok(None)
            } else if t.len() > MAX_DRIVER_NAME_LEN {
                Err("driver name is longer than 200 characters"@)
            } else if first_forbidden(t) < t.len() {
                Err(
                    "driver name contains a forbidden character "@ + forbidden_debug(
                        t[first_forbidden(t) as int],
                    ) + " (no quotes, backslashes or control characters)"@,
                )
            } else {
                Ok(Some(t))
            }
        },
    }
}

/// The outcome with each `String` taken by its characters.
pub open spec fn outcome_view(r: Result<Option<String>, String>) -> Result<Option<Seq<char>>, Seq<char>> {
    match r {
        Ok(Some(n)) => Ok(Some(n@)),
        Ok(None) => Ok(None),
        Err(e) => Err(e@),
    }
}

fn push_hex(s: &mut String, n: u32)
    ensures
        final(s)@ == old(s)@ + hex_text(n as nat),
    decreases n,
{
    if n >= 16 {
        push_hex(s, n / 16);
    }
    let d = n % 16;
    let c: char = if d < 10 { ((48 + d) as u8) as char } else { ((87 + d) as u8) as char };
    push_char(s, c);
    proof {
        if n >= 16 {
            assert(old(s)@ + hex_text(n as nat) =~= old(s)@ + hex_text((n / 16) as nat) + seq![c]);
        } else {
            assert(old(s)@ + hex_text(n as nat) =~= old(s)@.push(c));
        }
    }
}

fn push_forbidden_debug(s: &mut String, c: char)
    requires
        forbidden(c),
    ensures
        final(s)@ == old(s)@ + forbidden_debug(c),
{
    push_char(s, '\'');
    if c == '\t' {
        push_str(s, "\\t");
    } else if c == '\r' {
        push_str(s, "\\r");
    } else if c == '\n' {
        push_str(s, "\\n");
    } else if c == '\0' {
        push_str(s, "\\0");
    } else if c == '\\' {
        push_str(s, "\\\\");
    } else if c == '"' {
        push_str(s, "\"");
    } else {
        push_str(s, "\\u{");
        push_hex(s, c as u32);
        push_str(s, "}");
    }
    push_char(s, '\'');
    proof {
        reveal_strlit("'");
    }
    assert(final(s)@ =~= old(s)@ + forbidden_debug(c));
}

/// Validate and normalise an optional driver-name override.
///
/// Returns `Ok(None)` for "no override" (absent, empty or whitespace-only:
/// the printer keeps [`DEFAULT_WINDOWS_DRIVER`]), `Ok(Some(trimmed))` for a
/// usable name. Rejects names that could break out of the quoted
/// `printui.dll /m "<driver>"` argument the reconciler builds, or out of a
/// TOML string: double quotes, backslashes, control characters, and names
/// longer than [`MAX_DRIVER_NAME_LEN`].
pub fn normalize_driver_name(raw: Option<&str>) -> (r: Result<Option<String>, String>)
    ensures
        outcome_view(r) == driver_name_outcome(
            match raw {
                Some(s) => Some(s@),
                None => None,
            },
        ),
{
    let s = match raw {
        None => {
            return Ok(None);
        },
        Some(s) => s,
    };
    let t = trim_str(s);
    if t.len() == 0 {
        return Ok(None);
    }
    if t.len() > MAX_DRIVER_NAME_LEN {
        return Err("driver name is longer than 200 characters".to_owned());
    }
    let mut i: usize = 0;
    while i < t.len()
        invariant
            i <= t@.len(),
            raw == Some(s),
            t@ == trim(s@),
            0 < t@.len() <= MAX_DRIVER_NAME_LEN,
            forall|j: int| 0 <= j < i ==> !forbidden(#[trigger] t@[j]),
        decreases t@.len() - i,
    {
        let c = t[i];
        if c == '"' || c == '\\' || is_control(c) {
            proof {
                lemma_first_forbidden(t@, i as int);
            }
            let mut e = String::new();
            push_str(&mut e, "driver name contains a forbidden character ");
            push_forbidden_debug(&mut e, c);
            push_str(&mut e, " (no quotes, backslashes or control characters)");
            return Err(e);
        }
        i = i + 1;
    }
    proof {
        lemma_first_forbidden(t@, t@.len() as int);
    }
    Ok(Some(string_of(t.as_slice())))
}

proof fn lemma_first_forbidden(s: Seq<char>, k: int)
    requires
        0 <= k <= s.len(),
        forall|j: int| 0 <= j < k ==> !forbidden(#[trigger] s[j]),
        k < s.len() ==> forbidden(s[k]),
    ensures
        first_forbidden(s) == k,
    decreases s.len(),
{
    if s.len() > 0 && !forbidden(s[0]) {
        assert forall|j: int| 0 <= j < k - 1 implies !forbidden(#[trigger] s.drop_first()[j]) by {
            assert(s.drop_first()[j] == s[j + 1]);
        }
        if k - 1 < s.drop_first().len() {
            assert(s.drop_first()[k - 1] == s[k]);
        }
        lemma_first_forbidden(s.drop_first(), k - 1);
    }
}

/// Each character that is not alphanumeric replaced by `-`.
pub open spec fn dash_non_alphanumeric(s: Seq<char>) -> Seq<char> {
    s.map_values(|c: char| if char_is_alphanumeric(c) { c } else { '-' })
}

/// The slug of a display name: lower-cased, every run of characters that
/// are not alphanumeric collapsed to one `-`, none at either end.
pub open spec fn slug(name: Seq<char>) -> Seq<char> {
    join(fields_by(dash_non_alphanumeric(str_lowercase(name)), strip_pred(false, '-')), '-')
}

/// Convert a display name to a URL-safe slug for IPP routing.
pub fn slugify(name: &str) -> (r: String)
    ensures
        r@ == slug(name@),
{
    let lower = to_lowercase(name);
    let cs = chars_of(lower.as_str());
    let mut mapped: Vec<char> = Vec::new();
    let mut i: usize = 0;
    while i < cs.len()
        invariant
            i <= cs@.len(),
            mapped@ == dash_non_alphanumeric(cs@.take(i as int)),
        decreases cs@.len() - i,
    {
        let c = cs[i];
        let m = if is_alphanumeric(c) { c } else { '-' };
        mapped.push(m);
        i = i + 1;
        assert(mapped@ =~= dash_non_alphanumeric(cs@.take(i as int)));
    }
    assert(cs@.take(cs@.len() as int) =~= cs@);
    let parts = fields_exec(mapped.as_slice(), false, '-');
    let joined = join_exec(&parts, '-');
    string_of(joined.as_slice())
}

/// A slug is URL-safe: it holds only alphanumeric characters and dashes,
/// never two dashes in a row, and neither begins nor ends with a dash.
pub proof fn law_slug_is_url_safe(name: Seq<char>)
    ensures
        forall|i: int| 0 <= i < slug(name).len() ==> #[trigger] slug(name)[i] == '-' || char_is_alphanumeric(slug(name)[i]),
        slug(name).len() > 0 ==> slug(name)[0] != '-' && slug(name).last() != '-',
        forall|i: int|
            0 <= i < slug(name).len() - 1 ==> !(#[trigger] slug(name)[i] == '-' && slug(name)[i + 1] == '-'),
{
    let m = dash_non_alphanumeric(str_lowercase(name));
    let p = strip_pred(false, '-');
    let q = |c: char| char_is_alphanumeric(c);
    assert forall|i: int| 0 <= i < m.len() && !p(m[i]) implies q(m[i]) by {
        let c = str_lowercase(name)[i];
        assert(m[i] == (if char_is_alphanumeric(c) { c } else { '-' }));
    }
    lemma_fields_by_chars(m, p, q);
    let f = fields_by(m, p);
    assert forall|k: int, j: int| 0 <= k < f.len() && 0 <= j < f[k].len() implies #[trigger] f[k][j] != '-'
        && q(f[k][j]) by {
        assert(!p(f[k][j]));
    }
    lemma_join_shape(f, '-', q);
}

/// A character a slug of ASCII text is made of, besides the dash: a
/// lower-case letter or a digit.
pub open spec fn slug_char(c: char) -> bool {
    ('a' <= c && c <= 'z') || ('0' <= c && c <= '9')
}

/// The slug of an ASCII name holds only lower-case letters, digits and
/// dashes, and slugging it again changes nothing.
pub proof fn law_slug_of_ascii_is_stable(name: Seq<char>)
    requires
        all_ascii(name),
    ensures
        forall|i: int| 0 <= i < slug(name).len() ==> #[trigger] slug(name)[i] == '-' || slug_char(slug(name)[i]),
        slug(slug(name)) == slug(name),
{
    let low = str_lowercase(name);
    assert(low == ascii_lower_seq(name));
    let m = dash_non_alphanumeric(low);
    let p = strip_pred(false, '-');
    let q = |c: char| slug_char(c);
    assert forall|i: int| 0 <= i < m.len() && !p(m[i]) implies q(m[i]) by {
        let c = name[i];
        assert((c as u32) < 128);
        assert(low[i] == ascii_lower(c));
        assert(m[i] == (if char_is_alphanumeric(low[i]) { low[i] } else { '-' }));
    }
    lemma_fields_by_chars(m, p, q);
    let f = fields_by(m, p);
    assert forall|k: int, j: int| 0 <= k < f.len() && 0 <= j < f[k].len() implies #[trigger] f[k][j] != '-'
        && q(f[k][j]) by {
        assert(!p(f[k][j]));
    }
    lemma_join_shape(f, '-', q);
    let t = slug(name);
    assert(t == join(f, '-'));
    assert(all_ascii(t)) by {
        assert forall|i: int| 0 <= i < t.len() implies (#[trigger] t[i] as u32) < 128 by {
            assert(t[i] == '-' || q(t[i]));
        }
    }
    assert(str_lowercase(t) =~= t) by {
        assert forall|i: int| 0 <= i < t.len() implies #[trigger] ascii_lower_seq(t)[i] == t[i] by {
            assert(t[i] == '-' || q(t[i]));
        }
    }
    assert(dash_non_alphanumeric(t) =~= t) by {
        assert forall|i: int| 0 <= i < t.len() implies #[trigger] dash_non_alphanumeric(t)[i] == t[i] by {
            assert(t[i] == '-' || q(t[i]));
        }
    }
    assert forall|k: int, j: int| 0 <= k < f.len() && 0 <= j < f[k].len() implies !p(#[trigger] f[k][j]) by {}
    lemma_fields_by_join(f, '-', p);
}

} // verus!
