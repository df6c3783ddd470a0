//! Client registrations and their pairing state: a new client waits for an
//! admin's approval before it is handed jobs.
use vstd::prelude::*;

use crate::text::{all_ascii, ascii_lower, ascii_lower_seq, chars_of, eq_str, str_lowercase, to_lowercase, trim, trim_str};

verus! {

/// Pairing state for a client connecting to the server. New clients start
/// as `Pending` until an admin approves them.
#[derive(Debug, Clone, Copy, PartialEq, Eq, Structural)]
pub enum PairingState {
    Pending,
    Approved,
    Rejected,
}

/// The lower-case name of a pairing state.
pub open spec fn pairing_name(p: PairingState) -> Seq<char> {
    match p {
        PairingState::Pending => "pending"@,
        PairingState::Approved => "approved"@,
        PairingState::Rejected => "rejected"@,
    }
}

/// The state a stored name stands for: `approved` and `rejected` in any
/// case, anything else `Pending`.
pub open spec fn pairing_from_name(s: Seq<char>) -> PairingState {
    let l = str_lowercase(s);
    if l == "approved"@ {
        PairingState::Approved
    } else if l == "rejected"@ {
        PairingState::Rejected
    } else {
        PairingState::Pending
    }
}

/// Each state's name is ASCII lower case, which lower-casing leaves as it
/// is, and the names differ.
proof fn lemma_name_is_lower_ascii(p: PairingState)
    ensures
        all_ascii(pairing_name(p)),
        ascii_lower_seq(pairing_name(p)) == pairing_name(p),
        "approved"@ != "rejected"@,
        "approved"@ != "pending"@,
        "rejected"@ != "pending"@,
{
    reveal_strlit("approved");
    reveal_strlit("rejected");
    reveal_strlit("pending");
    assert("approved"@[0] != "rejected"@[0]);
    assert("approved"@[0] != "pending"@[0]);
    assert("rejected"@[0] != "pending"@[0]);
    let n = pairing_name(p);
    assert forall|i: int| 0 <= i < n.len() implies (#[trigger] n[i] as u32) < 128 && ascii_lower(n[i]) == n[i] by {
        if p == PairingState::Approved {
            assert(n =~= seq!['a', 'p', 'p', 'r', 'o', 'v', 'e', 'd']);
        } else if p == PairingState::Rejected {
            assert(n =~= seq!['r', 'e', 'j', 'e', 'c', 't', 'e', 'd']);
        } else {
            assert(n =~= seq!['p', 'e', 'n', 'd', 'i', 'n', 'g']);
        }
    }
    assert(ascii_lower_seq(n) =~= n);
}

/// A state's name reads back as that state in any letter case: ASCII text
/// that lower-cases to the name stands for the state.
pub proof fn law_pairing_name_any_case(p: PairingState, s: Seq<char>)
    requires
        all_ascii(s),
        ascii_lower_seq(s) == pairing_name(p),
    ensures
        pairing_from_name(s) == p,
{
    lemma_name_is_lower_ascii(p);
}

impl PairingState {
    /// The state's lower-case name (`pending`, `approved`, `rejected`).
    pub fn to_string(&self) -> (r: String)
        ensures
            r@ == pairing_name(*self),
    {
        match self {
            PairingState::Pending => "pending".to_owned(),
            PairingState::Approved => "approved".to_owned(),
            PairingState::Rejected => "rejected".to_owned(),
        }
    }

    /// Parse a pairing state from a string (case-insensitive).
    /// Returns `Pending` for unrecognised values. The name [`Self::to_string`]
    /// gives a state reads back as that state.
    pub fn from_str_lossy(s: &str) -> (r: Self)
        ensures
            r == pairing_from_name(s@),
            forall|p: PairingState| #[trigger] pairing_name(p) == s@ ==> r == p,
    {
        let lower = to_lowercase(s);
        let l = chars_of(lower.as_str());
        let r = if eq_str(l.as_slice(), "approved") {
            PairingState::Approved
        } else if eq_str(l.as_slice(), "rejected") {
            PairingState::Rejected
        } else {
            PairingState::Pending
        };
        proof {
            if s@ == pairing_name(PairingState::Pending) || s@ == pairing_name(PairingState::Approved)
                || s@ == pairing_name(PairingState::Rejected) {
                let p = if s@ == pairing_name(PairingState::Pending) {
                    PairingState::Pending
                } else if s@ == pairing_name(PairingState::Approved) {
                    PairingState::Approved
                } else {
                    PairingState::Rejected
                };
                lemma_name_is_lower_ascii(p);
                law_pairing_name_any_case(p, s@);
            }
        }
        r
    }
}

/// A client as the server knows it. `last_seen` is seconds since the Unix
/// epoch (UTC).
#[derive(Debug, Clone)]
pub struct ClientRegistration {
    pub machine_id: String,
    pub hostname: String,
    pub printer_names: Vec<String>,
    pub client_version: String,
    pub last_seen: i64,
    pub is_online: bool,
    pub pairing_state: PairingState,
    pub virtual_printer_name: Option<String>,
    /// Windows driver override the client asked for its virtual printer.
    /// Applied when the server auto-creates the virtual printer on approval.
    pub virtual_printer_driver: Option<String>,
}

impl ClientRegistration {
    /// May this client be handed jobs from the server's default (unpaired)
    /// queue? Not when it asked for a vendor-driver virtual printer: such a
    /// client prints RAW to e.g. a label printer, where default-queue jobs
    /// would come out as garbage. It only receives the jobs of the virtual
    /// printer paired to it.
    pub fn takes_default_queue(&self) -> (r: bool)
        ensures
            r == (match self.virtual_printer_driver {
                None => true,
                Some(d) => trim(d@).len() == 0,
            }),
    {
        match &self.virtual_printer_driver {
            None => true,
            Some(d) => trim_str(d.as_str()).len() == 0,
        }
    }
}

} // verus!
