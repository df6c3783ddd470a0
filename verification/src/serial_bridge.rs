//! The serial bridge: barcodes read line by line from a local serial port
//! are forwarded to the server, which writes them to a virtual COM port.
//! Opening and reading the port is the application's (Windows only); what
//! is forwarded, and how often the port is retried, is decided here.
use vstd::prelude::*;

use crate::text::{trim, trim_str};
use vstd::arithmetic::power2::{lemma2_to64, lemma_pow2_unfold, pow2};

verus! {

/// One barcode line forwarded to the server.
#[derive(Debug, Clone)]
pub struct SerialData {
    pub client_id: String,
    pub data: Vec<u8>,
}

/// The message for one line read from the port (its line ending
/// included); `None` for a blank line, which is not forwarded.
pub fn barcode_message(client_id: &str, line: &str) -> (r: Option<SerialData>)
    ensures
        trim(line@).len() == 0 ==> r is None,
        trim(line@).len() > 0 ==> (r matches Some(m) && m.client_id@ == client_id@ && m.data@
            == vstd::utf8::encode_utf8(line@)),
{
    let t = trim_str(line);
    if t.len() == 0 {
        None
    } else {
        let bytes = line.as_bytes();
        let mut data: Vec<u8> = Vec::new();
        let mut i: usize = 0;
        while i < bytes.len()
            invariant
                i <= bytes@.len(),
                data@ == bytes@.take(i as int),
            decreases bytes@.len() - i,
        {
            data.push(bytes[i]);
            i = i + 1;
            assert(data@ =~= bytes@.take(i as int));
        }
        assert(bytes@.take(bytes@.len() as int) =~= bytes@);
        Some(SerialData { client_id: client_id.to_owned(), data })
    }
}

/// The longest wait between attempts to open the port, in seconds.
pub const MAX_READER_BACKOFF_SECS: u64 = 30;

/// The wait after one of `backoff_secs`: doubled, at most 30 seconds.
pub open spec fn reader_step(backoff_secs: int) -> int {
    if 2 * backoff_secs < MAX_READER_BACKOFF_SECS {
        2 * backoff_secs
    } else {
        MAX_READER_BACKOFF_SECS as int
    }
}

/// The wait after a failed or closed port: doubled, at most 30 seconds.
pub fn next_reader_backoff(backoff_secs: u64) -> (r: u64)
    ensures
        r == reader_step(backoff_secs as int),
{
    if backoff_secs < MAX_READER_BACKOFF_SECS / 2 {
        backoff_secs * 2
    } else {
        MAX_READER_BACKOFF_SECS
    }
}

/// The wait after `n` failed attempts to open the port, the first wait
/// being one second.
pub open spec fn reader_wait(n: nat) -> int
    decreases n,
{
    if n == 0 {
        1
    } else {
        reader_step(reader_wait((n - 1) as nat))
    }
}

/// The reader retries after 1, 2, 4, ... seconds, the wait doubling after
/// each failure until it reaches its cap of 30 seconds.
pub proof fn law_reader_backoff_doubles_to_cap(n: nat)
    ensures
        reader_wait(n) == (if pow2(n) < MAX_READER_BACKOFF_SECS {
            pow2(n) as int
        } else {
            MAX_READER_BACKOFF_SECS as int
        }),
    decreases n,
{
    if n == 0 {
        lemma2_to64();
    } else {
        law_reader_backoff_doubles_to_cap((n - 1) as nat);
        lemma_pow2_unfold(n);
    }
}

} // verus!
