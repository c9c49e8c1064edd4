//! Extraction of the monotonically assigned message identifier from a
//! transaction's emitted log data.

use vstd::prelude::*;

use crate::bigendian::{spec_u64_from_be_bytes, u64_from_be_at};
use crate::types::BridgeError;

verus! {

/// Byte length of the event-data word that carries the message identifier.
pub const LOG_WORD_LEN: usize = 32;

/// Reads the message identifier from the logs a submission emitted: the last
/// eight bytes of the 32-byte word at the start of the first log's data,
/// interpreted big-endian.
///
/// An empty log list fails with `NoLogsEmitted` (the emitting call did not
/// fire the expected event); a first log shorter than the 32-byte word fails
/// with `LogMalformed` (an ABI mismatch).  The two are kept distinct so
/// callers can tell a missing event from a format bug.
pub fn extract_message_id(logs: &Vec<Vec<u8>>) -> (r: Result<u64, BridgeError>)
    ensures
        logs@.len() == 0 ==> (r matches Err(e) && e == BridgeError::NoLogsEmitted),
        logs@.len() > 0 && logs@[0]@.len() < LOG_WORD_LEN ==> (r matches Err(e) && e
            == BridgeError::LogMalformed),
        logs@.len() > 0 && logs@[0]@.len() >= LOG_WORD_LEN ==> (r matches Ok(id) && id
            == spec_u64_from_be_bytes(logs@[0]@.subrange(24, 32))),
{
    if logs.len() == 0 {
        return Err(BridgeError::NoLogsEmitted);
    }
    let first = &logs[0];
    if first.len() < LOG_WORD_LEN {
        return Err(BridgeError::LogMalformed);
    }
    Ok(u64_from_be_at(first.as_slice(), 24))
}

} // verus!
