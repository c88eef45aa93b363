//! The heap profile endpoint's decisions: a profile is served only while
//! jemalloc profiling is active, and a failed dump is answered as a server
//! error carrying the failure's message.

use vstd::prelude::*;

verus! {

/// Why no heap profile is served.
#[derive(Debug, PartialEq, Eq)]
pub enum HeapProfileError {
    /// Heap profiling is not active.
    NotActivated,
    /// Dumping the profile failed, with this message.
    DumpFailed(String),
}

/// The HTTP status that answers `e`.
pub open spec fn status_code_spec(e: HeapProfileError) -> u16 {
    match e {
        HeapProfileError::NotActivated => 403,
        HeapProfileError::DumpFailed(_) => 500,
    }
}

/// The body text that answers `e`.
pub open spec fn message_spec(e: HeapProfileError) -> Seq<char> {
    match e {
        HeapProfileError::NotActivated => "heap profiling not activated"@,
        HeapProfileError::DumpFailed(m) => m@,
    }
}

impl HeapProfileError {
    /// The HTTP status of the answer: 403 (Forbidden) when profiling is not
    /// active, 500 (Internal Server Error) when the dump failed.
    pub fn status_code(&self) -> (r: u16)
        ensures
            r == status_code_spec(*self),
    {
        match self {
            HeapProfileError::NotActivated => 403,
            HeapProfileError::DumpFailed(_) => 500,
        }
    }

    /// The body text of the answer.
    pub fn message(&self) -> (r: String)
        ensures
            r@ == message_spec(*self),
    {
        match self {
            HeapProfileError::NotActivated => String::from_str("heap profiling not activated"),
            HeapProfileError::DumpFailed(m) => m.clone(),
        }
    }
}

/// Checks that heap profiling is active.
pub fn require_profiling_activated(activated: bool) -> (r: Result<(), HeapProfileError>)
    ensures
        activated ==> r is Ok,
        !activated ==> r == Err::<(), HeapProfileError>(HeapProfileError::NotActivated),
{
    if activated {
        Ok(())
    } else {
        Err(HeapProfileError::NotActivated)
    }
}

/// The answer to a dump: the profile bytes, or a server error with the
/// failure's message.
pub fn dump_outcome(dump: Result<Vec<u8>, String>) -> (r: Result<Vec<u8>, HeapProfileError>)
    ensures
        dump matches Ok(p) ==> r matches Ok(q) && q@ == p@,
        dump matches Err(m) ==> r matches Err(HeapProfileError::DumpFailed(n)) && n@ == m@,
{
    match dump {
        Ok(profile) => Ok(profile),
        Err(message) => Err(HeapProfileError::DumpFailed(message)),
    }
}

} // verus!
