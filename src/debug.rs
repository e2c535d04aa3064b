use vstd::prelude::*;
use vstd::string::StringExecFns;

verus! {

/// Whether developer-only capabilities are on for this process.
///
/// It is built once at startup from the outcome of the developer-marker scan
/// and only read afterwards, so it can be shared freely among request handlers.
#[derive(Clone, Copy, Debug, PartialEq, Eq, Structural)]
pub struct DebugState {
    pub enabled: bool,
}

/// The message of the one refusal a handler can give.
pub open spec fn debug_disabled_message() -> Seq<char> {
    "debug disabled"@
}

impl DebugState {
    pub fn new(enabled: bool) -> (r: DebugState)
        ensures
            r.enabled == enabled,
    {
        DebugState { enabled }
    }

    /// The request that reports whether debugging is on.
    pub fn is_debug_enabled(&self) -> (r: bool)
        ensures
            r == self.enabled,
    {
        self.enabled
    }
}

/// Decides a request to open the developer tools of the calling window.
///
/// `Ok(())` means the caller is to open the panel; `Err` carries the message
/// for the frontend, and then nothing is to be opened.
pub fn open_devtools(state: &DebugState) -> (r: Result<(), String>)
    ensures
        r is Ok <==> state.enabled,
        r matches Err(msg) ==> msg@ == debug_disabled_message(),
{
    if !state.enabled {
        return Err(String::from_str("debug disabled"));
    }
    Ok(())
}

} // verus!
