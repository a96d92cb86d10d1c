//! The error taxonomy of the bridge.
use vstd::prelude::*;
use vstd::string::StringExecFns;

verus! {

/// Every way in which a round trip over the bridge can fail.
#[derive(Debug)]
pub enum BridgeError {
    /// The registry was used before the dispatcher was set up.
    Uninitialized,
    /// The peer was torn down while a reply was awaited.
    Disconnected,
    /// The reply's payload kind is not the one the envelope declared.
    ShapeMismatch,
    /// The host closure itself failed; the message is the host's.
    CallbackFailed(String),
    /// A deferred task or a channel was used again after it had completed.
    DoubleResolve,
}

impl BridgeError {
    /// The position of the variant in the taxonomy, 0 to 4.
    pub open spec fn spec_code(self) -> int {
        match self {
            BridgeError::Uninitialized => 0,
            BridgeError::Disconnected => 1,
            BridgeError::ShapeMismatch => 2,
            BridgeError::CallbackFailed(_) => 3,
            BridgeError::DoubleResolve => 4,
        }
    }

    /// What `message` returns.
    pub open spec fn spec_message(self) -> Seq<char> {
        match self {
            BridgeError::Uninitialized => "the callback bridge is not initialized"@,
            BridgeError::Disconnected => "the callback bridge was torn down"@,
            BridgeError::ShapeMismatch => "the callback returned a value of another kind"@,
            BridgeError::CallbackFailed(m) => "the callback failed: "@ + m@,
            BridgeError::DoubleResolve => "the result was claimed before"@,
        }
    }

    /// A sentence for the user. The message of a failed callback ends with
    /// the host's own words.
    pub fn message(&self) -> (m: String)
        ensures
            m@ == self.spec_message(),
    {
        match self {
            BridgeError::Uninitialized => "the callback bridge is not initialized".to_owned(),
            BridgeError::Disconnected => "the callback bridge was torn down".to_owned(),
            BridgeError::ShapeMismatch => "the callback returned a value of another kind".to_owned(),
            BridgeError::CallbackFailed(m) => "the callback failed: ".to_owned().concat(m.as_str()),
            BridgeError::DoubleResolve => "the result was claimed before".to_owned(),
        }
    }

    /// The position of the variant in the taxonomy.
    pub fn code(&self) -> (c: u8)
        ensures
            c as int == self.spec_code(),
    {
        match self {
            BridgeError::Uninitialized => 0,
            BridgeError::Disconnected => 1,
            BridgeError::ShapeMismatch => 2,
            BridgeError::CallbackFailed(_) => 3,
            BridgeError::DoubleResolve => 4,
        }
    }
}

} // verus!
