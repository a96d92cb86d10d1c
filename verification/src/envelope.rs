//! Request envelopes and the replies that answer them.
//!
//! An envelope pairs a callback handle with a payload and, through its
//! variant, names the shape of the reply it expects. A reply is checked
//! against that shape before its payload is handed to the caller.
use vstd::prelude::*;
use polars::prelude::Series;
use crate::error::BridgeError;

verus! {

/// A transportable reference to a host closure: an identity and nothing else.
///
/// The closure behind it is looked up, and called, on the host-execution
/// thread only.
#[derive(Clone, Copy, Debug, PartialEq, Eq, Structural)]
pub struct CallbackHandle {
    pub id: u64,
}

impl CallbackHandle {
    /// A handle for the closure registered under `id`.
    pub fn new(id: u64) -> (h: CallbackHandle)
        ensures
            h.id == id,
    {
        CallbackHandle { id }
    }
}

/// The kind of payload a reply carries.
#[derive(Clone, Copy, Debug, PartialEq, Eq, Structural)]
pub enum ReplyShape {
    /// A columnar batch.
    Batch,
    /// A plain string.
    Text,
}

/// What a reply or a deferred task carries.
pub enum Payload {
    /// A columnar batch.
    Batch(Series),
    /// A plain string.
    Text(String),
}

impl Payload {
    /// The shape of this payload.
    pub open spec fn spec_shape(self) -> ReplyShape {
        match self {
            Payload::Batch(_) => ReplyShape::Batch,
            Payload::Text(_) => ReplyShape::Text,
        }
    }

    /// The shape of this payload.
    pub fn shape(&self) -> (s: ReplyShape)
        ensures
            s == self.spec_shape(),
    {
        match self {
            Payload::Batch(_) => ReplyShape::Batch,
            Payload::Text(_) => ReplyShape::Text,
        }
    }
}

/// One request to the dispatcher. The variant is the call shape.
pub enum Envelope {
    /// Batch in, batch out: a user transform over a column.
    BatchToBatch(CallbackHandle, Series),
    /// Scalar in, string out: a naming function asked for the name at an index.
    ScalarToText(CallbackHandle, u64),
    /// Name in, name out: a renaming function.
    NameToName(CallbackHandle, String),
    /// Batch in, batch out, for a closure that travels as bytes: the call of
    /// a deferred task.
    SerializedToBatch(Vec<u8>, Series),
}

impl Envelope {
    /// The registered closure this envelope asks the dispatcher to call;
    /// `None` where the closure travels inside the envelope.
    pub open spec fn spec_handle(self) -> Option<CallbackHandle> {
        match self {
            Envelope::BatchToBatch(h, _) => Some(h),
            Envelope::ScalarToText(h, _) => Some(h),
            Envelope::NameToName(h, _) => Some(h),
            Envelope::SerializedToBatch(_, _) => None,
        }
    }

    /// The shape of the reply this envelope expects.
    pub open spec fn spec_expected(self) -> ReplyShape {
        match self {
            Envelope::BatchToBatch(_, _) => ReplyShape::Batch,
            Envelope::ScalarToText(_, _) => ReplyShape::Text,
            Envelope::NameToName(_, _) => ReplyShape::Text,
            Envelope::SerializedToBatch(_, _) => ReplyShape::Batch,
        }
    }

    /// The registered closure this envelope asks the dispatcher to call;
    /// `None` where the closure travels inside the envelope.
    pub fn handle(&self) -> (h: Option<CallbackHandle>)
        ensures
            h == self.spec_handle(),
    {
        match self {
            Envelope::BatchToBatch(h, _) => Some(*h),
            Envelope::ScalarToText(h, _) => Some(*h),
            Envelope::NameToName(h, _) => Some(*h),
            Envelope::SerializedToBatch(_, _) => None,
        }
    }

    /// The shape of the reply this envelope expects.
    pub fn expected(&self) -> (s: ReplyShape)
        ensures
            s == self.spec_expected(),
    {
        match self {
            Envelope::BatchToBatch(_, _) => ReplyShape::Batch,
            Envelope::ScalarToText(_, _) => ReplyShape::Text,
            Envelope::NameToName(_, _) => ReplyShape::Text,
            Envelope::SerializedToBatch(_, _) => ReplyShape::Batch,
        }
    }
}

/// What the dispatcher produced for one request.
pub enum Reply {
    /// The closure returned this value.
    Value(Payload),
    /// The closure failed: a host-side error, a wrong return type or a wrong
    /// arity, with the host's message.
    Failed(String),
}

/// What a waiting thread is woken with.
pub enum Wake {
    /// The dispatcher's reply.
    Reply(Reply),
    /// The dispatcher's side is gone.
    Closed,
}

/// What a reply means to a caller that expects `expected`.
pub open spec fn spec_check_reply(expected: ReplyShape, reply: Reply) -> Result<Payload, BridgeError> {
    match reply {
        Reply::Value(p) => if p.spec_shape() == expected {
            Ok(p)
        } else {
            Err(BridgeError::ShapeMismatch)
        },
        Reply::Failed(msg) => Err(BridgeError::CallbackFailed(msg)),
    }
}

/// What a wake-up means to a caller that expects `expected`.
pub open spec fn spec_check_wake(expected: ReplyShape, wake: Wake) -> Result<Payload, BridgeError> {
    match wake {
        Wake::Reply(r) => spec_check_reply(expected, r),
        Wake::Closed => Err(BridgeError::Disconnected),
    }
}

/// Checks a reply against the shape its envelope declared.
///
/// A value of the declared shape is handed on untouched; a value of another
/// shape is a `ShapeMismatch`; a failure of the closure is a `CallbackFailed`
/// that carries the host's message.
pub fn check_reply(expected: ReplyShape, reply: Reply) -> (r: Result<Payload, BridgeError>)
    ensures
        r == spec_check_reply(expected, reply),
{
    match reply {
        Reply::Value(p) => {
            if p.shape() == expected {
                Ok(p)
            } else {
                Err(BridgeError::ShapeMismatch)
            }
        },
        Reply::Failed(msg) => Err(BridgeError::CallbackFailed(msg)),
    }
}

/// Checks what a waiting thread was woken with: a closed peer is
/// `Disconnected`, a reply is checked as `check_reply` does.
pub fn check_wake(expected: ReplyShape, wake: Wake) -> (r: Result<Payload, BridgeError>)
    ensures
        r == spec_check_wake(expected, wake),
{
    match wake {
        Wake::Reply(reply) => check_reply(expected, reply),
        Wake::Closed => Err(BridgeError::Disconnected),
    }
}

/// A failure of the host closure always reaches the caller as a typed
/// `CallbackFailed` value with the host's message, whatever shape was expected.
pub proof fn lemma_callback_failure_is_typed(expected: ReplyShape, msg: String)
    ensures
        spec_check_wake(expected, Wake::Reply(Reply::Failed(msg))) == Err::<Payload, BridgeError>(
            BridgeError::CallbackFailed(msg),
        ),
{
}

} // verus!
