//! The failures a multiplexed connection can report.

use vstd::prelude::*;

verus! {

/// Why an operation on a connection, or a call carried by it, did not succeed.
#[derive(Clone, Copy, Debug, PartialEq, Eq, Structural)]
pub enum MuxError {
    /// The bytes are not the encoding of any frame.
    MalformedFrame,
    /// A frame or an operation names a call that the registry does not hold.
    UnknownCall,
    /// A peer opened a call under an id that is still in the registry.
    DuplicateCallId,
    /// No handler is registered under the method that a new call names.
    MethodNotFound,
    /// The call was cancelled, by this side or by the peer.
    Cancelled,
    /// The call saw no traffic for longer than it is allowed to stay idle.
    Timeout,
    /// The connection was shut down while the call was outstanding.
    ConnectionClosed,
    /// The peer broke the protocol more often than the connection tolerates.
    ProtocolAbuse,
    /// A handler gave up on the call.
    HandlerFailed,
    /// The sending direction of the call was closed before this send.
    SendClosed,
    /// Every call id of this side's partition has been handed out.
    CallIdsExhausted,
    /// A reply holds more responses than one call may ever have waiting, so
    /// that waiting for room would not help.
    ReplyTooLong,
    /// A reply to a call with one response is neither that one response nor
    /// a failure.
    ReplyShape,
}

impl MuxError {
    /// The byte that stands for this failure in the payload of an `error` frame.
    pub open spec fn spec_code(self) -> u8 {
        match self {
            MuxError::MalformedFrame => 1,
            MuxError::UnknownCall => 2,
            MuxError::DuplicateCallId => 3,
            MuxError::MethodNotFound => 4,
            MuxError::Cancelled => 5,
            MuxError::Timeout => 6,
            MuxError::ConnectionClosed => 7,
            MuxError::ProtocolAbuse => 8,
            MuxError::HandlerFailed => 9,
            MuxError::SendClosed => 10,
            MuxError::CallIdsExhausted => 11,
            MuxError::ReplyTooLong => 12,
            MuxError::ReplyShape => 13,
        }
    }

    /// The failure that a code byte stands for, if it stands for one.
    pub open spec fn spec_from_code(code: u8) -> Option<MuxError> {
        if code == 1 {
            Some(MuxError::MalformedFrame)
        } else if code == 2 {
            Some(MuxError::UnknownCall)
        } else if code == 3 {
            Some(MuxError::DuplicateCallId)
        } else if code == 4 {
            Some(MuxError::MethodNotFound)
        } else if code == 5 {
            Some(MuxError::Cancelled)
        } else if code == 6 {
            Some(MuxError::Timeout)
        } else if code == 7 {
            Some(MuxError::ConnectionClosed)
        } else if code == 8 {
            Some(MuxError::ProtocolAbuse)
        } else if code == 9 {
            Some(MuxError::HandlerFailed)
        } else if code == 10 {
            Some(MuxError::SendClosed)
        } else if code == 11 {
            Some(MuxError::CallIdsExhausted)
        } else if code == 12 {
            Some(MuxError::ReplyTooLong)
        } else if code == 13 {
            Some(MuxError::ReplyShape)
        } else {
            None
        }
    }

    /// The byte that stands for this failure on the wire.
    pub fn code(self) -> (c: u8)
        ensures
            c == self.spec_code(),
    {
        match self {
            MuxError::MalformedFrame => 1,
            MuxError::UnknownCall => 2,
            MuxError::DuplicateCallId => 3,
            MuxError::MethodNotFound => 4,
            MuxError::Cancelled => 5,
            MuxError::Timeout => 6,
            MuxError::ConnectionClosed => 7,
            MuxError::ProtocolAbuse => 8,
            MuxError::HandlerFailed => 9,
            MuxError::SendClosed => 10,
            MuxError::CallIdsExhausted => 11,
            MuxError::ReplyTooLong => 12,
            MuxError::ReplyShape => 13,
        }
    }

    /// The failure that a code byte stands for, if it stands for one.
    pub fn from_code(code: u8) -> (e: Option<MuxError>)
        ensures
            e == Self::spec_from_code(code),
    {
        if code == 1 {
            Some(MuxError::MalformedFrame)
        } else if code == 2 {
            Some(MuxError::UnknownCall)
        } else if code == 3 {
            Some(MuxError::DuplicateCallId)
        } else if code == 4 {
            Some(MuxError::MethodNotFound)
        } else if code == 5 {
            Some(MuxError::Cancelled)
        } else if code == 6 {
            Some(MuxError::Timeout)
        } else if code == 7 {
            Some(MuxError::ConnectionClosed)
        } else if code == 8 {
            Some(MuxError::ProtocolAbuse)
        } else if code == 9 {
            Some(MuxError::HandlerFailed)
        } else if code == 10 {
            Some(MuxError::SendClosed)
        } else if code == 11 {
            Some(MuxError::CallIdsExhausted)
        } else if code == 12 {
            Some(MuxError::ReplyTooLong)
        } else if code == 13 {
            Some(MuxError::ReplyShape)
        } else {
            None
        }
    }

    /// Every failure has a code of its own, and a code names at most one failure.
    pub proof fn lemma_code_round_trip(e: MuxError, code: u8)
        ensures
            Self::spec_from_code(e.spec_code()) == Some(e),
            Self::spec_from_code(code) == Some(e) ==> e.spec_code() == code,
    {
    }
}

} // verus!
