//! The safe core of a library for writing plugins and event handlers for
//! the Janus WebRTC gateway: everything that decides or computes, on plain
//! values, with a contract that Verus has proved. The calls into Janus and
//! into the libraries it is built on are made around this crate.

pub mod debug;
pub mod jansson;
pub mod plugin;
pub mod refcount;
pub mod rtcp;
pub mod sdp;
pub mod session;
pub mod utils;

pub use crate::debug::LogLevel;
pub use crate::jansson::{JanssonDecodingFlags, JanssonEncodingFlags, JanssonValue, RawJanssonValue};
pub use crate::plugin::{PluginResult, PluginResultType};
pub use crate::session::{PluginSession, SessionWrapper};

use crate::utils::{decimal_text, push_number};
use vstd::prelude::*;
use vstd::string::*;

verus! {

/// Events about the sessions of the gateway.
pub const JANUS_EVENT_TYPE_SESSION: u32 = 0x1;

/// Events about the handles of the sessions.
pub const JANUS_EVENT_TYPE_HANDLE: u32 = 0x2;

/// Events about offers and answers. Its bit is not the one that follows.
pub const JANUS_EVENT_TYPE_JSEP: u32 = 0x8;

/// Events about the state of the peer connections.
pub const JANUS_EVENT_TYPE_WEBRTC: u32 = 0x10;

/// Events about the media that flows.
pub const JANUS_EVENT_TYPE_MEDIA: u32 = 0x20;

/// Events that plugins send.
pub const JANUS_EVENT_TYPE_PLUGIN: u32 = 0x40;

/// Events that transports send.
pub const JANUS_EVENT_TYPE_TRANSPORT: u32 = 0x80;

/// Events about the gateway itself.
pub const JANUS_EVENT_TYPE_CORE: u32 = 0x100;

/// The bits that a mask of events may hold.
pub const JANUS_EVENT_TYPE_ALL: u32 = 0x1fb;

/// Flags that control which events an event handler receives.
#[derive(Debug, Copy, Clone, PartialEq, Eq, Hash, Structural)]
pub struct JanusEventType {
    bits: u32,
}

impl View for JanusEventType {
    type V = u32;

    closed spec fn view(&self) -> u32 {
        self.bits
    }
}

impl JanusEventType {
    #[verifier::type_invariant]
    spec fn well_formed(self) -> bool {
        self.bits & !JANUS_EVENT_TYPE_ALL == 0
    }

    /// No event.
    pub fn empty() -> (mask: Self)
        ensures
            mask@ == 0,
    {
        assert(0u32 & !JANUS_EVENT_TYPE_ALL == 0) by (bit_vector);
        JanusEventType { bits: 0 }
    }

    /// Every event.
    pub fn all() -> (mask: Self)
        ensures
            mask@ == JANUS_EVENT_TYPE_ALL,
    {
        assert(JANUS_EVENT_TYPE_ALL & !JANUS_EVENT_TYPE_ALL == 0) by (bit_vector);
        JanusEventType { bits: JANUS_EVENT_TYPE_ALL }
    }

    /// The word that Janus takes for this mask. It holds no bit but those
    /// of the eight kinds of events.
    pub fn bits(&self) -> (bits: u32)
        ensures
            bits == self@,
            bits & !JANUS_EVENT_TYPE_ALL == 0,
    {
        proof {
            use_type_invariant(self);
        }
        self.bits
    }

    /// The mask of a word, if the word holds no bit but those of the
    /// kinds of events.
    pub fn from_bits(bits: u32) -> (mask: Option<Self>)
        ensures
            mask is Some <==> bits & !JANUS_EVENT_TYPE_ALL == 0,
            mask matches Some(m) ==> m@ == bits,
    {
        if bits & !JANUS_EVENT_TYPE_ALL == 0 {
            Some(JanusEventType { bits })
        } else {
            None
        }
    }

    /// The mask of a word without the bits that are not those of the
    /// kinds of events.
    pub fn from_bits_truncate(bits: u32) -> (mask: Self)
        ensures
            mask@ == bits & JANUS_EVENT_TYPE_ALL,
    {
        assert((bits & JANUS_EVENT_TYPE_ALL) & !JANUS_EVENT_TYPE_ALL == 0) by (bit_vector);
        JanusEventType { bits: bits & JANUS_EVENT_TYPE_ALL }
    }

    /// Whether every event of `other` is in this mask.
    pub fn contains(&self, other: Self) -> (yes: bool)
        ensures
            yes == (self@ & other@ == other@),
    {
        self.bits & other.bits == other.bits
    }

    /// The events of either mask.
    pub fn union(self, other: Self) -> (mask: Self)
        ensures
            mask@ == self@ | other@,
    {
        proof {
            use_type_invariant(self);
            use_type_invariant(other);
        }
        let a = self.bits;
        let b = other.bits;
        assert((a | b) & !JANUS_EVENT_TYPE_ALL == 0) by (bit_vector)
            requires
                a & !JANUS_EVENT_TYPE_ALL == 0,
                b & !JANUS_EVENT_TYPE_ALL == 0,
        ;
        JanusEventType { bits: a | b }
    }
}

/// An error emitted by the Janus core in response to a plugin pushing an event.
#[derive(Debug, Clone, Copy, PartialEq, Eq, Structural)]
pub struct JanusError {
    pub code: i32,
}

/// A result from pushing an event to Janus core.
pub type JanusResult = Result<(), JanusError>;

/// What an error says: the description that Janus has for its code, and
/// the code in brackets.
pub open spec fn error_text(description: Seq<char>, code: int) -> Seq<char> {
    description + seq![' ', '(', 'c', 'o', 'd', 'e', ':', ' '] + decimal_text(code) + seq![')']
}

impl JanusError {
    /// Converts a Janus result code to either success or a potential
    /// error: the code 0 is success, and any other code is the error that
    /// holds it.
    pub fn from(val: i32) -> (result: JanusResult)
        ensures
            result == if val == 0 {
                Ok::<(), JanusError>(())
            } else {
                Err::<(), JanusError>(JanusError { code: val })
            },
    {
        if val == 0 {
            Ok(())
        } else {
            Err(JanusError { code: val })
        }
    }

    /// What this error says, given the description that Janus has for its
    /// code.
    pub fn message(&self, description: &str) -> (text: String)
        ensures
            text@ == error_text(description@, self.code as int),
    {
        proof {
            reveal_strlit(" (code: ");
            reveal_strlit(")");
        }
        let mut text = String::from_str(description);
        text.append(" (code: ");
        push_number(&mut text, self.code);
        text.append(")");
        text
    }
}

} // verus!
