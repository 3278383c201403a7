//! The output pump: what to do with each read from a session's terminal.
//!
//! One pump serves one instance of a session and is the only reader of its
//! terminal. The host performs the blocking reads and hands each outcome to
//! [`pump_output`], in the order in which the reads returned. What a read
//! leads to depends on whether the pump's instance is still registered: the
//! output of a session that was destroyed is not published, and the end of
//! its terminal does not touch a session registered later under the same
//! identifier.

use vstd::prelude::*;
use crate::message::{
    output_message, send_terminal_response, status_message, BroadcastMessage,
    BroadcastMessageView, TerminalEvent, TerminalNotice,
};
use crate::registry::{retired, RegistryView, SessionRegistry};

verus! {

/// Largest number of bytes the pump asks for in one read.
pub const READ_CHUNK_SIZE: usize = 1024;

/// The text that lossy UTF-8 decoding makes of a byte sequence that is not
/// valid UTF-8.
pub uninterp spec fn utf8_lossy(bytes: Seq<u8>) -> Seq<char>;

/// The text that a chunk of terminal output is published as: the text that
/// the bytes encode where they are valid UTF-8, and otherwise what lossy
/// decoding makes of them.
pub open spec fn decoded_text(bytes: Seq<u8>) -> Seq<char> {
    if vstd::utf8::valid_utf8(bytes) {
        vstd::utf8::decode_utf8(bytes)
    } else {
        utf8_lossy(bytes)
    }
}

/// `String::from_utf8_lossy`: decodes bytes as UTF-8 and puts U+FFFD in place
/// of every invalid sequence. For bytes that are valid UTF-8 the result is
/// the text they encode; for any others it depends on the bytes alone.
#[verifier::external_body]
fn decode_lossy(bytes: &[u8]) -> (text: String)
    ensures
        text@ == if vstd::utf8::valid_utf8(bytes@) {
            vstd::utf8::decode_utf8(bytes@)
        } else {
            utf8_lossy(bytes@)
        },
{
    String::from_utf8_lossy(bytes).into_owned()
}

/// How one blocking read from a terminal ended.
#[derive(Clone, Debug, PartialEq, Eq)]
pub enum ReadOutcome {
    /// The read returned these bytes. No bytes at all means end of stream.
    Chunk(Vec<u8>),
    /// The terminal was closed.
    EndOfStream,
    /// The read failed.
    Failed,
}

impl ReadOutcome {
    /// The bytes that the read delivered; none if the stream ended or the
    /// read failed.
    pub open spec fn bytes(self) -> Seq<u8> {
        match self {
            ReadOutcome::Chunk(bytes) => bytes@,
            ReadOutcome::EndOfStream => Seq::empty(),
            ReadOutcome::Failed => Seq::empty(),
        }
    }
}

/// What the pump does after a read.
#[derive(Clone, Debug, PartialEq, Eq)]
pub enum PumpStep {
    /// Publish the message and read again.
    Forward(BroadcastMessage),
    /// Publish nothing and read again.
    Discard,
    /// Publish the message, if there is one, and stop reading: the terminal
    /// has come to its end.
    Finish(Option<BroadcastMessage>),
}

/// What contracts say of a value of [`PumpStep`]: text stands as a sequence
/// of characters.
pub enum PumpStepView {
    Forward(BroadcastMessageView),
    Discard,
    Finish(Option<BroadcastMessageView>),
}

impl View for PumpStep {
    type V = PumpStepView;

    open spec fn view(&self) -> PumpStepView {
        match self {
            PumpStep::Forward(message) => PumpStepView::Forward(message@),
            PumpStep::Discard => PumpStepView::Discard,
            PumpStep::Finish(Some(message)) => PumpStepView::Finish(Some(message@)),
            PumpStep::Finish(None) => PumpStepView::Finish(None),
        }
    }
}

/// The step of the pump on instance `instance` of session `id` for a read
/// that delivered `bytes`, in registry `s`.
///
/// While the instance is registered, bytes are forwarded as one `output`
/// message and the end of the terminal is announced with `exit`. Once it is
/// no longer registered, bytes are discarded; the end of the terminal is
/// announced with `exit` if the identifier is not registered at all, and
/// passes in silence if the identifier now names another session.
pub open spec fn pump_step(s: RegistryView, id: Seq<char>, instance: u64, bytes: Seq<u8>) -> PumpStepView {
    if s.live(id, instance) {
        if bytes.len() > 0 {
            PumpStepView::Forward(output_message(id, decoded_text(bytes)))
        } else {
            PumpStepView::Finish(Some(status_message(TerminalEvent::Exit, id)))
        }
    } else if bytes.len() > 0 {
        PumpStepView::Discard
    } else if s.sessions.contains_key(id) {
        PumpStepView::Finish(None)
    } else {
        PumpStepView::Finish(Some(status_message(TerminalEvent::Exit, id)))
    }
}

/// The registry after the pump on instance `instance` of session `id` took
/// in a read that delivered `bytes`: the end of the terminal ends that
/// instance, and nothing else changes anything.
pub open spec fn pump_registry(s: RegistryView, id: Seq<char>, instance: u64, bytes: Seq<u8>) -> RegistryView {
    if bytes.len() > 0 {
        s
    } else {
        retired(s, id, instance)
    }
}

/// Decides what follows one read from the terminal of instance `instance` of
/// `session_id`.
///
/// While that instance is registered, a read that delivered bytes becomes
/// one `output` message with the bytes decoded as UTF-8, invalid sequences
/// replaced, and the registry is untouched; an empty read, the end of the
/// stream or a failed read ends the session: it leaves the registry and an
/// `exit` message is published.
///
/// Once that instance is no longer registered nothing that the pump reads
/// is published and the registry stays as it is. The end of the terminal is
/// still announced with `exit`, unless the identifier has been registered
/// anew and so names another session.
pub fn pump_output(
    registry: &mut SessionRegistry,
    session_id: &str,
    instance: u64,
    read: ReadOutcome,
) -> (step: PumpStep)
    ensures
        step@ == pump_step(old(registry)@, session_id@, instance, read.bytes()),
        final(registry)@ == pump_registry(old(registry)@, session_id@, instance, read.bytes()),
{
    let live = registry.is_live(session_id, instance);
    match read {
        ReadOutcome::Chunk(bytes) => {
            if bytes.len() > 0 {
                if !live {
                    return PumpStep::Discard;
                }
                let text = decode_lossy(bytes.as_slice());
                return PumpStep::Forward(
                    BroadcastMessage::Terminal(
                        TerminalNotice {
                            action: TerminalEvent::Output,
                            session_id: session_id.to_owned(),
                            data: Some(text),
                        },
                    ),
                );
            }
        },
        ReadOutcome::EndOfStream => {},
        ReadOutcome::Failed => {},
    }
    if live {
        registry.retire(session_id, instance);
        PumpStep::Finish(Some(send_terminal_response(session_id, TerminalEvent::Exit)))
    } else if registry.contains(session_id) {
        PumpStep::Finish(None)
    } else {
        PumpStep::Finish(Some(send_terminal_response(session_id, TerminalEvent::Exit)))
    }
}

} // verus!
