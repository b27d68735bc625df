//! The engine's poll loop, one iteration at a time.

use vstd::prelude::*;
use crate::channel::ChannelPair;
use crate::document::{Document, DocumentView};
use crate::mailbox::{fits, slot_after_write, slot_cleared};
use crate::message::{DecodeFailed, DrawCommand, Op};

verus! {

/// What one iteration of the engine's loop came to.
#[derive(Debug, PartialEq, Eq)]
pub enum EngineOutcome {
    /// No operation was pending.
    Idle,
    /// The pending payload was no operation. It was discarded.
    DecodeFailed,
    /// The pending operation was applied, and this draw command sent.
    Emitted(DrawCommand),
    /// The pending operation was applied, but this draw command, encoded, did
    /// not fit the mailbox, and was not sent.
    Undeliverable(DrawCommand),
}

impl Clone for EngineOutcome {
    fn clone(&self) -> (copy: EngineOutcome)
        ensures
            copy == *self,
    {
        match self {
            EngineOutcome::Idle => EngineOutcome::Idle,
            EngineOutcome::DecodeFailed => EngineOutcome::DecodeFailed,
            EngineOutcome::Emitted(cmd) => EngineOutcome::Emitted(cmd.clone()),
            EngineOutcome::Undeliverable(cmd) => EngineOutcome::Undeliverable(cmd.clone()),
        }
    }
}

/// The engine has sent, or failed to send, the draw command `cmd`, whose
/// encoding is `wire`: a draw command that fits is stored in the mailbox of
/// the front end, and one that does not fit leaves that mailbox as it was.
pub open spec fn replied(
    cmd: DrawCommand,
    wire: Seq<u8>,
    out_before: Seq<u8>,
    out_after: Seq<u8>,
    outcome: EngineOutcome,
) -> bool {
    &&& out_after == slot_after_write(out_before, wire)
    &&& outcome == if fits(out_before, wire) {
        EngineOutcome::Emitted(cmd)
    } else {
        EngineOutcome::Undeliverable(cmd)
    }
}

/// The engine has acted on a payload that decoded to `decoded`: a malformed
/// payload changes neither the document nor the mailbox of the front end; an
/// operation is applied to the document, and the draw command for the line
/// of the cursor is encoded and sent.
pub open spec fn acted<E: Fn(&DrawCommand) -> Vec<u8>>(
    encode: E,
    decoded: Result<Op, DecodeFailed>,
    doc_before: DocumentView,
    doc_after: DocumentView,
    out_before: Seq<u8>,
    out_after: Seq<u8>,
    outcome: EngineOutcome,
) -> bool {
    match decoded {
        Err(_) => outcome is DecodeFailed && doc_after == doc_before && out_after == out_before,
        Ok(op) => doc_after == doc_before.apply(op) && exists|cmd: &DrawCommand, wire: Vec<u8>|
            cmd@ == doc_after.render() && call_ensures(encode, (cmd,), wire) && replied(
                *cmd,
                wire@,
                out_before,
                out_after,
                outcome,
            ),
    }
}

/// One iteration of the engine's loop: check the inbound mailbox, decode, act,
/// clear. `decode` and `encode` are the wire format of the two messages.
///
/// With nothing pending, nothing changes. Else the inbound mailbox is
/// cleared, whether the payload decoded or not, and the engine has acted on
/// what `decode` made of the payload.
pub fn poll<D, E>(
    doc: &mut Document,
    channels: &mut ChannelPair,
    decode: D,
    encode: E,
) -> (outcome: EngineOutcome) where
    D: Fn(&[u8]) -> Result<Op, DecodeFailed>,
    E: Fn(&DrawCommand) -> Vec<u8>,

    requires
        forall|bytes: &[u8]| call_requires(decode, (bytes,)),
        forall|cmd: &DrawCommand| call_requires(encode, (cmd,)),
    ensures
        old(channels).to_engine.pending() is None ==> {
            &&& outcome is Idle
            &&& final(doc)@ == old(doc)@
            &&& final(channels).to_engine@ == old(channels).to_engine@
            &&& final(channels).to_front_end@ == old(channels).to_front_end@
        },
        old(channels).to_engine.pending() is Some ==> final(channels).to_engine@ == slot_cleared(
            old(channels).to_engine@,
        ),
        old(channels).to_engine.pending() is Some ==> exists|
            bytes: &[u8],
            decoded: Result<Op, DecodeFailed>,
        |
            Some(bytes@) == old(channels).to_engine.pending() && call_ensures(
                decode,
                (bytes,),
                decoded,
            ) && acted(
                encode,
                decoded,
                old(doc)@,
                final(doc)@,
                old(channels).to_front_end@,
                final(channels).to_front_end@,
                outcome,
            ),
{
    let payload = match channels.to_engine.try_read() {
        None => {
            return EngineOutcome::Idle;
        },
        Some(payload) => payload,
    };
    let bytes = payload.as_slice();
    let decoded = decode(bytes);
    let outcome = match doc.handle(decoded) {
        Err(_) => EngineOutcome::DecodeFailed,
        Ok(cmd) => {
            let wire = encode(&cmd);
            let ghost sent = cmd;
            let sending = channels.to_front_end.write(wire.as_slice());
            let outcome = match sending {
                Ok(()) => EngineOutcome::Emitted(cmd),
                Err(_) => EngineOutcome::Undeliverable(cmd),
            };
            assert(sent@ == doc@.render() && call_ensures(encode, (&sent,), wire) && replied(
                sent,
                wire@,
                old(channels).to_front_end@,
                channels.to_front_end@,
                outcome,
            ));
            outcome
        },
    };
    channels.to_engine.clear();
    assert(acted(
        encode,
        decoded,
        old(doc)@,
        doc@,
        old(channels).to_front_end@,
        channels.to_front_end@,
        outcome,
    ));
    assert(Some(bytes@) == old(channels).to_engine.pending() && call_ensures(
        decode,
        (bytes,),
        decoded,
    ));
    outcome
}

} // verus!
