//! The channel pair: two mailboxes wired in opposite directions.

use vstd::prelude::*;
use crate::mailbox::{
    has_mailbox_size, holds_valid_slot, region_usable, slot_cleared, slot_valid, Mailbox,
};
use crate::message::ChannelUnavailable;

verus! {

/// The capacity that a front end gives each region, in bytes.
pub const REFERENCE_CAPACITY: usize = 4096;

/// The time that the engine sleeps between two polls, in milliseconds.
pub const ENGINE_POLL_MILLIS: u64 = 10;

/// The time that the front end sleeps between two polls, in milliseconds.
pub const FRONT_END_POLL_MILLIS: u64 = 1;

/// The request path and the response path between a front end and an engine.
/// Each mailbox carries one kind of message in one direction.
pub struct ChannelPair<'a> {
    /// Operations, from the front end to the engine.
    pub to_engine: Mailbox<'a>,
    /// Draw commands, from the engine to the front end.
    pub to_front_end: Mailbox<'a>,
}

impl<'a> ChannelPair<'a> {
    /// Takes two fresh regions into service, as the front end does at its
    /// start. Both mailboxes start empty. Where one region cannot serve,
    /// neither is touched.
    pub fn create(to_engine: &'a mut [u8], to_front_end: &'a mut [u8]) -> (r: Result<
        ChannelPair<'a>,
        ChannelUnavailable,
    >)
        ensures
            r is Ok <==> region_usable(old(to_engine)@) && region_usable(old(to_front_end)@),
            r matches Ok(pair) ==> {
                &&& pair.to_engine@ == slot_cleared(old(to_engine)@)
                &&& pair.to_front_end@ == slot_cleared(old(to_front_end)@)
                &&& pair.to_engine.pending() is None
                &&& pair.to_front_end.pending() is None
            },
            r is Err ==> final(to_engine)@ == old(to_engine)@ && final(to_front_end)@ == old(
                to_front_end,
            )@,
    {
        if !has_mailbox_size(to_engine) || !has_mailbox_size(to_front_end) {
            return Err(ChannelUnavailable);
        }
        match (Mailbox::create(to_engine), Mailbox::create(to_front_end)) {
            (Ok(requests), Ok(draws)) => Ok(
                ChannelPair { to_engine: requests, to_front_end: draws },
            ),
            _ => Err(ChannelUnavailable),
        }
    }

    /// Takes into service the two regions that a front end has created, as
    /// the engine does at its start. What is pending in them stays pending.
    /// Where one region cannot serve, neither is touched.
    pub fn open(to_engine: &'a mut [u8], to_front_end: &'a mut [u8]) -> (r: Result<
        ChannelPair<'a>,
        ChannelUnavailable,
    >)
        ensures
            r is Ok <==> slot_valid(old(to_engine)@) && slot_valid(old(to_front_end)@),
            r matches Ok(pair) ==> pair.to_engine@ == old(to_engine)@ && pair.to_front_end@
                == old(to_front_end)@,
            r is Err ==> final(to_engine)@ == old(to_engine)@ && final(to_front_end)@ == old(
                to_front_end,
            )@,
    {
        if !holds_valid_slot(to_engine) || !holds_valid_slot(to_front_end) {
            return Err(ChannelUnavailable);
        }
        match (Mailbox::open(to_engine), Mailbox::open(to_front_end)) {
            (Ok(requests), Ok(draws)) => Ok(
                ChannelPair { to_engine: requests, to_front_end: draws },
            ),
            _ => Err(ChannelUnavailable),
        }
    }
}

} // verus!
