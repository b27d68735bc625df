//! The mailbox: one fixed-capacity byte region holding at most one message.
//!
//! The region starts with a four-byte little-endian length, followed by that
//! many bytes of payload. A length of zero means that no message is pending.
//!
//! The contracts speak of a region that changes only through its mailbox.
//! Nothing in the transport keeps a peer from writing into a shared region at
//! the same time: the length field is the only signal between the two sides.

use vstd::prelude::*;
use vstd::slice::{slice_subrange, slice_to_vec};
use crate::message::{ChannelUnavailable, PayloadTooLarge};

verus! {

/// Bytes taken by the length field.
pub const HEADER_LEN: usize = 4;

/// The longest payload that the length field can describe.
pub const MAX_PAYLOAD_LEN: usize = 0xffff_ffff;

/// The number that four bytes spell in little-endian order.
pub open spec fn le32(b: Seq<u8>) -> nat
    recommends
        b.len() == 4,
{
    (b[0] as nat) + 256 * (b[1] as nat) + 65536 * (b[2] as nat) + 16777216 * (b[3] as nat)
}

/// The four bytes that spell `n` in little-endian order.
pub open spec fn header_of(n: nat) -> Seq<u8>
    recommends
        n <= MAX_PAYLOAD_LEN,
{
    seq![
        (n % 256) as u8,
        ((n / 256) % 256) as u8,
        ((n / 65536) % 256) as u8,
        ((n / 16777216) % 256) as u8,
    ]
}

/// The value of a region's length field.
pub open spec fn slot_len(region: Seq<u8>) -> nat
    recommends
        region.len() >= HEADER_LEN,
{
    le32(region.subrange(0, 4))
}

/// A region has the size of a mailbox: it has room for the length field, and
/// no payload in it can outgrow that field.
pub open spec fn region_usable(region: Seq<u8>) -> bool {
    HEADER_LEN <= region.len() <= HEADER_LEN + MAX_PAYLOAD_LEN
}

/// A region can serve as a mailbox as it stands: it has the size of one, and
/// the message that its length field announces lies inside it.
pub open spec fn slot_valid(region: Seq<u8>) -> bool {
    &&& region_usable(region)
    &&& HEADER_LEN + slot_len(region) <= region.len()
}

/// The pending message of a region, if there is one.
pub open spec fn slot_pending(region: Seq<u8>) -> Option<Seq<u8>> {
    if slot_len(region) == 0 {
        None
    } else {
        Some(region.subrange(4, 4 + slot_len(region) as int))
    }
}

/// `payload` fits a mailbox of this region: with the length field it takes no
/// more than the capacity.
pub open spec fn fits(region: Seq<u8>, payload: Seq<u8>) -> bool {
    HEADER_LEN + payload.len() <= region.len()
}

/// The region after `payload` was stored in it: the new length, the payload,
/// and behind it what was there before.
pub open spec fn slot_written(region: Seq<u8>, payload: Seq<u8>) -> Seq<u8>
    recommends
        fits(region, payload),
{
    header_of(payload.len()) + payload + region.subrange(
        4 + payload.len() as int,
        region.len() as int,
    )
}

/// The region after an attempt to store `payload`: stored where it fits,
/// refused where it does not.
pub open spec fn slot_after_write(region: Seq<u8>, payload: Seq<u8>) -> Seq<u8> {
    if fits(region, payload) {
        slot_written(region, payload)
    } else {
        region
    }
}

/// The region after its length field was reset.
pub open spec fn slot_cleared(region: Seq<u8>) -> Seq<u8>
    recommends
        HEADER_LEN <= region.len(),
{
    header_of(0) + region.subrange(4, region.len() as int)
}

/// Little-endian encoding and decoding of a length are inverse to each other.
pub proof fn lemma_header_round_trip(n: nat)
    requires
        n <= MAX_PAYLOAD_LEN,
    ensures
        header_of(n).len() == 4,
        le32(header_of(n)) == n,
{
}

/// A message that was written is the message that is read: after a payload
/// that fits was stored, the slot is valid, and that payload is pending,
/// unless it is empty; an empty payload leaves the slot empty.
pub proof fn lemma_write_then_read(region: Seq<u8>, payload: Seq<u8>)
    requires
        slot_valid(region),
        fits(region, payload),
    ensures
        slot_written(region, payload).len() == region.len(),
        slot_valid(slot_written(region, payload)),
        slot_len(slot_written(region, payload)) == payload.len(),
        payload.len() > 0 ==> slot_pending(slot_written(region, payload)) == Some(payload),
        payload.len() == 0 ==> slot_pending(slot_written(region, payload)) is None,
{
    let after = slot_written(region, payload);
    lemma_header_round_trip(payload.len());
    assert(after.subrange(0, 4) =~= header_of(payload.len()));
    assert(after.subrange(4, 4 + payload.len() as int) =~= payload);
}

/// After a clear nothing is pending, whatever the slot held.
pub proof fn lemma_clear_then_read(region: Seq<u8>)
    requires
        region_usable(region),
    ensures
        slot_cleared(region).len() == region.len(),
        slot_valid(slot_cleared(region)),
        slot_pending(slot_cleared(region)) is None,
{
    lemma_header_round_trip(0);
    assert(slot_cleared(region).subrange(0, 4) =~= header_of(0));
}

/// Clearing twice is clearing once.
pub proof fn lemma_clear_idempotent(region: Seq<u8>)
    requires
        region_usable(region),
    ensures
        slot_cleared(slot_cleared(region)) == slot_cleared(region),
{
    assert(slot_cleared(slot_cleared(region)) =~= slot_cleared(region));
}

/// Of two messages written in a row only the second can be read: the slot
/// holds at most one pending message, and a second write destroys the first.
pub proof fn lemma_overwrite_loses_first(region: Seq<u8>, first: Seq<u8>, second: Seq<u8>)
    requires
        slot_valid(region),
        fits(region, first),
        fits(region, second),
        second.len() > 0,
    ensures
        slot_pending(slot_written(slot_written(region, first), second)) == Some(second),
{
    lemma_write_then_read(region, first);
    lemma_write_then_read(slot_written(region, first), second);
}

/// Loads the length field.
fn load_len(region: &[u8]) -> (n: usize)
    requires
        region@.len() >= HEADER_LEN,
    ensures
        n == slot_len(region@),
        n <= MAX_PAYLOAD_LEN,
{
    let b0 = region[0] as u32;
    let b1 = region[1] as u32;
    let b2 = region[2] as u32;
    let b3 = region[3] as u32;
    let n: u32 = b0 + 256 * b1 + 65536 * b2 + 16777216 * b3;
    n as usize
}

/// Stores the length field that announces `n` bytes of payload.
fn store_len(region: &mut [u8], n: usize)
    requires
        old(region)@.len() >= HEADER_LEN,
        n <= MAX_PAYLOAD_LEN,
    ensures
        final(region)@ == header_of(n as nat) + old(region)@.subrange(
            4,
            old(region)@.len() as int,
        ),
    no_unwind
{
    let ghost before = region@;
    region[0] = (n % 256) as u8;
    region[1] = ((n / 256) % 256) as u8;
    region[2] = ((n / 65536) % 256) as u8;
    region[3] = ((n / 16777216) % 256) as u8;
    assert(region@ =~= header_of(n as nat) + before.subrange(4, before.len() as int));
}

/// Stores the length `n` of `payload`, then `payload` itself.
fn store_message(region: &mut [u8], payload: &[u8], n: usize)
    requires
        n == payload@.len(),
        HEADER_LEN + n <= old(region)@.len() <= usize::MAX,
        n <= MAX_PAYLOAD_LEN,
    ensures
        final(region)@ == slot_written(old(region)@, payload@),
    no_unwind
{
    let ghost before = region@;
    store_len(region, n);
    let mut i: usize = 0;
    while i < n
        invariant
            i <= n == payload@.len() <= MAX_PAYLOAD_LEN,
            region@.len() == before.len() <= usize::MAX,
            HEADER_LEN + n <= before.len(),
            region@ == header_of(n as nat) + payload@.subrange(0, i as int) + before.subrange(
                4 + i,
                before.len() as int,
            ),
        decreases n - i,
    {
        region[4 + i] = payload[i];
        assert(region@ =~= header_of(n as nat) + payload@.subrange(0, i + 1) + before.subrange(
            4 + i + 1,
            before.len() as int,
        ));
        i = i + 1;
    }
    assert(payload@.subrange(0, i as int) =~= payload@);
}

/// Whether a region has the size of a mailbox.
pub fn has_mailbox_size(region: &[u8]) -> (b: bool)
    ensures
        b == region_usable(region@),
{
    HEADER_LEN <= region.len() && region.len() - HEADER_LEN <= MAX_PAYLOAD_LEN
}

/// Whether a region can serve as a mailbox as it stands.
pub fn holds_valid_slot(region: &[u8]) -> (b: bool)
    ensures
        b == slot_valid(region@),
{
    has_mailbox_size(region) && load_len(region) <= region.len() - HEADER_LEN
}

/// One mailbox: the owning handle of a region.
pub struct Mailbox<'a> {
    region: &'a mut [u8],
}

impl<'a> View for Mailbox<'a> {
    type V = Seq<u8>;

    /// The whole region, length field included.
    closed spec fn view(&self) -> Seq<u8> {
        self.region@
    }
}

impl<'a> Mailbox<'a> {
    #[verifier::type_invariant]
    spec fn inv(&self) -> bool {
        slot_valid(self.region@)
    }

    /// The pending message, if there is one.
    pub open spec fn pending(&self) -> Option<Seq<u8>> {
        slot_pending(self@)
    }

    /// Takes a fresh region into service as an empty mailbox. It fails where
    /// the region has no room for the length field, or more room than the
    /// length field can describe.
    pub fn create(region: &'a mut [u8]) -> (r: Result<Mailbox<'a>, ChannelUnavailable>)
        ensures
            r is Ok <==> region_usable(old(region)@),
            r matches Ok(m) ==> m@ == slot_cleared(old(region)@) && m.pending() is None,
            r is Err ==> final(region)@ == old(region)@,
    {
        if !has_mailbox_size(region) {
            return Err(ChannelUnavailable);
        }
        proof {
            lemma_clear_then_read(region@);
        }
        store_len(region, 0);
        Ok(Mailbox { region })
    }

    /// Takes into service a region that a peer has created. It fails where
    /// the region cannot serve as a mailbox as it stands.
    pub fn open(region: &'a mut [u8]) -> (r: Result<Mailbox<'a>, ChannelUnavailable>)
        ensures
            r is Ok <==> slot_valid(old(region)@),
            r matches Ok(m) ==> m@ == old(region)@,
            r is Err ==> final(region)@ == old(region)@,
    {
        if !holds_valid_slot(region) {
            return Err(ChannelUnavailable);
        }
        Ok(Mailbox { region })
    }

    /// Stores `payload` as the pending message, over whatever was pending,
    /// consumed or not. A payload that does not fit is refused, and the
    /// region stays as it was.
    pub fn write(&mut self, payload: &[u8]) -> (r: Result<(), PayloadTooLarge>)
        ensures
            r is Ok <==> fits(old(self)@, payload@),
            r is Err ==> final(self)@ == old(self)@,
            r is Ok ==> final(self)@ == slot_written(old(self)@, payload@),
            final(self)@ == slot_after_write(old(self)@, payload@),
            r is Ok && payload@.len() > 0 ==> final(self).pending() == Some(payload@),
            r is Ok && payload@.len() == 0 ==> final(self).pending() is None,
            slot_valid(final(self)@),
    {
        proof {
            use_type_invariant(&*self);
        }
        let n = payload.len();
        if n > self.region.len() - HEADER_LEN {
            return Err(PayloadTooLarge);
        }
        proof {
            lemma_write_then_read(self.region@, payload@);
        }
        store_message(self.region, payload, n);
        Ok(())
    }

    /// The pending message, if there is one. The slot stays as it is.
    pub fn try_read(&self) -> (r: Option<Vec<u8>>)
        ensures
            r is Some <==> self.pending() is Some,
            r matches Some(payload) ==> self.pending() == Some(payload@),
    {
        proof {
            use_type_invariant(self);
        }
        let capacity = self.region.len();
        let n = load_len(self.region);
        assert(HEADER_LEN + n <= capacity);
        if n == 0 {
            None
        } else {
            Some(slice_to_vec(slice_subrange(self.region, HEADER_LEN, HEADER_LEN + n)))
        }
    }

    /// Whether no message is pending.
    pub fn is_empty(&self) -> (b: bool)
        ensures
            b <==> self.pending() is None,
    {
        proof {
            use_type_invariant(self);
        }
        load_len(self.region) == 0
    }

    /// Resets the length field, whatever the payload holds.
    pub fn clear(&mut self)
        ensures
            final(self)@ == slot_cleared(old(self)@),
            final(self).pending() is None,
            slot_valid(final(self)@),
    {
        proof {
            use_type_invariant(&*self);
            lemma_clear_then_read(self.region@);
        }
        store_len(self.region, 0);
    }

    /// The capacity of the region, in bytes.
    pub fn capacity(&self) -> (c: usize)
        ensures
            c == self@.len(),
            slot_valid(self@),
    {
        proof {
            use_type_invariant(self);
        }
        self.region.len()
    }
}

} // verus!
