//! The front end's side of the channel pair: it submits operations and takes
//! draw commands into its line cache.

use vstd::prelude::*;
use crate::channel::ChannelPair;
use crate::line_cache::{lines_after, LineCache};
use crate::mailbox::{fits, slot_after_write, slot_cleared};
use crate::message::{DecodeFailed, DrawCommand, Op, PayloadTooLarge};

verus! {

/// `code` is a Unicode scalar value: a code point that is no surrogate.
pub open spec fn is_scalar_value(code: u32) -> bool {
    code <= 0xD7FF || 0xE000 <= code <= 0x10FFFF
}

/// `c` is a control code: one of U+0000 to U+001F and U+007F to U+009F.
pub open spec fn is_control(c: char) -> bool {
    c as u32 <= 0x1F || 0x7F <= c as u32 <= 0x9F
}

/// The operation that a typed character code stands for: the insertion of
/// that character, unless the code is no character or a control code.
pub open spec fn op_for_key(code: u32) -> Option<Op> {
    if is_scalar_value(code) && !is_control(code as char) {
        Some(Op::InsertChar(code as char))
    } else {
        None
    }
}

/// `char::from_u32`: the character with that code, and none where the code
/// is a surrogate or lies above U+10FFFF.
#[verifier::external_body]
fn char_from_u32(code: u32) -> (r: Option<char>)
    ensures
        r == if is_scalar_value(code) {
            Some(code as char)
        } else {
            None
        },
{
    char::from_u32(code)
}

/// The operation that a typed character code stands for, if any.
pub fn key_to_op(code: u32) -> (r: Option<Op>)
    ensures
        r == op_for_key(code),
{
    match char_from_u32(code) {
        None => None,
        Some(c) => {
            let v = c as u32;
            if v <= 0x1F || (0x7F <= v && v <= 0x9F) {
                None
            } else {
                Some(Op::InsertChar(c))
            }
        },
    }
}

/// Encodes an operation and stores it in the mailbox of the engine, over
/// whatever was pending there. An operation whose encoding does not fit is
/// refused, and the mailbox stays as it was.
pub fn submit<E>(channels: &mut ChannelPair, op: Op, encode: E) -> (r: Result<
    (),
    PayloadTooLarge,
>) where E: Fn(&Op) -> Vec<u8>
    requires
        call_requires(encode, (&op,)),
    ensures
        final(channels).to_front_end@ == old(channels).to_front_end@,
        exists|wire: Vec<u8>|
            call_ensures(encode, (&op,), wire) && (r is Ok <==> fits(
                old(channels).to_engine@,
                wire@,
            )) && final(channels).to_engine@ == slot_after_write(old(channels).to_engine@, wire@),
{
    let wire = encode(&op);
    channels.to_engine.write(wire.as_slice())
}

/// The front end has acted on a payload that decoded to `decoded`: a
/// malformed payload leaves the line cache as it was; a draw command is taken
/// into the cache and handed out.
pub open spec fn received(
    decoded: Result<DrawCommand, DecodeFailed>,
    cache_before: Seq<Seq<char>>,
    cache_after: Seq<Seq<char>>,
    r: Result<Vec<DrawCommand>, DecodeFailed>,
) -> bool {
    match decoded {
        Err(_) => r is Err && cache_after == cache_before,
        Ok(cmd) => r is Ok && r->Ok_0@ == seq![cmd] && cache_after == lines_after(
            cache_before,
            cmd@,
        ),
    }
}

/// One iteration of the front end's loop: check the inbound mailbox, decode,
/// take the draw command into the line cache, clear. It hands out the draw
/// commands that it took in: none where nothing was pending, else one.
///
/// A payload that is no draw command is discarded: the mailbox is cleared all
/// the same, and the cache stays as it was.
pub fn poll_draw_commands<D>(channels: &mut ChannelPair, cache: &mut LineCache, decode: D) -> (r:
    Result<Vec<DrawCommand>, DecodeFailed>) where D: Fn(&[u8]) -> Result<DrawCommand, DecodeFailed>
    requires
        forall|bytes: &[u8]| call_requires(decode, (bytes,)),
    ensures
        final(channels).to_engine@ == old(channels).to_engine@,
        old(channels).to_front_end.pending() is None ==> {
            &&& r is Ok
            &&& r->Ok_0@.len() == 0
            &&& final(cache)@ == old(cache)@
            &&& final(channels).to_front_end@ == old(channels).to_front_end@
        },
        old(channels).to_front_end.pending() is Some ==> final(channels).to_front_end@
            == slot_cleared(old(channels).to_front_end@),
        old(channels).to_front_end.pending() is Some ==> exists|
            bytes: &[u8],
            decoded: Result<DrawCommand, DecodeFailed>,
        |
            Some(bytes@) == old(channels).to_front_end.pending() && call_ensures(
                decode,
                (bytes,),
                decoded,
            ) && received(decoded, old(cache)@, final(cache)@, r),
{
    let payload = match channels.to_front_end.try_read() {
        None => {
            return Ok(Vec::new());
        },
        Some(payload) => payload,
    };
    let bytes = payload.as_slice();
    let decoded = decode(bytes);
    let ghost witness = decoded;
    let r = match decoded {
        Err(e) => Err(e),
        Ok(cmd) => {
            cache.apply(&cmd);
            let mut taken: Vec<DrawCommand> = Vec::new();
            taken.push(cmd);
            assert(taken@ =~= seq![cmd]);
            Ok(taken)
        },
    };
    channels.to_front_end.clear();
    assert(Some(bytes@) == old(channels).to_front_end.pending() && call_ensures(
        decode,
        (bytes,),
        witness,
    ) && received(witness, old(cache)@, cache@, r));
    r
}

} // verus!
