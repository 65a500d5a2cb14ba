//! The program-owned greeting record and its fixed binary layout: a single
//! unsigned 32-bit counter stored as four little-endian bytes, no padding,
//! no version tag, no checksum.

use vstd::prelude::*;

verus! {

/// Serialized size of the greeting record in bytes.
pub const GREETING_SIZE: usize = 4;

/// The record a provisioned account holds: how many times it was greeted.
#[derive(Clone, Copy, Debug, PartialEq, Eq, Structural)]
pub struct GreetingState {
    pub counter: u32,
}

/// The 32-bit word whose little-endian bytes are `b0`, `b1`, `b2`, `b3`.
pub open spec fn le_u32(b0: u8, b1: u8, b2: u8, b3: u8) -> u32 {
    (b0 as u32) | ((b1 as u32) << 8) | ((b2 as u32) << 16) | ((b3 as u32) << 24)
}

/// The wire form of a record with counter `c`: exactly its four little-endian
/// bytes. Any change to this shape breaks compatibility with accounts that
/// were provisioned earlier.
pub open spec fn greeting_bytes(c: u32) -> Seq<u8> {
    seq![
        (c & 0xff) as u8,
        ((c >> 8) & 0xff) as u8,
        ((c >> 16) & 0xff) as u8,
        ((c >> 24) & 0xff) as u8,
    ]
}

/// Serialized size of the greeting record, as the provisioner uses it.
pub fn greeting_size() -> (r: usize)
    ensures
        r == GREETING_SIZE,
        forall|c: u32| (#[trigger] greeting_bytes(c)).len() == r,
{
    4
}

/// Encode a record into its wire form.
pub fn encode_greeting(g: &GreetingState) -> (r: Vec<u8>)
    ensures
        r@ == greeting_bytes(g.counter),
{
    let c: u32 = g.counter;
    let mut v: Vec<u8> = Vec::new();
    proof {
        assert((c & 0xff) < 256 && ((c >> 8) & 0xff) < 256 && ((c >> 16) & 0xff) < 256
            && ((c >> 24) & 0xff) < 256) by (bit_vector);
    }
    v.push((c & 0xff) as u8);
    v.push(((c >> 8) & 0xff) as u8);
    v.push(((c >> 16) & 0xff) as u8);
    v.push(((c >> 24) & 0xff) as u8);
    proof {
        assert(v@ =~= greeting_bytes(c));
    }
    v
}

/// Decode a fetched byte payload into a record. Succeeds exactly on a
/// payload of the record's fixed size; anything else is a layout mismatch
/// (wrong length, never-created account, or a foreign owner's data).
pub fn decode_greeting(bytes: &[u8]) -> (r: Option<GreetingState>)
    ensures
        r is Some <==> bytes@.len() == GREETING_SIZE,
        r matches Some(g) ==> g.counter == le_u32(bytes@[0], bytes@[1], bytes@[2], bytes@[3]),
{
    if bytes.len() == 4 {
        let b0: u8 = bytes[0];
        let b1: u8 = bytes[1];
        let b2: u8 = bytes[2];
        let b3: u8 = bytes[3];
        Some(GreetingState {
            counter: (b0 as u32) | ((b1 as u32) << 8) | ((b2 as u32) << 16) | ((b3 as u32) << 24),
        })
    } else {
        None
    }
}

/// Round trip: the wire form of a record with counter `c` has the record's
/// fixed size, and reading it back as a little-endian word yields `c` again,
/// for every `c`.
pub proof fn lemma_greeting_round_trip(c: u32)
    ensures
        greeting_bytes(c).len() == GREETING_SIZE,
        le_u32(
            greeting_bytes(c)[0],
            greeting_bytes(c)[1],
            greeting_bytes(c)[2],
            greeting_bytes(c)[3],
        ) == c,
{
    assert((((c & 0xff) as u8) as u32) | (((((c >> 8) & 0xff) as u8) as u32) << 8)
        | (((((c >> 16) & 0xff) as u8) as u32) << 16) | (((((c >> 24) & 0xff) as u8) as u32) << 24)
        == c) by (bit_vector);
}

} // verus!
