//! Pure protocol codec: exact matching of 4-byte command tags, and the
//! fixed-width byte layouts of the three replies.
//!
//! A quaternion component travels on the wire as the four little-endian
//! bytes of an IEEE-754 single-precision float. The codec works on the
//! component's 32-bit pattern, which carries exactly the same information;
//! the surrounding program moves between a float and its bit pattern at the
//! sensor boundary.

use vstd::bytes::*;
use vstd::prelude::*;

verus! {

/// One orientation reading: the w, x, y, z components of a unit quaternion,
/// each held as the bit pattern of a single-precision float.
#[derive(Clone, Copy, PartialEq, Eq, Structural, Debug)]
pub struct Quaternion {
    pub w: u32,
    pub x: u32,
    pub y: u32,
    pub z: u32,
}

/// The three commands a client can send.
#[derive(Clone, Copy, PartialEq, Eq, Structural, Debug)]
pub enum Command {
    Identify,
    ReadyCheck,
    DataRequest,
}

/// Tag bytes of the identify command: `MSID`.
pub open spec fn identify_tag() -> Seq<u8> {
    seq![77u8, 83u8, 73u8, 68u8]
}

/// Tag bytes of the ready-check command: `REDY`.
pub open spec fn ready_tag() -> Seq<u8> {
    seq![82u8, 69u8, 68u8, 89u8]
}

/// Tag bytes of the data-request command: `DATA`.
pub open spec fn data_tag() -> Seq<u8> {
    seq![68u8, 65u8, 84u8, 65u8]
}

/// What decoding yields on any 4-byte input: the matching command for the
/// three known tags, nothing for every other input.
pub open spec fn decode_spec(tag: Seq<u8>) -> Option<Command>
    recommends
        tag.len() == 4,
{
    if tag =~= identify_tag() {
        Some(Command::Identify)
    } else if tag =~= ready_tag() {
        Some(Command::ReadyCheck)
    } else if tag =~= data_tag() {
        Some(Command::DataRequest)
    } else {
        None
    }
}

/// Exact-length binary match of a command tag; no partial or prefix match.
pub fn decode(tag: &[u8; 4]) -> (cmd: Option<Command>)
    ensures
        cmd == decode_spec(tag@),
{
    if tag[0] == 77u8 && tag[1] == 83u8 && tag[2] == 73u8 && tag[3] == 68u8 {
        proof {
            assert(tag@ =~= identify_tag());
        }
        Some(Command::Identify)
    } else if tag[0] == 82u8 && tag[1] == 69u8 && tag[2] == 68u8 && tag[3] == 89u8 {
        proof {
            assert(tag@ =~= ready_tag());
        }
        Some(Command::ReadyCheck)
    } else if tag[0] == 68u8 && tag[1] == 65u8 && tag[2] == 84u8 && tag[3] == 65u8 {
        proof {
            assert(tag@ =~= data_tag());
        }
        Some(Command::DataRequest)
    } else {
        None
    }
}

/// Law: on every 4-byte input, decoding returns each command exactly when
/// the input equals that command's tag, and nothing otherwise.
pub proof fn lemma_decode_total(tag: Seq<u8>)
    requires
        tag.len() == 4,
    ensures
        decode_spec(tag) == Some(Command::Identify) <==> tag =~= identify_tag(),
        decode_spec(tag) == Some(Command::ReadyCheck) <==> tag =~= ready_tag(),
        decode_spec(tag) == Some(Command::DataRequest) <==> tag =~= data_tag(),
        decode_spec(tag) is None <==> !(tag =~= identify_tag()) && !(tag =~= ready_tag()) && !(
        tag =~= data_tag()),
{
}

/// The identify acknowledgment: three zero bytes.
pub open spec fn identify_reply() -> Seq<u8> {
    seq![0u8, 0u8, 0u8]
}

/// The ready-check reply: one byte, 1 for ready and 0 for not ready.
pub open spec fn ready_reply(ready: bool) -> Seq<u8> {
    seq![if ready { 1u8 } else { 0u8 }]
}

pub fn encode_identify() -> (r: Vec<u8>)
    ensures
        r@ == identify_reply(),
{
    let mut out: Vec<u8> = Vec::new();
    out.push(0);
    out.push(0);
    out.push(0);
    proof {
        assert(out@ =~= identify_reply());
    }
    out
}

pub fn encode_ready(ready: bool) -> (r: Vec<u8>)
    ensures
        r@ == ready_reply(ready),
{
    let mut out: Vec<u8> = Vec::new();
    if ready {
        out.push(1);
    } else {
        out.push(0);
    }
    proof {
        assert(out@ =~= ready_reply(ready));
    }
    out
}

/// The 16-byte wire form of one quaternion: little-endian w, x, y, z.
pub open spec fn quat_bytes(q: Quaternion) -> Seq<u8> {
    spec_u32_to_le_bytes(q.w) + spec_u32_to_le_bytes(q.x) + spec_u32_to_le_bytes(q.y)
        + spec_u32_to_le_bytes(q.z)
}

/// The 16-byte block standing in for a channel whose read failed.
pub open spec fn zero_block() -> Seq<u8> {
    Seq::new(16, |i: int| 0u8)
}

/// The block one channel contributes to a data reply.
pub open spec fn reading_bytes(r: Option<Quaternion>) -> Seq<u8> {
    match r {
        Some(q) => quat_bytes(q),
        None => zero_block(),
    }
}

/// The whole data reply: one 16-byte block per channel, in index order.
pub open spec fn data_bytes(rs: Seq<Option<Quaternion>>) -> Seq<u8>
    decreases rs.len(),
{
    if rs.len() == 0 {
        Seq::empty()
    } else {
        data_bytes(rs.drop_last()) + reading_bytes(rs.last())
    }
}

pub proof fn lemma_reading_bytes_len(r: Option<Quaternion>)
    ensures
        reading_bytes(r).len() == 16,
{
    lemma_auto_spec_u32_to_from_le_bytes();
}

/// Law: a data reply is always exactly 16 bytes per channel, however many
/// channel reads failed.
pub proof fn lemma_data_bytes_len(rs: Seq<Option<Quaternion>>)
    ensures
        data_bytes(rs).len() == 16 * rs.len(),
    decreases rs.len(),
{
    if rs.len() > 0 {
        lemma_data_bytes_len(rs.drop_last());
        lemma_reading_bytes_len(rs.last());
    }
}

/// Law: channel i's block sits exactly at byte offset 16*i of the data
/// reply; a failed read leaves 16 zero bytes there and no other block moves.
pub proof fn lemma_data_bytes_at(rs: Seq<Option<Quaternion>>, i: int)
    requires
        0 <= i < rs.len(),
    ensures
        data_bytes(rs).subrange(16 * i, 16 * i + 16) == reading_bytes(rs[i]),
    decreases rs.len(),
{
    lemma_data_bytes_len(rs);
    lemma_data_bytes_len(rs.drop_last());
    lemma_reading_bytes_len(rs.last());
    if i == rs.len() - 1 {
        assert(data_bytes(rs).subrange(16 * i, 16 * i + 16) =~= reading_bytes(rs[i]));
    } else {
        lemma_data_bytes_at(rs.drop_last(), i);
        assert(data_bytes(rs).subrange(16 * i, 16 * i + 16) =~= data_bytes(
            rs.drop_last(),
        ).subrange(16 * i, 16 * i + 16));
    }
}

pub fn quat_to_bytes(q: &Quaternion) -> (r: Vec<u8>)
    ensures
        r@ == quat_bytes(*q),
        r@.len() == 16,
{
    proof {
        lemma_auto_spec_u32_to_from_le_bytes();
    }
    let mut out = u32_to_le_bytes(q.w);
    let mut xb = u32_to_le_bytes(q.x);
    out.append(&mut xb);
    let mut yb = u32_to_le_bytes(q.y);
    out.append(&mut yb);
    let mut zb = u32_to_le_bytes(q.z);
    out.append(&mut zb);
    proof {
        assert(out@ =~= quat_bytes(*q));
    }
    out
}

/// Appends the 16-byte stand-in block for a failed channel read.
fn push_zero_block(out: &mut Vec<u8>)
    ensures
        final(out)@ == old(out)@ + zero_block(),
{
    let ghost orig: Seq<u8> = out@;
    let mut j: usize = 0;
    while j < 16
        invariant
            j <= 16,
            out@ == orig + zero_block().take(j as int),
        decreases 16 - j,
    {
        out.push(0);
        proof {
            assert(out@ =~= orig + zero_block().take(j as int + 1));
        }
        j += 1;
    }
    proof {
        assert(out@ =~= orig + zero_block());
    }
}

/// Serializes one reading per channel, in index order: a successful read as
/// its 16 quaternion bytes, a failed read as 16 zero bytes.
pub fn encode_data(readings: &Vec<Option<Quaternion>>) -> (r: Vec<u8>)
    ensures
        r@ == data_bytes(readings@),
        r@.len() == 16 * readings@.len(),
        forall|i: int|
            0 <= i < readings@.len() ==> #[trigger] r@.subrange(16 * i, 16 * i + 16)
                == reading_bytes(readings@[i]),
{
    let n = readings.len();
    let mut out: Vec<u8> = Vec::new();
    let mut i: usize = 0;
    while i < n
        invariant
            n == readings@.len(),
            i <= n,
            out@ == data_bytes(readings@.take(i as int)),
            out@.len() == 16 * i,
        decreases n - i,
    {
        match readings[i] {
            Some(q) => {
                let mut qb = quat_to_bytes(&q);
                out.append(&mut qb);
            },
            None => {
                push_zero_block(&mut out);
            },
        }
        proof {
            assert(readings@.take(i as int + 1).drop_last() =~= readings@.take(i as int));
            assert(readings@.take(i as int + 1).last() == readings@[i as int]);
            lemma_reading_bytes_len(readings@[i as int]);
        }
        i += 1;
    }
    proof {
        assert(readings@.take(n as int) =~= readings@);
        lemma_data_bytes_len(readings@);
        assert forall|i: int| 0 <= i < readings@.len() implies #[trigger] out@.subrange(
            16 * i,
            16 * i + 16,
        ) == reading_bytes(readings@[i]) by {
            lemma_data_bytes_at(readings@, i);
        }
    }
    out
}

/// The quaternion whose wire form a 16-byte block is.
pub open spec fn quat_of_bytes(b: Seq<u8>) -> Quaternion
    recommends
        b.len() == 16,
{
    Quaternion {
        w: spec_u32_from_le_bytes(b.subrange(0, 4)),
        x: spec_u32_from_le_bytes(b.subrange(4, 8)),
        y: spec_u32_from_le_bytes(b.subrange(8, 12)),
        z: spec_u32_from_le_bytes(b.subrange(12, 16)),
    }
}

/// Reads the little-endian w, x, y, z bit patterns back out of one 16-byte
/// block.
pub fn decode_quaternion(b: &[u8]) -> (q: Quaternion)
    requires
        b@.len() == 16,
    ensures
        q == quat_of_bytes(b@),
{
    let w = u32_from_le_bytes(vstd::slice::slice_subrange(b, 0, 4));
    let x = u32_from_le_bytes(vstd::slice::slice_subrange(b, 4, 8));
    let y = u32_from_le_bytes(vstd::slice::slice_subrange(b, 8, 12));
    let z = u32_from_le_bytes(vstd::slice::slice_subrange(b, 12, 16));
    Quaternion { w, x, y, z }
}

/// Law: decoding the block encoded for a quaternion yields the original
/// component bit patterns, so the float round trip is bit-exact.
pub proof fn lemma_quat_round_trip(q: Quaternion)
    ensures
        quat_of_bytes(quat_bytes(q)) == q,
{
    lemma_auto_spec_u32_to_from_le_bytes();
    assert(quat_bytes(q).subrange(0, 4) =~= spec_u32_to_le_bytes(q.w));
    assert(quat_bytes(q).subrange(4, 8) =~= spec_u32_to_le_bytes(q.x));
    assert(quat_bytes(q).subrange(8, 12) =~= spec_u32_to_le_bytes(q.y));
    assert(quat_bytes(q).subrange(12, 16) =~= spec_u32_to_le_bytes(q.z));
}

/// Law: encoding the quaternion a 16-byte block decodes to yields the block
/// itself.
pub proof fn lemma_bytes_round_trip(b: Seq<u8>)
    requires
        b.len() == 16,
    ensures
        quat_bytes(quat_of_bytes(b)) == b,
{
    lemma_auto_spec_u32_to_from_le_bytes();
    assert(quat_bytes(quat_of_bytes(b)) =~= b);
}

} // verus!
