//! The attestation messages and their wire encoding.
//!
//! Both messages are encoded as the contract ABI encodes a struct: unsigned
//! integers as 32-byte big-endian words, `bytes32` values as they are, and a
//! struct with a dynamic member behind a leading offset word.

use vstd::prelude::*;

verus! {

/// What is attested of a chain's state: a height and the timestamp of its
/// block.
#[derive(Debug, Clone, Copy, PartialEq, Eq)]
pub struct StateAttestation {
    /// Block height.
    pub height: u64,
    /// UNIX timestamp of the block, in seconds.
    pub timestamp: u64,
}

/// One validated packet commitment.
#[derive(Debug, Clone, Copy, PartialEq, Eq)]
pub struct PacketCompact {
    /// Keccak-256 digest of the commitment path.
    pub path: [u8; 32],
    /// The commitment as found on chain.
    pub commitment: [u8; 32],
}

/// What a [`PacketCompact`] holds.
pub struct PacketCompactView {
    pub path: Seq<u8>,
    pub commitment: Seq<u8>,
}

impl View for PacketCompact {
    type V = PacketCompactView;

    open spec fn view(&self) -> PacketCompactView {
        PacketCompactView { path: self.path@, commitment: self.commitment@ }
    }
}

/// What is attested of a batch of packets: a height and one commitment for
/// each packet, in the order of the request.
#[derive(Debug, Clone, PartialEq, Eq)]
pub struct PacketAttestation {
    /// Block height.
    pub height: u64,
    /// The validated commitments.
    pub packets: Vec<PacketCompact>,
}

/// What a [`PacketAttestation`] holds.
pub struct PacketAttestationView {
    pub height: u64,
    pub packets: Seq<PacketCompactView>,
}

/// The views of `packets`, in order.
pub open spec fn compact_views(packets: Seq<PacketCompact>) -> Seq<PacketCompactView> {
    packets.map_values(|packet: PacketCompact| packet@)
}

impl View for PacketAttestation {
    type V = PacketAttestationView;

    open spec fn view(&self) -> PacketAttestationView {
        PacketAttestationView { height: self.height, packets: compact_views(self.packets@) }
    }
}

/// The weight of byte `index` in an 8-byte big-endian number.
pub open spec fn byte_weight(index: int) -> int {
    if index == 0 {
        0x100_0000_0000_0000
    } else if index == 1 {
        0x1_0000_0000_0000
    } else if index == 2 {
        0x100_0000_0000
    } else if index == 3 {
        0x1_0000_0000
    } else if index == 4 {
        0x100_0000
    } else if index == 5 {
        0x1_0000
    } else if index == 6 {
        0x100
    } else {
        1
    }
}

/// Byte `index` of `value` written big-endian on 8 bytes.
pub open spec fn be_byte(value: u64, index: int) -> u8 {
    ((value as int / byte_weight(index)) % 256) as u8
}

/// `value` as a 32-byte big-endian word: 24 zero bytes, then its 8 bytes.
pub open spec fn word(value: u64) -> Seq<u8> {
    Seq::new(
        32,
        |i: int|
            if i < 24 {
                0u8
            } else {
                be_byte(value, i - 24)
            },
    )
}

/// The encoding of a state attestation: the height, then the timestamp.
pub open spec fn state_attestation_encoding(height: u64, timestamp: u64) -> Seq<u8> {
    word(height) + word(timestamp)
}

/// The commitments one after another, each as its path followed by its
/// commitment.
pub open spec fn packets_encoding(packets: Seq<PacketCompactView>) -> Seq<u8>
    decreases packets.len(),
{
    if packets.len() == 0 {
        Seq::empty()
    } else {
        packets_encoding(packets.drop_last()) + packets.last().path + packets.last().commitment
    }
}

/// The encoding of a packet attestation: the offset of the struct, the
/// height, the offset of the list within the struct, the length of the list,
/// and the commitments.
pub open spec fn packet_attestation_encoding(
    height: u64,
    packets: Seq<PacketCompactView>,
) -> Seq<u8> {
    word(32) + word(height) + word(64) + word(packets.len() as u64) + packets_encoding(packets)
}

/// The commitments take 64 bytes each when every path and commitment has 32.
pub proof fn lemma_packets_encoding_len(packets: Seq<PacketCompactView>)
    requires
        all_compact(packets),
    ensures
        packets_encoding(packets).len() == 64 * packets.len(),
    decreases packets.len(),
{
    if packets.len() > 0 {
        lemma_packets_encoding_len(packets.drop_last());
    }
}

/// Byte `index` of `value` written big-endian on 8 bytes.
fn big_endian_byte(value: u64, index: usize) -> (byte: u8)
    requires
        index < 8,
    ensures
        byte == be_byte(value, index as int),
{
    let shifted: u64 = if index == 0 {
        assert((value >> 56) & 0xff == (value / 0x100_0000_0000_0000) % 256) by (bit_vector);
        value >> 56
    } else if index == 1 {
        assert((value >> 48) & 0xff == (value / 0x1_0000_0000_0000) % 256) by (bit_vector);
        value >> 48
    } else if index == 2 {
        assert((value >> 40) & 0xff == (value / 0x100_0000_0000) % 256) by (bit_vector);
        value >> 40
    } else if index == 3 {
        assert((value >> 32) & 0xff == (value / 0x1_0000_0000) % 256) by (bit_vector);
        value >> 32
    } else if index == 4 {
        assert((value >> 24) & 0xff == (value / 0x100_0000) % 256) by (bit_vector);
        value >> 24
    } else if index == 5 {
        assert((value >> 16) & 0xff == (value / 0x1_0000) % 256) by (bit_vector);
        value >> 16
    } else if index == 6 {
        assert((value >> 8) & 0xff == (value / 0x100) % 256) by (bit_vector);
        value >> 8
    } else {
        assert((value >> 0) & 0xff == (value / 1) % 256) by (bit_vector);
        value >> 0
    };
    let low: u64 = shifted & 0xff;
    assert(low < 256) by (bit_vector)
        requires
            low == shifted & 0xff,
    ;
    low as u8
}

/// Appends `value` as a 32-byte word.
fn push_word(out: &mut Vec<u8>, value: u64)
    ensures
        final(out)@ == old(out)@ + word(value),
{
    let ghost before = out@;
    let mut i: usize = 0;
    while i < 32
        invariant
            i <= 32,
            out@ == before + word(value).subrange(0, i as int),
        decreases 32 - i,
    {
        if i < 24 {
            out.push(0u8);
        } else {
            out.push(big_endian_byte(value, i - 24));
        }
        i = i + 1;
    }
}

/// Appends 32 bytes as they are.
fn push_bytes32(out: &mut Vec<u8>, bytes: &[u8; 32])
    ensures
        final(out)@ == old(out)@ + bytes@,
{
    let ghost before = out@;
    let mut i: usize = 0;
    while i < 32
        invariant
            i <= 32,
            out@ == before + bytes@.subrange(0, i as int),
        decreases 32 - i,
    {
        out.push(bytes[i]);
        i = i + 1;
    }
}

impl StateAttestation {
    /// Encodes the attestation: 64 bytes, the height word and the timestamp
    /// word.
    pub fn abi_encode(&self) -> (out: Vec<u8>)
        ensures
            out@ == state_attestation_encoding(self.height, self.timestamp),
            out@.len() == 64,
    {
        let mut out: Vec<u8> = Vec::with_capacity(64);
        push_word(&mut out, self.height);
        push_word(&mut out, self.timestamp);
        out
    }
}

impl PacketAttestation {
    /// Encodes the attestation: four words of header, then 64 bytes for each
    /// commitment, in order.
    pub fn abi_encode(&self) -> (out: Vec<u8>)
        ensures
            out@ == packet_attestation_encoding(self.height, self@.packets),
            out@.len() == 128 + 64 * self.packets@.len(),
    {
        let mut out: Vec<u8> = Vec::new();
        push_word(&mut out, 32);
        push_word(&mut out, self.height);
        push_word(&mut out, 64);
        push_word(&mut out, self.packets.len() as u64);
        let ghost header = out@;
        let ghost views = self@.packets;
        let mut i: usize = 0;
        while i < self.packets.len()
            invariant
                i <= self.packets@.len(),
                views == compact_views(self.packets@),
                out@ == header + packets_encoding(views.subrange(0, i as int)),
            decreases self.packets@.len() - i,
        {
            let ghost done = views.subrange(0, i as int);
            let ghost next = views.subrange(0, i + 1);
            assert(next.drop_last() == done);
            push_bytes32(&mut out, &self.packets[i].path);
            push_bytes32(&mut out, &self.packets[i].commitment);
            i = i + 1;
        }
        assert(views.subrange(0, i as int) == views);
        proof {
            lemma_packets_encoding_len(views);
        }
        out
    }
}

/// A number is known by its eight big-endian bytes.
proof fn lemma_bytes_determine_number(first: u64, second: u64)
    requires
        forall|index: int| 0 <= index < 8 ==> be_byte(first, index) == be_byte(second, index),
    ensures
        first == second,
{
    assert(be_byte(first, 0) == be_byte(second, 0));
    assert(be_byte(first, 1) == be_byte(second, 1));
    assert(be_byte(first, 2) == be_byte(second, 2));
    assert(be_byte(first, 3) == be_byte(second, 3));
    assert(be_byte(first, 4) == be_byte(second, 4));
    assert(be_byte(first, 5) == be_byte(second, 5));
    assert(be_byte(first, 6) == be_byte(second, 6));
    assert(be_byte(first, 7) == be_byte(second, 7));
    assert(first == second) by (bit_vector)
        requires
            (first / 0x100_0000_0000_0000) % 256 == (second / 0x100_0000_0000_0000) % 256,
            (first / 0x1_0000_0000_0000) % 256 == (second / 0x1_0000_0000_0000) % 256,
            (first / 0x100_0000_0000) % 256 == (second / 0x100_0000_0000) % 256,
            (first / 0x1_0000_0000) % 256 == (second / 0x1_0000_0000) % 256,
            (first / 0x100_0000) % 256 == (second / 0x100_0000) % 256,
            (first / 0x1_0000) % 256 == (second / 0x1_0000) % 256,
            (first / 0x100) % 256 == (second / 0x100) % 256,
            (first / 1) % 256 == (second / 1) % 256,
    ;
}

/// A number is known by its word.
proof fn lemma_word_determines_number(first: u64, second: u64)
    requires
        word(first) == word(second),
    ensures
        first == second,
{
    assert forall|index: int| 0 <= index < 8 implies be_byte(first, index) == be_byte(
        second,
        index,
    ) by {
        assert(word(second)[24 + index] == be_byte(second, index));
    }
    lemma_bytes_determine_number(first, second);
}

/// The encoding of a state attestation tells what is attested: two
/// encodings are equal only for the same height and the same timestamp.
pub proof fn lemma_state_encoding_determines_state(
    height1: u64,
    timestamp1: u64,
    height2: u64,
    timestamp2: u64,
)
    requires
        state_attestation_encoding(height1, timestamp1) == state_attestation_encoding(
            height2,
            timestamp2,
        ),
    ensures
        height1 == height2,
        timestamp1 == timestamp2,
{
    let first = state_attestation_encoding(height1, timestamp1);
    let second = state_attestation_encoding(height2, timestamp2);
    assert(first.subrange(0, 32) == word(height1));
    assert(second.subrange(0, 32) == word(height2));
    assert(first.subrange(32, 64) == word(timestamp1));
    assert(second.subrange(32, 64) == word(timestamp2));
    lemma_word_determines_number(height1, height2);
    lemma_word_determines_number(timestamp1, timestamp2);
}

/// Whether every path and every commitment has its 32 bytes, as those of a
/// [`PacketCompact`] have.
pub open spec fn all_compact(packets: Seq<PacketCompactView>) -> bool {
    forall|i: int|
        0 <= i < packets.len() ==> (#[trigger] packets[i]).path.len() == 32
            && packets[i].commitment.len() == 32
}

/// Commitments are known by their encoding.
proof fn lemma_packets_encoding_determines_packets(
    first: Seq<PacketCompactView>,
    second: Seq<PacketCompactView>,
)
    requires
        all_compact(first),
        all_compact(second),
        first.len() == second.len(),
        packets_encoding(first) == packets_encoding(second),
    ensures
        first == second,
    decreases first.len(),
{
    if first.len() > 0 {
        let split = 64 * (first.len() - 1);
        let mine = packets_encoding(first);
        let yours = packets_encoding(second);
        lemma_packets_encoding_len(first.drop_last());
        lemma_packets_encoding_len(second.drop_last());
        assert(mine.subrange(0, split) == packets_encoding(first.drop_last()));
        assert(yours.subrange(0, split) == packets_encoding(second.drop_last()));
        assert(mine.subrange(split, split + 32) == first.last().path);
        assert(yours.subrange(split, split + 32) == second.last().path);
        assert(mine.subrange(split + 32, split + 64) == first.last().commitment);
        assert(yours.subrange(split + 32, split + 64) == second.last().commitment);
        lemma_packets_encoding_determines_packets(first.drop_last(), second.drop_last());
        assert(second == second.drop_last().push(second.last()));
    } else {
    }
}

/// The encoding of a packet attestation tells what is attested: two
/// encodings are equal only for the same height and the same commitments in
/// the same order.
pub proof fn lemma_packet_encoding_determines_batch(
    height1: u64,
    packets1: Seq<PacketCompactView>,
    height2: u64,
    packets2: Seq<PacketCompactView>,
)
    requires
        all_compact(packets1),
        all_compact(packets2),
        packets1.len() <= u64::MAX,
        packets2.len() <= u64::MAX,
        packet_attestation_encoding(height1, packets1) == packet_attestation_encoding(
            height2,
            packets2,
        ),
    ensures
        height1 == height2,
        packets1 == packets2,
{
    let first = packet_attestation_encoding(height1, packets1);
    let second = packet_attestation_encoding(height2, packets2);
    assert(first.subrange(32, 64) == word(height1));
    assert(second.subrange(32, 64) == word(height2));
    lemma_word_determines_number(height1, height2);
    assert(first.subrange(96, 128) == word(packets1.len() as u64));
    assert(second.subrange(96, 128) == word(packets2.len() as u64));
    lemma_word_determines_number(packets1.len() as u64, packets2.len() as u64);
    assert(first.subrange(128, first.len() as int) == packets_encoding(packets1));
    assert(second.subrange(128, second.len() as int) == packets_encoding(packets2));
    lemma_packets_encoding_determines_packets(packets1, packets2);
}

} // verus!
