//! Decoded packets, as the validation engine reads them.

use crate::error::AttestorError;
use vstd::prelude::*;

verus! {

/// What a [`Packet`] holds.
pub struct PacketView {
    pub source_client: Seq<char>,
    pub dest_client: Seq<char>,
    pub sequence: u64,
    pub commitment_path: Seq<u8>,
    pub ack_commitment_path: Seq<u8>,
    pub receipt_commitment_path: Seq<u8>,
    pub commitment: Seq<u8>,
}

/// A decoded packet with the values derived from it: one commitment path for
/// each kind of commitment, and the commitment hash expected on the sending
/// chain.
///
/// A packet is input: nothing here changes it once it is built.
#[derive(Debug, Clone)]
pub struct Packet {
    source_client: String,
    dest_client: String,
    sequence: u64,
    commitment_path: Vec<u8>,
    ack_commitment_path: Vec<u8>,
    receipt_commitment_path: Vec<u8>,
    commitment: Vec<u8>,
}

impl View for Packet {
    type V = PacketView;

    closed spec fn view(&self) -> PacketView {
        PacketView {
            source_client: self.source_client@,
            dest_client: self.dest_client@,
            sequence: self.sequence,
            commitment_path: self.commitment_path@,
            ack_commitment_path: self.ack_commitment_path@,
            receipt_commitment_path: self.receipt_commitment_path@,
            commitment: self.commitment@,
        }
    }
}

impl Packet {
    /// Puts a decoded packet and its derived values together.
    pub fn new(
        source_client: String,
        dest_client: String,
        sequence: u64,
        commitment_path: Vec<u8>,
        ack_commitment_path: Vec<u8>,
        receipt_commitment_path: Vec<u8>,
        commitment: Vec<u8>,
    ) -> (packet: Self)
        ensures
            packet@ == (PacketView {
                source_client: source_client@,
                dest_client: dest_client@,
                sequence,
                commitment_path: commitment_path@,
                ack_commitment_path: ack_commitment_path@,
                receipt_commitment_path: receipt_commitment_path@,
                commitment: commitment@,
            }),
    {
        Self {
            source_client,
            dest_client,
            sequence,
            commitment_path,
            ack_commitment_path,
            receipt_commitment_path,
            commitment,
        }
    }

    /// The client on the sending chain.
    pub fn source_client(&self) -> (client_id: &str)
        ensures
            client_id@ == self@.source_client,
    {
        self.source_client.as_str()
    }

    /// The client on the receiving chain.
    pub fn dest_client(&self) -> (client_id: &str)
        ensures
            client_id@ == self@.dest_client,
    {
        self.dest_client.as_str()
    }

    /// The sequence number of the packet.
    pub fn sequence(&self) -> (sequence: u64)
        ensures
            sequence == self@.sequence,
    {
        self.sequence
    }

    /// The path under which the sending chain stores the packet commitment.
    pub fn commitment_path(&self) -> (path: &[u8])
        ensures
            path@ == self@.commitment_path,
    {
        self.commitment_path.as_slice()
    }

    /// The path under which the receiving chain stores the acknowledgement
    /// commitment.
    pub fn ack_commitment_path(&self) -> (path: &[u8])
        ensures
            path@ == self@.ack_commitment_path,
    {
        self.ack_commitment_path.as_slice()
    }

    /// The path under which the receiving chain stores the receipt.
    pub fn receipt_commitment_path(&self) -> (path: &[u8])
        ensures
            path@ == self@.receipt_commitment_path,
    {
        self.receipt_commitment_path.as_slice()
    }

    /// The commitment hash the sending chain must hold for this packet.
    pub fn commitment(&self) -> (commitment: &[u8])
        ensures
            commitment@ == self@.commitment,
    {
        self.commitment.as_slice()
    }
}

/// The packets of one attestation request, in the order of the request.
#[derive(Debug, Clone)]
pub struct Packets(Vec<Packet>);

/// The views of `packets`, in order.
pub open spec fn packet_views(packets: Seq<Packet>) -> Seq<PacketView> {
    packets.map_values(|packet: Packet| packet@)
}

/// Whether each of the first `count` decodings succeeded.
pub open spec fn all_decoded(decoded: Seq<Result<Packet, String>>, count: int) -> bool {
    forall|i: int| 0 <= i < count ==> (#[trigger] decoded[i]) is Ok
}

impl View for Packets {
    type V = Seq<PacketView>;

    closed spec fn view(&self) -> Seq<PacketView> {
        packet_views(self.0@)
    }
}

impl Packets {
    /// The packets of a request, in the order given.
    pub fn new(packets: Vec<Packet>) -> (out: Self)
        ensures
            out@ == packet_views(packets@),
    {
        Self(packets)
    }

    /// Collects the packets of a request from what decoding each of them gave.
    ///
    /// Decoding is all or nothing: the first packet that failed to decode
    /// fails the whole request, with its decoder's message.
    pub fn try_from_decoded(decoded: Vec<Result<Packet, String>>) -> (out: Result<
        Self,
        AttestorError,
    >)
        ensures
            match out {
                Ok(packets) => {
                    &&& all_decoded(decoded@, decoded@.len() as int)
                    &&& packets@.len() == decoded@.len()
                    &&& forall|i: int|
                        0 <= i < decoded@.len() ==> packets@[i] == (#[trigger] decoded@[i])->Ok_0@
                },
                Err(error) => exists|first: int|
                    {
                        &&& 0 <= first < decoded@.len()
                        &&& all_decoded(decoded@, first)
                        &&& (#[trigger] decoded@[first]) matches Err(detail)
                        &&& error@ == crate::error::AttestorErrorView::AbiError(detail@)
                    },
            },
    {
        let ghost all = decoded@;
        let mut packets: Vec<Packet> = Vec::new();
        for outcome in iter: decoded
            invariant
                iter.seq() == all,
                all_decoded(all, iter.index() as int),
                packets@.len() == iter.index(),
                forall|i: int|
                    0 <= i < iter.index() ==> (#[trigger] packets@[i])@ == all[i]->Ok_0@,
        {
            match outcome {
                Ok(packet) => {
                    packets.push(packet);
                },
                Err(detail) => {
                    return Err(AttestorError::AbiError(detail));
                },
            }
        }
        let out = Self(packets);
        Ok(out)
    }

    /// Returns the number of packets.
    pub fn len(&self) -> (len: usize)
        ensures
            len == self@.len(),
    {
        self.0.len()
    }

    /// Returns true if there are no packets.
    pub fn is_empty(&self) -> (empty: bool)
        ensures
            empty == (self@.len() == 0),
    {
        self.0.len() == 0
    }

    /// The packet at `index`.
    pub fn get(&self, index: usize) -> (packet: &Packet)
        requires
            index < self@.len(),
        ensures
            packet@ == self@[index as int],
    {
        &self.0[index]
    }

    /// The packets, as an owned vector.
    pub fn into_vec(self) -> (packets: Vec<Packet>)
        ensures
            packet_views(packets@) == self@,
    {
        self.0
    }
}

} // verus!
