//! The frame codec: the fixed packet header and the variable list of
//! segments a packet carries. Encoding lays segments out contiguously,
//! applies obfuscation and then compression to the segment block, and
//! prefixes the header; decoding reverses the pipeline exactly, and any
//! mismatch between declared and actual sizes rejects the whole packet.

use vstd::prelude::*;

use crate::bytes::{
    get_bytes, get_u16, get_u32, get_u64, get_u8, put_bytes, put_u16, put_u32, put_u64, put_u8,
    put_zeros, u16_from_le, u16_le, u32_from_le, u32_le, u64_from_le, u64_le, zeros,
};
use crate::compress::{rle_compress, rle_decode, rle_decompress, rle_encode, CompressionType};
use crate::transform::{apply_scramble, scramble, ScramblerKeys, SCRAMBLER_KEY_LENGTH};

verus! {

/// Number of bytes in the fixed packet header.
pub const PACKET_HEADER_SIZE: usize = 40;

/// Number of bytes in a segment header (size, source, target, type, reserved).
pub const SEGMENT_HEADER_SIZE: usize = 16;

/// Largest encoded size of one segment, header included.
pub const MAX_SEGMENT_SIZE: usize = 65535;

/// Largest number of segments one packet may carry.
pub const MAX_SEGMENT_COUNT: usize = 4096;

/// Which logical channel a socket carries.
#[derive(Debug, Clone, Copy, PartialEq, Eq, Structural)]
pub enum ConnectionType {
    /// Not yet negotiated; used for private server-to-server exchanges.
    Unspecified,
    Zone,
    Chat,
}

/// The wire tag of a connection type.
pub open spec fn connection_type_tag(c: ConnectionType) -> u8 {
    match c {
        ConnectionType::Unspecified => 0,
        ConnectionType::Zone => 1,
        ConnectionType::Chat => 2,
    }
}

/// The wire tag of a compression type.
pub open spec fn compression_type_tag(c: CompressionType) -> u8 {
    match c {
        CompressionType::Uncompressed => 0,
        CompressionType::CompressedBlock => 1,
    }
}

/// A raw typed-command envelope as the frame codec sees it: the nested
/// command body is an opaque byte payload here; the dispatch layer gives
/// it meaning per channel.
#[derive(Debug, Clone, PartialEq)]
pub struct IpcEnvelope {
    pub op_code: u16,
    pub option: u16,
    pub timestamp: u32,
    pub payload: Vec<u8>,
}

/// Spec-level value of an [`IpcEnvelope`].
#[verifier::ext_equal]
pub struct IpcEnvelopeModel {
    pub op_code: u16,
    pub option: u16,
    pub timestamp: u32,
    pub payload: Seq<u8>,
}

impl View for IpcEnvelope {
    type V = IpcEnvelopeModel;

    open spec fn view(&self) -> IpcEnvelopeModel {
        IpcEnvelopeModel {
            op_code: self.op_code,
            option: self.option,
            timestamp: self.timestamp,
            payload: self.payload@,
        }
    }
}

/// The payload of one segment, discriminated by the segment-type tag.
#[derive(Debug, Clone, PartialEq)]
pub enum SegmentData {
    KeepAliveRequest { id: u32, timestamp: u32 },
    KeepAliveResponse { id: u32, timestamp: u32 },
    Initialize { actor_id: u32, timestamp: u32 },
    Ipc { data: IpcEnvelope },
    CustomIpc { data: IpcEnvelope },
    Delete { actor_id: u32 },
}

/// Spec-level value of a [`SegmentData`].
#[verifier::ext_equal]
pub enum SegmentDataModel {
    KeepAliveRequest { id: u32, timestamp: u32 },
    KeepAliveResponse { id: u32, timestamp: u32 },
    Initialize { actor_id: u32, timestamp: u32 },
    Ipc { data: IpcEnvelopeModel },
    CustomIpc { data: IpcEnvelopeModel },
    Delete { actor_id: u32 },
}

impl View for SegmentData {
    type V = SegmentDataModel;

    open spec fn view(&self) -> SegmentDataModel {
        match self {
            SegmentData::KeepAliveRequest { id, timestamp } => SegmentDataModel::KeepAliveRequest {
                id: *id,
                timestamp: *timestamp,
            },
            SegmentData::KeepAliveResponse { id, timestamp } => {
                SegmentDataModel::KeepAliveResponse { id: *id, timestamp: *timestamp }
            },
            SegmentData::Initialize { actor_id, timestamp } => SegmentDataModel::Initialize {
                actor_id: *actor_id,
                timestamp: *timestamp,
            },
            SegmentData::Ipc { data } => SegmentDataModel::Ipc { data: data@ },
            SegmentData::CustomIpc { data } => SegmentDataModel::CustomIpc { data: data@ },
            SegmentData::Delete { actor_id } => SegmentDataModel::Delete { actor_id: *actor_id },
        }
    }
}

/// One self-describing sub-message within a packet, addressed by source and
/// target actor id and carrying a typed command.
#[derive(Debug, Clone, PartialEq)]
pub struct PacketSegment {
    pub source_actor: u32,
    pub target_actor: u32,
    pub data: SegmentData,
}

/// Spec-level value of a [`PacketSegment`].
#[verifier::ext_equal]
pub struct PacketSegmentModel {
    pub source_actor: u32,
    pub target_actor: u32,
    pub data: SegmentDataModel,
}

impl View for PacketSegment {
    type V = PacketSegmentModel;

    open spec fn view(&self) -> PacketSegmentModel {
        PacketSegmentModel {
            source_actor: self.source_actor,
            target_actor: self.target_actor,
            data: self.data@,
        }
    }
}

/// The fixed wire-level packet header.
#[derive(Debug, Clone, Copy, PartialEq, Eq, Structural)]
pub struct PacketHeader {
    /// Send timestamp in milliseconds.
    pub timestamp: u64,
    /// Total packet size: header plus the payload actually written.
    pub size: u32,
    pub connection_type: ConnectionType,
    pub segment_count: u16,
    /// Protocol version; currently unused and always zero.
    pub version: u16,
    pub compression_type: CompressionType,
    pub unk4: u16,
    /// Size of the segment block before compression.
    pub uncompressed_size: u32,
}

// ---------------------------------------------------------------------------
// Spec-level encoding
// ---------------------------------------------------------------------------

/// The wire tag of a segment's type.
pub open spec fn segment_type_tag(d: SegmentDataModel) -> u16 {
    match d {
        SegmentDataModel::Initialize { .. } => 2,
        SegmentDataModel::Ipc { .. } => 3,
        SegmentDataModel::Delete { .. } => 5,
        SegmentDataModel::KeepAliveRequest { .. } => 7,
        SegmentDataModel::KeepAliveResponse { .. } => 8,
        SegmentDataModel::CustomIpc { .. } => 9,
    }
}

/// The encoded payload of one segment (the bytes after the segment header).
pub open spec fn enc_segment_payload(d: SegmentDataModel) -> Seq<u8> {
    match d {
        SegmentDataModel::KeepAliveRequest { id, timestamp } => u32_le(id) + u32_le(timestamp),
        SegmentDataModel::KeepAliveResponse { id, timestamp } => u32_le(id) + u32_le(timestamp),
        SegmentDataModel::Initialize { actor_id, timestamp } => u32_le(actor_id) + u32_le(
            timestamp,
        ),
        SegmentDataModel::Ipc { data } => u16_le(data.op_code) + u16_le(data.option) + u32_le(
            data.timestamp,
        ) + data.payload,
        SegmentDataModel::CustomIpc { data } => u16_le(data.op_code) + u16_le(data.option)
            + u32_le(data.timestamp) + data.payload,
        SegmentDataModel::Delete { actor_id } => u32_le(actor_id),
    }
}

/// A well-formed segment: its encoded size fits the per-segment cap.
pub open spec fn seg_wf(s: PacketSegmentModel) -> bool {
    SEGMENT_HEADER_SIZE + enc_segment_payload(s.data).len() <= MAX_SEGMENT_SIZE
}

/// A well-formed segment list: bounded count, every member well-formed.
pub open spec fn segs_wf(ss: Seq<PacketSegmentModel>) -> bool {
    ss.len() <= MAX_SEGMENT_COUNT && forall|i: int| 0 <= i < ss.len() ==> seg_wf(#[trigger] ss[i])
}

/// The full encoding of one segment: declared size, addressing, type tag,
/// reserved halfword, then the payload.
pub open spec fn enc_segment(s: PacketSegmentModel) -> Seq<u8> {
    let p = enc_segment_payload(s.data);
    u32_le((SEGMENT_HEADER_SIZE + p.len()) as u32) + u32_le(s.source_actor) + u32_le(
        s.target_actor,
    ) + u16_le(segment_type_tag(s.data)) + u16_le(0) + p
}

/// Segments packed contiguously with no padding between them.
pub open spec fn enc_segments(ss: Seq<PacketSegmentModel>) -> Seq<u8>
    decreases ss.len(),
{
    if ss.len() == 0 {
        Seq::empty()
    } else {
        enc_segment(ss[0]) + enc_segments(ss.subrange(1, ss.len() as int))
    }
}

/// The spec view of optional key material.
pub open spec fn keys_model(keys: Option<&ScramblerKeys>) -> Option<Seq<u8>> {
    match keys {
        Some(k) => Some(k.keys@),
        None => None,
    }
}

/// The segment block after the obfuscation axis.
pub open spec fn obfuscate_block(p: Seq<u8>, keys: Option<Seq<u8>>) -> Seq<u8> {
    match keys {
        Some(k) => scramble(p, k),
        None => p,
    }
}

/// The segment block after the compression axis.
pub open spec fn compress_block(p: Seq<u8>, c: CompressionType) -> Seq<u8> {
    match c {
        CompressionType::Uncompressed => p,
        CompressionType::CompressedBlock => rle_encode(p),
    }
}

/// The header a packet encode writes for the given inputs.
pub open spec fn enc_header(
    timestamp: u64,
    connection_type: ConnectionType,
    compression_type: CompressionType,
    keys: Option<Seq<u8>>,
    ss: Seq<PacketSegmentModel>,
) -> PacketHeader {
    let p0 = enc_segments(ss);
    let p1 = obfuscate_block(p0, keys);
    let p2 = compress_block(p1, compression_type);
    PacketHeader {
        timestamp,
        size: (PACKET_HEADER_SIZE + p2.len()) as u32,
        connection_type,
        segment_count: ss.len() as u16,
        version: 0,
        compression_type,
        unk4: 0,
        uncompressed_size: p1.len() as u32,
    }
}

/// The 40 encoded bytes of a packet header: the 16-byte reserved prefix,
/// then the header fields in wire order.
pub open spec fn enc_header_bytes(h: PacketHeader) -> Seq<u8> {
    zeros(16) + u64_le(h.timestamp) + u32_le(h.size) + seq![connection_type_tag(
        h.connection_type,
    )] + u16_le(h.segment_count) + u16_le(h.version) + seq![compression_type_tag(
        h.compression_type,
    )] + u16_le(h.unk4) + u32_le(h.uncompressed_size)
}

/// The encoded bytes of a whole packet: the header bytes, then the
/// transformed segment block.
pub open spec fn enc_packet(
    timestamp: u64,
    connection_type: ConnectionType,
    compression_type: CompressionType,
    keys: Option<Seq<u8>>,
    ss: Seq<PacketSegmentModel>,
) -> Seq<u8> {
    let h = enc_header(timestamp, connection_type, compression_type, keys, ss);
    let p2 = compress_block(obfuscate_block(enc_segments(ss), keys), compression_type);
    enc_header_bytes(h) + p2
}

// ---------------------------------------------------------------------------
// Spec-level decoding
// ---------------------------------------------------------------------------

/// Decodes the payload of one segment whose bytes (header included) are
/// exactly `b`; `None` when the type tag is unknown or the payload length
/// does not match the type's layout.
#[verifier::opaque]
pub open spec fn dec_segment_payload(b: Seq<u8>) -> Option<PacketSegmentModel>
    recommends
        b.len() >= SEGMENT_HEADER_SIZE,
{
    let source_actor = u32_from_le(b.subrange(4, 8));
    let target_actor = u32_from_le(b.subrange(8, 12));
    let tag = u16_from_le(b.subrange(12, 14));
    let p = b.subrange(SEGMENT_HEADER_SIZE as int, b.len() as int);
    if tag == 2 {
        if p.len() == 8 {
            Some(PacketSegmentModel {
                source_actor,
                target_actor,
                data: SegmentDataModel::Initialize {
                    actor_id: u32_from_le(p.subrange(0, 4)),
                    timestamp: u32_from_le(p.subrange(4, 8)),
                },
            })
        } else {
            None
        }
    } else if tag == 3 || tag == 9 {
        if p.len() >= 8 {
            let env = IpcEnvelopeModel {
                op_code: u16_from_le(p.subrange(0, 2)),
                option: u16_from_le(p.subrange(2, 4)),
                timestamp: u32_from_le(p.subrange(4, 8)),
                payload: p.subrange(8, p.len() as int),
            };
            if tag == 3 {
                Some(PacketSegmentModel {
                    source_actor,
                    target_actor,
                    data: SegmentDataModel::Ipc { data: env },
                })
            } else {
                Some(PacketSegmentModel {
                    source_actor,
                    target_actor,
                    data: SegmentDataModel::CustomIpc { data: env },
                })
            }
        } else {
            None
        }
    } else if tag == 5 {
        if p.len() == 4 {
            Some(PacketSegmentModel {
                source_actor,
                target_actor,
                data: SegmentDataModel::Delete { actor_id: u32_from_le(p.subrange(0, 4)) },
            })
        } else {
            None
        }
    } else if tag == 7 || tag == 8 {
        if p.len() == 8 {
            let id = u32_from_le(p.subrange(0, 4));
            let timestamp = u32_from_le(p.subrange(4, 8));
            if tag == 7 {
                Some(PacketSegmentModel {
                    source_actor,
                    target_actor,
                    data: SegmentDataModel::KeepAliveRequest { id, timestamp },
                })
            } else {
                Some(PacketSegmentModel {
                    source_actor,
                    target_actor,
                    data: SegmentDataModel::KeepAliveResponse { id, timestamp },
                })
            }
        } else {
            None
        }
    } else {
        None
    }
}

/// Decodes exactly `n` segments consuming the whole block; `None` on any
/// size mismatch or malformed segment.
pub open spec fn dec_segments(b: Seq<u8>, n: nat) -> Option<Seq<PacketSegmentModel>>
    decreases n,
{
    if n == 0 {
        if b.len() == 0 {
            Some(Seq::empty())
        } else {
            None
        }
    } else if b.len() < SEGMENT_HEADER_SIZE {
        None
    } else {
        let size = u32_from_le(b.subrange(0, 4)) as int;
        if size < SEGMENT_HEADER_SIZE || size > b.len() {
            None
        } else {
            match dec_segment_payload(b.subrange(0, size)) {
                Some(s) => match dec_segments(b.subrange(size, b.len() as int), (n - 1) as nat) {
                    Some(rest) => Some(seq![s] + rest),
                    None => None,
                },
                None => None,
            }
        }
    }
}

/// Decodes a whole packet against the session's key material; `None` is a
/// framing or transform failure, fatal for the connection.
pub open spec fn dec_packet(b: Seq<u8>, keys: Option<Seq<u8>>) -> Option<
    (PacketHeader, Seq<PacketSegmentModel>),
> {
    if b.len() < PACKET_HEADER_SIZE {
        None
    } else {
        let conn_tag = b[28];
        let comp_tag = b[33];
        if conn_tag > 2 || comp_tag > 1 {
            None
        } else {
            let h = PacketHeader {
                timestamp: u64_from_le(b.subrange(16, 24)),
                size: u32_from_le(b.subrange(24, 28)),
                connection_type: if conn_tag == 0 {
                    ConnectionType::Unspecified
                } else if conn_tag == 1 {
                    ConnectionType::Zone
                } else {
                    ConnectionType::Chat
                },
                segment_count: u16_from_le(b.subrange(29, 31)),
                version: u16_from_le(b.subrange(31, 33)),
                compression_type: if comp_tag == 0 {
                    CompressionType::Uncompressed
                } else {
                    CompressionType::CompressedBlock
                },
                unk4: u16_from_le(b.subrange(34, 36)),
                uncompressed_size: u32_from_le(b.subrange(36, 40)),
            };
            if h.size != b.len() {
                None
            } else {
                let p2 = b.subrange(PACKET_HEADER_SIZE as int, b.len() as int);
                let p1_opt = match h.compression_type {
                    CompressionType::Uncompressed => Some(p2),
                    CompressionType::CompressedBlock => rle_decode(p2),
                };
                match p1_opt {
                    None => None,
                    Some(p1) => {
                        if p1.len() != h.uncompressed_size {
                            None
                        } else {
                            let p0 = match keys {
                                Some(k) => scramble(p1, k),
                                None => p1,
                            };
                            match dec_segments(p0, h.segment_count as nat) {
                                Some(ss) => Some((h, ss)),
                                None => None,
                            }
                        }
                    },
                }
            }
        }
    }
}

// ---------------------------------------------------------------------------
// Round-trip lemmas
// ---------------------------------------------------------------------------

/// The encoded length of one segment, and the size field it carries.
pub proof fn lemma_enc_segment_len(s: PacketSegmentModel)
    ensures
        enc_segment(s).len() == SEGMENT_HEADER_SIZE + enc_segment_payload(s.data).len(),
{
}

/// Decoding one encoded segment, cut to its declared size, returns it.
pub proof fn lemma_segment_round_trip(s: PacketSegmentModel)
    requires
        seg_wf(s),
    ensures
        enc_segment(s).len() == SEGMENT_HEADER_SIZE + enc_segment_payload(s.data).len(),
        u32_from_le(enc_segment(s).subrange(0, 4)) == SEGMENT_HEADER_SIZE
            + enc_segment_payload(s.data).len(),
        dec_segment_payload(enc_segment(s)) == Some(s),
{
    reveal(crate::frame::dec_segment_payload);
    let p = enc_segment_payload(s.data);
    let size = (SEGMENT_HEADER_SIZE + p.len()) as u32;
    let b = enc_segment(s);
    assert(b.subrange(0, 4) =~= u32_le(size));
    assert(b.subrange(4, 8) =~= u32_le(s.source_actor));
    assert(b.subrange(8, 12) =~= u32_le(s.target_actor));
    assert(b.subrange(12, 14) =~= u16_le(segment_type_tag(s.data)));
    assert(b.subrange(SEGMENT_HEADER_SIZE as int, b.len() as int) =~= p);
    crate::bytes::lemma_u32_round_trip(size);
    crate::bytes::lemma_u32_round_trip(s.source_actor);
    crate::bytes::lemma_u32_round_trip(s.target_actor);
    crate::bytes::lemma_u16_round_trip(segment_type_tag(s.data));
    let tag = segment_type_tag(s.data);
    match s.data {
        SegmentDataModel::KeepAliveRequest { id, timestamp } => {
            assert(p.subrange(0, 4) =~= u32_le(id));
            assert(p.subrange(4, 8) =~= u32_le(timestamp));
            crate::bytes::lemma_u32_round_trip(id);
            crate::bytes::lemma_u32_round_trip(timestamp);
            assert(dec_segment_payload(b) == Some(s));
        },
        SegmentDataModel::KeepAliveResponse { id, timestamp } => {
            assert(p.subrange(0, 4) =~= u32_le(id));
            assert(p.subrange(4, 8) =~= u32_le(timestamp));
            crate::bytes::lemma_u32_round_trip(id);
            crate::bytes::lemma_u32_round_trip(timestamp);
            assert(dec_segment_payload(b) == Some(s));
        },
        SegmentDataModel::Initialize { actor_id, timestamp } => {
            assert(p.subrange(0, 4) =~= u32_le(actor_id));
            assert(p.subrange(4, 8) =~= u32_le(timestamp));
            crate::bytes::lemma_u32_round_trip(actor_id);
            crate::bytes::lemma_u32_round_trip(timestamp);
            assert(dec_segment_payload(b) == Some(s));
        },
        SegmentDataModel::Delete { actor_id } => {
            assert(p.subrange(0, 4) =~= u32_le(actor_id));
            crate::bytes::lemma_u32_round_trip(actor_id);
            assert(dec_segment_payload(b) == Some(s));
        },
        SegmentDataModel::Ipc { data } => {
            lemma_envelope_round_trip(p, data);
            assert(dec_segment_payload(b) == Some(s));
        },
        SegmentDataModel::CustomIpc { data } => {
            lemma_envelope_round_trip(p, data);
            assert(dec_segment_payload(b) == Some(s));
        },
    }
}

/// Reading the fields of an encoded envelope returns the envelope.
proof fn lemma_envelope_round_trip(p: Seq<u8>, data: IpcEnvelopeModel)
    requires
        p == u16_le(data.op_code) + u16_le(data.option) + u32_le(data.timestamp) + data.payload,
    ensures
        p.len() == 8 + data.payload.len(),
        (IpcEnvelopeModel {
            op_code: u16_from_le(p.subrange(0, 2)),
            option: u16_from_le(p.subrange(2, 4)),
            timestamp: u32_from_le(p.subrange(4, 8)),
            payload: p.subrange(8, p.len() as int),
        }) == data,
{
    assert(p.subrange(0, 2) =~= u16_le(data.op_code));
    assert(p.subrange(2, 4) =~= u16_le(data.option));
    assert(p.subrange(4, 8) =~= u32_le(data.timestamp));
    assert(p.subrange(8, p.len() as int) =~= data.payload);
    crate::bytes::lemma_u16_round_trip(data.op_code);
    crate::bytes::lemma_u16_round_trip(data.option);
    crate::bytes::lemma_u32_round_trip(data.timestamp);
    assert(IpcEnvelopeModel {
        op_code: u16_from_le(p.subrange(0, 2)),
        option: u16_from_le(p.subrange(2, 4)),
        timestamp: u32_from_le(p.subrange(4, 8)),
        payload: p.subrange(8, p.len() as int),
    } =~= data);
}

/// Appending one segment to a list appends its encoding.
pub proof fn lemma_enc_segments_snoc(ss: Seq<PacketSegmentModel>, x: PacketSegmentModel)
    ensures
        enc_segments(ss.push(x)) == enc_segments(ss) + enc_segment(x),
    decreases ss.len(),
{
    let c = enc_segment(x);
    if ss.len() == 0 {
        assert(ss.push(x)[0] == x);
        assert(ss.push(x).subrange(1, ss.push(x).len() as int)
            =~= Seq::<PacketSegmentModel>::empty());
        assert(enc_segments(ss.push(x)) == enc_segment(ss.push(x)[0]) + enc_segments(
            ss.push(x).subrange(1, ss.push(x).len() as int),
        ));
        assert(enc_segments(Seq::<PacketSegmentModel>::empty()) == Seq::<u8>::empty());
        assert(enc_segments(ss.push(x)) == c + Seq::<u8>::empty());
        assert(c + Seq::<u8>::empty() =~= Seq::<u8>::empty() + c);
    } else {
        let tail = ss.subrange(1, ss.len() as int);
        lemma_enc_segments_snoc(tail, x);
        let a = enc_segment(ss[0]);
        let b = enc_segments(tail);
        assert(ss.push(x).subrange(1, ss.push(x).len() as int) =~= tail.push(x));
        assert(ss.push(x)[0] == ss[0]);
        assert(enc_segments(ss.push(x)) == a + (b + c));
        assert(a + (b + c) =~= (a + b) + c);
    }
}

/// The encoded length of a well-formed segment list is bounded.
pub proof fn lemma_enc_segments_len(ss: Seq<PacketSegmentModel>)
    requires
        forall|i: int| 0 <= i < ss.len() ==> seg_wf(#[trigger] ss[i]),
    ensures
        enc_segments(ss).len() <= MAX_SEGMENT_SIZE * ss.len(),
    decreases ss.len(),
{
    if ss.len() > 0 {
        let tail = ss.subrange(1, ss.len() as int);
        assert forall|i: int| 0 <= i < tail.len() implies seg_wf(#[trigger] tail[i]) by {
            assert(tail[i] == ss[i + 1]);
        }
        lemma_enc_segments_len(tail);
        lemma_enc_segment_len(ss[0]);
    }
}

/// Decoding an encoded well-formed segment list returns the list.
pub proof fn lemma_segments_round_trip(ss: Seq<PacketSegmentModel>)
    requires
        forall|i: int| 0 <= i < ss.len() ==> seg_wf(#[trigger] ss[i]),
    ensures
        dec_segments(enc_segments(ss), ss.len()) == Some(ss),
    decreases ss.len(),
{
    if ss.len() == 0 {
        assert(dec_segments(enc_segments(ss), 0) == Some(Seq::<PacketSegmentModel>::empty()));
        assert(Seq::<PacketSegmentModel>::empty() =~= ss);
    } else {
        let head = ss[0];
        let tail = ss.subrange(1, ss.len() as int);
        let e0 = enc_segment(head);
        let rest = enc_segments(tail);
        let b = enc_segments(ss);
        assert(b == e0 + rest);
        lemma_segment_round_trip(head);
        let size = e0.len() as int;
        crate::bytes::lemma_concat_subrange_left(e0, rest, 0, 4);
        assert(u32_from_le(b.subrange(0, 4)) == size);
        crate::bytes::lemma_concat_split(e0, rest);
        assert(b.subrange(0, size) == e0);
        assert(b.subrange(size, b.len() as int) == rest);
        assert forall|i: int| 0 <= i < tail.len() implies seg_wf(#[trigger] tail[i]) by {
            assert(tail[i] == ss[i + 1]);
        }
        lemma_segments_round_trip(tail);
        assert(seq![head] + tail =~= ss);
    }
}

/// The field read-backs of an encoded header.
pub proof fn lemma_header_fields(h: PacketHeader)
    ensures
        enc_header_bytes(h).len() == PACKET_HEADER_SIZE,
        u64_from_le(enc_header_bytes(h).subrange(16, 24)) == h.timestamp,
        u32_from_le(enc_header_bytes(h).subrange(24, 28)) == h.size,
        enc_header_bytes(h)[28] == connection_type_tag(h.connection_type),
        u16_from_le(enc_header_bytes(h).subrange(29, 31)) == h.segment_count,
        u16_from_le(enc_header_bytes(h).subrange(31, 33)) == h.version,
        enc_header_bytes(h)[33] == compression_type_tag(h.compression_type),
        u16_from_le(enc_header_bytes(h).subrange(34, 36)) == h.unk4,
        u32_from_le(enc_header_bytes(h).subrange(36, 40)) == h.uncompressed_size,
{
    let b = enc_header_bytes(h);
    assert(b.subrange(16, 24) =~= u64_le(h.timestamp));
    assert(b.subrange(24, 28) =~= u32_le(h.size));
    assert(b[28] == connection_type_tag(h.connection_type));
    assert(b.subrange(29, 31) =~= u16_le(h.segment_count));
    assert(b.subrange(31, 33) =~= u16_le(h.version));
    assert(b[33] == compression_type_tag(h.compression_type));
    assert(b.subrange(34, 36) =~= u16_le(h.unk4));
    assert(b.subrange(36, 40) =~= u32_le(h.uncompressed_size));
    crate::bytes::lemma_u64_round_trip(h.timestamp);
    crate::bytes::lemma_u32_round_trip(h.size);
    crate::bytes::lemma_u16_round_trip(h.segment_count);
    crate::bytes::lemma_u16_round_trip(h.version);
    crate::bytes::lemma_u16_round_trip(h.unk4);
    crate::bytes::lemma_u32_round_trip(h.uncompressed_size);
}

/// Round trip: decoding an encoded packet with the same key material
/// returns the header the encoder wrote and exactly the original segment
/// list, for every combination of the compression and obfuscation axes.
pub proof fn lemma_packet_round_trip(
    timestamp: u64,
    connection_type: ConnectionType,
    compression_type: CompressionType,
    keys: Option<Seq<u8>>,
    ss: Seq<PacketSegmentModel>,
)
    requires
        segs_wf(ss),
        keys is Some ==> keys->0.len() == SCRAMBLER_KEY_LENGTH,
    ensures
        dec_packet(enc_packet(timestamp, connection_type, compression_type, keys, ss), keys)
            == Some((enc_header(timestamp, connection_type, compression_type, keys, ss), ss)),
{
    let h = enc_header(timestamp, connection_type, compression_type, keys, ss);
    let p0 = enc_segments(ss);
    let p1 = obfuscate_block(p0, keys);
    let p2 = compress_block(p1, compression_type);
    let hb = enc_header_bytes(h);
    let b = enc_packet(timestamp, connection_type, compression_type, keys, ss);
    lemma_enc_segments_len(ss);
    assert(p1.len() == p0.len());
    match compression_type {
        CompressionType::Uncompressed => {},
        CompressionType::CompressedBlock => {
            crate::compress::lemma_rle_len(p1);
        },
    }
    lemma_header_fields(h);
    crate::bytes::lemma_concat_split(hb, p2);
    assert(b.subrange(16, 24) =~= hb.subrange(16, 24));
    assert(b.subrange(24, 28) =~= hb.subrange(24, 28));
    assert(b[28] == hb[28]);
    assert(b.subrange(29, 31) =~= hb.subrange(29, 31));
    assert(b.subrange(31, 33) =~= hb.subrange(31, 33));
    assert(b[33] == hb[33]);
    assert(b.subrange(34, 36) =~= hb.subrange(34, 36));
    assert(b.subrange(36, 40) =~= hb.subrange(36, 40));
    assert(b.len() == PACKET_HEADER_SIZE + p2.len());
    assert(h.size == b.len());
    assert(b.subrange(PACKET_HEADER_SIZE as int, b.len() as int) == p2);
    match compression_type {
        CompressionType::Uncompressed => {},
        CompressionType::CompressedBlock => {
            crate::compress::lemma_rle_round_trip(p1);
        },
    }
    match keys {
        Some(k) => {
            crate::transform::lemma_scramble_involutive(p0, k);
        },
        None => {},
    }
    lemma_segments_round_trip(ss);
    assert(h.segment_count as nat == ss.len());
}

// ---------------------------------------------------------------------------
// Executable codec
// ---------------------------------------------------------------------------

/// The spec values of a list of segments.
pub open spec fn seg_views(v: Seq<PacketSegment>) -> Seq<PacketSegmentModel> {
    Seq::new(v.len(), |i: int| v[i]@)
}

/// A fatal decode failure: the packet is rejected and the connection must
/// be dropped, since codec state may be desynchronized.
#[derive(Debug, Clone, Copy, PartialEq, Eq, Structural)]
pub enum FrameError {
    /// Malformed header or a segment length mismatch.
    Framing,
    /// Decompression or de-scrambling failure.
    Transform,
}

/// The wire tag of a connection type, computed.
pub fn connection_type_value(c: ConnectionType) -> (r: u8)
    ensures
        r == connection_type_tag(c),
{
    match c {
        ConnectionType::Unspecified => 0,
        ConnectionType::Zone => 1,
        ConnectionType::Chat => 2,
    }
}

/// The wire tag of a compression type, computed.
pub fn compression_type_value(c: CompressionType) -> (r: u8)
    ensures
        r == compression_type_tag(c),
{
    match c {
        CompressionType::Uncompressed => 0,
        CompressionType::CompressedBlock => 1,
    }
}

/// The wire tag of a segment's type, computed.
pub fn segment_type_value(d: &SegmentData) -> (r: u16)
    ensures
        r == segment_type_tag(d@),
{
    match d {
        SegmentData::Initialize { .. } => 2,
        SegmentData::Ipc { .. } => 3,
        SegmentData::Delete { .. } => 5,
        SegmentData::KeepAliveRequest { .. } => 7,
        SegmentData::KeepAliveResponse { .. } => 8,
        SegmentData::CustomIpc { .. } => 9,
    }
}

/// Encodes the payload of one segment.
pub fn encode_segment_payload(d: &SegmentData) -> (r: Vec<u8>)
    ensures
        r@ == enc_segment_payload(d@),
{
    let mut out: Vec<u8> = Vec::new();
    match d {
        SegmentData::KeepAliveRequest { id, timestamp } => {
            put_u32(&mut out, *id);
            put_u32(&mut out, *timestamp);
        },
        SegmentData::KeepAliveResponse { id, timestamp } => {
            put_u32(&mut out, *id);
            put_u32(&mut out, *timestamp);
        },
        SegmentData::Initialize { actor_id, timestamp } => {
            put_u32(&mut out, *actor_id);
            put_u32(&mut out, *timestamp);
        },
        SegmentData::Ipc { data } => {
            put_u16(&mut out, data.op_code);
            put_u16(&mut out, data.option);
            put_u32(&mut out, data.timestamp);
            put_bytes(&mut out, &data.payload);
        },
        SegmentData::CustomIpc { data } => {
            put_u16(&mut out, data.op_code);
            put_u16(&mut out, data.option);
            put_u32(&mut out, data.timestamp);
            put_bytes(&mut out, &data.payload);
        },
        SegmentData::Delete { actor_id } => {
            put_u32(&mut out, *actor_id);
        },
    }
    assert(out@ =~= enc_segment_payload(d@));
    out
}

/// Appends the full encoding of one segment.
pub fn encode_segment(out: &mut Vec<u8>, s: &PacketSegment)
    requires
        seg_wf(s@),
    ensures
        final(out)@ == old(out)@ + enc_segment(s@),
{
    let p = encode_segment_payload(&s.data);
    put_u32(out, (SEGMENT_HEADER_SIZE + p.len()) as u32);
    put_u32(out, s.source_actor);
    put_u32(out, s.target_actor);
    put_u16(out, segment_type_value(&s.data));
    put_u16(out, 0);
    put_bytes(out, &p);
    assert(out@ =~= old(out)@ + enc_segment(s@));
}

/// Encodes a whole packet: segments are framed, then obfuscated when key
/// material is given, then compressed per the chosen mode, then prefixed
/// with the header.
pub fn encode_packet(
    timestamp: u64,
    connection_type: ConnectionType,
    compression_type: CompressionType,
    keys: Option<&ScramblerKeys>,
    segments: &Vec<PacketSegment>,
) -> (r: Vec<u8>)
    requires
        segs_wf(seg_views(segments@)),
        (match keys {
            Some(k) => k.wf(),
            None => true,
        }),
    ensures
        r@ == enc_packet(
            timestamp,
            connection_type,
            compression_type,
            keys_model(keys),
            seg_views(segments@),
        ),
{
    let ghost views = seg_views(segments@);
    let count = segments.len();
    let mut p0: Vec<u8> = Vec::new();
    let mut i: usize = 0;
    assert(views.subrange(0, 0) =~= Seq::<PacketSegmentModel>::empty());
    while i < count
        invariant
            i <= count,
            count == segments@.len(),
            views == seg_views(segments@),
            segs_wf(views),
            p0@ == enc_segments(views.subrange(0, i as int)),
        decreases count - i,
    {
        assert(views[i as int] == segments@[i as int]@);
        encode_segment(&mut p0, &segments[i]);
        proof {
            lemma_enc_segments_snoc(views.subrange(0, i as int), views[i as int]);
            assert(views.subrange(0, i as int).push(views[i as int]) =~= views.subrange(
                0,
                i as int + 1,
            ));
        }
        i = i + 1;
    }
    assert(views.subrange(0, count as int) =~= views);
    proof {
        lemma_enc_segments_len(views);
    }
    let uncompressed_size = p0.len();
    let p1 = match keys {
        Some(k) => apply_scramble(&p0, k),
        None => p0,
    };
    let ghost p1v = p1@;
    assert(p1v == obfuscate_block(enc_segments(views), keys_model(keys)));
    proof {
        crate::compress::lemma_rle_len(p1v);
    }
    let p2 = match compression_type {
        CompressionType::Uncompressed => p1,
        CompressionType::CompressedBlock => rle_compress(&p1),
    };
    assert(p2@ == compress_block(p1v, compression_type));
    let mut out: Vec<u8> = Vec::new();
    put_zeros(&mut out, 16);
    put_u64(&mut out, timestamp);
    put_u32(&mut out, (PACKET_HEADER_SIZE + p2.len()) as u32);
    put_u8(&mut out, connection_type_value(connection_type));
    put_u16(&mut out, count as u16);
    put_u16(&mut out, 0);
    put_u8(&mut out, compression_type_value(compression_type));
    put_u16(&mut out, 0);
    put_u32(&mut out, uncompressed_size as u32);
    put_bytes(&mut out, &p2);
    proof {
        let h = enc_header(timestamp, connection_type, compression_type, keys_model(keys), views);
        assert(out@ =~= enc_header_bytes(h) + p2@);
    }
    out
}

/// Parses one segment whose bytes, header included, are exactly `b`.
fn parse_one_segment(b: &Vec<u8>) -> (r: Option<PacketSegment>)
    requires
        b@.len() >= SEGMENT_HEADER_SIZE,
    ensures
        match r {
            Some(s) => dec_segment_payload(b@) == Some(s@),
            None => dec_segment_payload(b@) is None,
        },
{
    proof {
        reveal(crate::frame::dec_segment_payload);
    }
    let n = b.len();
    let source_actor = get_u32(b, 4);
    let target_actor = get_u32(b, 8);
    let tag = get_u16(b, 12);
    let plen = n - SEGMENT_HEADER_SIZE;
    let ghost p = b@.subrange(SEGMENT_HEADER_SIZE as int, b@.len() as int);
    if tag == 2 {
        if plen == 8 {
            let actor_id = get_u32(b, 16);
            let timestamp = get_u32(b, 20);
            proof {
                assert(p.subrange(0, 4) =~= b@.subrange(16, 20));
                assert(p.subrange(4, 8) =~= b@.subrange(20, 24));
            }
            Some(PacketSegment {
                source_actor,
                target_actor,
                data: SegmentData::Initialize { actor_id, timestamp },
            })
        } else {
            None
        }
    } else if tag == 3 || tag == 9 {
        if plen >= 8 {
            let op_code = get_u16(b, 16);
            let option = get_u16(b, 18);
            let timestamp = get_u32(b, 20);
            let payload = get_bytes(b, 24, n - 24);
            proof {
                assert(p.subrange(0, 2) =~= b@.subrange(16, 18));
                assert(p.subrange(2, 4) =~= b@.subrange(18, 20));
                assert(p.subrange(4, 8) =~= b@.subrange(20, 24));
                assert(p.subrange(8, p.len() as int) =~= b@.subrange(24, n as int));
            }
            let env = IpcEnvelope { op_code, option, timestamp, payload };
            if tag == 3 {
                Some(PacketSegment { source_actor, target_actor, data: SegmentData::Ipc { data: env } })
            } else {
                Some(PacketSegment {
                    source_actor,
                    target_actor,
                    data: SegmentData::CustomIpc { data: env },
                })
            }
        } else {
            None
        }
    } else if tag == 5 {
        if plen == 4 {
            let actor_id = get_u32(b, 16);
            proof {
                assert(p.subrange(0, 4) =~= b@.subrange(16, 20));
            }
            Some(PacketSegment { source_actor, target_actor, data: SegmentData::Delete { actor_id } })
        } else {
            None
        }
    } else if tag == 7 || tag == 8 {
        if plen == 8 {
            let id = get_u32(b, 16);
            let timestamp = get_u32(b, 20);
            proof {
                assert(p.subrange(0, 4) =~= b@.subrange(16, 20));
                assert(p.subrange(4, 8) =~= b@.subrange(20, 24));
            }
            if tag == 7 {
                Some(PacketSegment {
                    source_actor,
                    target_actor,
                    data: SegmentData::KeepAliveRequest { id, timestamp },
                })
            } else {
                Some(PacketSegment {
                    source_actor,
                    target_actor,
                    data: SegmentData::KeepAliveResponse { id, timestamp },
                })
            }
        } else {
            None
        }
    } else {
        None
    }
}

/// Parses a whole packet against the session key material. An `Err` is
/// fatal for the connection: `Framing` for a malformed header or segment,
/// `Transform` for a failed decompression.
#[verifier::rlimit(100)]
pub fn parse_packet(data: &Vec<u8>, keys: Option<&ScramblerKeys>) -> (r: Result<
    (PacketHeader, Vec<PacketSegment>),
    FrameError,
>)
    requires
        (match keys {
            Some(k) => k.wf(),
            None => true,
        }),
    ensures
        match r {
            Ok(hs) => dec_packet(data@, keys_model(keys)) == Some((hs.0, seg_views(hs.1@))),
            Err(_) => dec_packet(data@, keys_model(keys)) is None,
        },
{
    let n = data.len();
    if n < PACKET_HEADER_SIZE {
        return Err(FrameError::Framing);
    }
    let conn_tag = get_u8(data, 28);
    let comp_tag = get_u8(data, 33);
    if conn_tag > 2 || comp_tag > 1 {
        return Err(FrameError::Framing);
    }
    let header = PacketHeader {
        timestamp: get_u64(data, 16),
        size: get_u32(data, 24),
        connection_type: if conn_tag == 0 {
            ConnectionType::Unspecified
        } else if conn_tag == 1 {
            ConnectionType::Zone
        } else {
            ConnectionType::Chat
        },
        segment_count: get_u16(data, 29),
        version: get_u16(data, 31),
        compression_type: if comp_tag == 0 {
            CompressionType::Uncompressed
        } else {
            CompressionType::CompressedBlock
        },
        unk4: get_u16(data, 34),
        uncompressed_size: get_u32(data, 36),
    };
    if header.size as usize != n {
        return Err(FrameError::Framing);
    }
    let p2 = get_bytes(data, PACKET_HEADER_SIZE, n - PACKET_HEADER_SIZE);
    let p1 = match header.compression_type {
        CompressionType::Uncompressed => p2,
        CompressionType::CompressedBlock => {
            match rle_decompress(&p2) {
                Some(v) => v,
                None => {
                    return Err(FrameError::Transform);
                },
            }
        },
    };
    if p1.len() > u32::MAX as usize || p1.len() as u32 != header.uncompressed_size {
        return Err(FrameError::Framing);
    }
    let p0 = match keys {
        Some(k) => apply_scramble(&p1, k),
        None => p1,
    };
    let count = header.segment_count as usize;
    let n0 = p0.len();
    let mut segs: Vec<PacketSegment> = Vec::new();
    let mut pos: usize = 0;
    let mut i: usize = 0;
    assert(p0@.subrange(0, n0 as int) =~= p0@);
    assert(seg_views(segs@) =~= Seq::<PacketSegmentModel>::empty());
    let ghost whole_none = dec_segments(p0@, count as nat) is None ==> dec_packet(
        data@,
        keys_model(keys),
    ) is None;
    let ghost whole_some = forall|ss: Seq<PacketSegmentModel>|
        dec_segments(p0@, count as nat) == Some(ss) ==> dec_packet(data@, keys_model(keys))
            == Some((header, ss));
    proof {
        assert(whole_none);
        assert(whole_some);
    }
    while i < count
        invariant
            whole_none,
            whole_some,
            (whole_none == (dec_segments(p0@, count as nat) is None ==> dec_packet(
                data@,
                keys_model(keys),
            ) is None)),
            (whole_some == (forall|ss: Seq<PacketSegmentModel>|
                dec_segments(p0@, count as nat) == Some(ss) ==> dec_packet(
                    data@,
                    keys_model(keys),
                ) == Some((header, ss)))),
            i <= count,
            pos <= n0,
            n0 == p0@.len(),
            count == header.segment_count as int,
            seg_views(segs@).len() == i as int,
            forall|rest: Seq<PacketSegmentModel>|
                dec_segments(p0@.subrange(pos as int, n0 as int), (count - i) as nat) == Some(rest)
                    ==> dec_segments(p0@, count as nat) == Some(seg_views(segs@) + rest),
            dec_segments(p0@.subrange(pos as int, n0 as int), (count - i) as nat) is None
                ==> dec_segments(p0@, count as nat) is None,
        decreases count - i,
    {
        let ghost t = p0@.subrange(pos as int, n0 as int);
        if n0 - pos < SEGMENT_HEADER_SIZE {
            return Err(FrameError::Framing);
        }
        let size = get_u32(&p0, pos) as usize;
        proof {
            assert(t.subrange(0, 4) =~= p0@.subrange(pos as int, pos as int + 4));
        }
        if size < SEGMENT_HEADER_SIZE || size > n0 - pos {
            return Err(FrameError::Framing);
        }
        let segb = get_bytes(&p0, pos, size);
        proof {
            assert(segb@ =~= t.subrange(0, size as int));
        }
        match parse_one_segment(&segb) {
            Some(s) => {
                proof {
                    assert(t.subrange(size as int, t.len() as int) =~= p0@.subrange(
                        pos as int + size as int,
                        n0 as int,
                    ));
                    let old_views = seg_views(segs@);
                    assert forall|rest2: Seq<PacketSegmentModel>|
                        dec_segments(
                            p0@.subrange(pos as int + size as int, n0 as int),
                            (count - i - 1) as nat,
                        ) == Some(rest2) implies dec_segments(p0@, count as nat) == Some(
                        seg_views(segs@.push(s)) + rest2,
                    ) by {
                        assert(dec_segments(t, (count - i) as nat) == Some(seq![s@] + rest2));
                        assert(seg_views(segs@.push(s)) =~= old_views.push(s@));
                        assert(old_views + (seq![s@] + rest2) =~= old_views.push(s@) + rest2);
                    }
                    assert(dec_segments(
                        p0@.subrange(pos as int + size as int, n0 as int),
                        (count - i - 1) as nat,
                    ) is None ==> dec_segments(p0@, count as nat) is None);
                }
                segs.push(s);
            },
            None => {
                return Err(FrameError::Framing);
            },
        }
        pos = pos + size;
        i = i + 1;
    }
    if pos != n0 {
        return Err(FrameError::Framing);
    }
    proof {
        assert(p0@.subrange(pos as int, n0 as int) =~= Seq::<u8>::empty());
        assert(dec_segments(p0@.subrange(pos as int, n0 as int), 0) == Some(
            Seq::<PacketSegmentModel>::empty(),
        ));
        assert(seg_views(segs@) + Seq::<PacketSegmentModel>::empty() =~= seg_views(segs@));
    }
    Ok((header, segs))
}

} // verus!
