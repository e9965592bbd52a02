//! The social-list exchange: the client's request for its party or friend
//! list, and the reply carrying up to ten player entries in a fixed
//! 112-byte layout each.

use vstd::prelude::*;

use crate::bytes::{put_u16, put_u64, put_u8, put_zeros, u16_le, u64_le, zeros};
use crate::ipc::{enc_list, enc_str_fixed, pad_trunc, put_byte_array, put_str_fixed};

verus! {

/// Number of bytes of one encoded player entry.
pub const PLAYER_ENTRY_SIZE: usize = 112;

/// Largest number of entries one social list reply carries.
pub const SOCIAL_LIST_CAP: usize = 10;

/// Which list the client asks for.
#[derive(Debug, Clone, Copy, PartialEq, Eq, Structural)]
pub enum SocialListRequestType {
    Party,
    Friends,
}

/// The wire tag of a request type.
pub open spec fn social_request_tag(t: SocialListRequestType) -> u8 {
    match t {
        SocialListRequestType::Party => 1,
        SocialListRequestType::Friends => 2,
    }
}

/// The client's request for one page of a social list.
#[derive(Debug, Clone, Copy, PartialEq, Eq, Structural)]
pub struct SocialListRequest {
    pub request_type: SocialListRequestType,
    pub count: u8,
}

/// One entry of a social list reply.
#[derive(Debug, Clone, PartialEq)]
pub struct PlayerEntry {
    pub content_id: u64,
    pub unk: [u8; 16],
    pub zone_id: u16,
    pub zone_id1: u16,
    pub unk2: [u8; 8],
    pub online_status_mask: u64,
    pub unk3: [u8; 22],
    pub world_id: u16,
    pub name: String,
    pub fc_tag: String,
}

/// A social list reply: up to ten entries for one request sequence.
#[derive(Debug, Clone, PartialEq)]
pub struct SocialList {
    pub request_type: SocialListRequestType,
    pub sequence: u8,
    pub entries: Vec<PlayerEntry>,
}

/// The 112-byte encoding of one player entry: identity, zone, status and
/// world, then the fixed-size name and free-company fields.
pub open spec fn enc_player_entry(e: PlayerEntry) -> Seq<u8> {
    u64_le(e.content_id) + e.unk@ + u16_le(e.zone_id) + u16_le(e.zone_id1) + e.unk2@ + u64_le(
        e.online_status_mask,
    ) + e.unk3@ + u16_le(e.world_id) + enc_str_fixed(e.name@, 32) + enc_str_fixed(e.fc_tag@, 6)
        + zeros(6)
}

/// The encoding of a whole social list reply: the fixed prefix, then the
/// entries zero-padded to the ten-entry block.
pub open spec fn enc_social_list(l: SocialList) -> Seq<u8> {
    zeros(12) + seq![social_request_tag(l.request_type), l.sequence] + zeros(2) + pad_trunc(
        enc_list(l.entries@, (|e: PlayerEntry| enc_player_entry(e))),
        (SOCIAL_LIST_CAP * PLAYER_ENTRY_SIZE) as nat,
    )
}

/// The decoding of a social list request; `None` on a wrong length or an
/// unknown request tag.
pub open spec fn dec_social_list_request(b: Seq<u8>) -> Option<SocialListRequest> {
    if b.len() != 16 {
        None
    } else if b[10] == 1 {
        Some(SocialListRequest { request_type: SocialListRequestType::Party, count: b[11] })
    } else if b[10] == 2 {
        Some(SocialListRequest { request_type: SocialListRequestType::Friends, count: b[11] })
    } else {
        None
    }
}

/// The 16-byte encoding of a social list request.
pub open spec fn enc_social_list_request(r: SocialListRequest) -> Seq<u8> {
    zeros(10) + seq![social_request_tag(r.request_type), r.count] + zeros(4)
}

/// Encodes one player entry.
pub fn encode_player_entry(e: &PlayerEntry) -> (r: Vec<u8>)
    ensures
        r@ == enc_player_entry(*e),
        r@.len() == PLAYER_ENTRY_SIZE,
{
    let mut out: Vec<u8> = Vec::new();
    put_u64(&mut out, e.content_id);
    put_byte_array(&mut out, &e.unk);
    put_u16(&mut out, e.zone_id);
    put_u16(&mut out, e.zone_id1);
    put_byte_array(&mut out, &e.unk2);
    put_u64(&mut out, e.online_status_mask);
    put_byte_array(&mut out, &e.unk3);
    put_u16(&mut out, e.world_id);
    put_str_fixed(&mut out, e.name.as_str(), 32);
    put_str_fixed(&mut out, e.fc_tag.as_str(), 6);
    put_zeros(&mut out, 6);
    assert(out@ =~= enc_player_entry(*e));
    out
}

/// Encodes a whole social list reply.
pub fn encode_social_list(l: &SocialList) -> (r: Vec<u8>)
    requires
        l.entries@.len() <= SOCIAL_LIST_CAP,
    ensures
        r@ == enc_social_list(*l),
{
    let ghost f = (|e: PlayerEntry| enc_player_entry(e));
    let mut out: Vec<u8> = Vec::new();
    put_zeros(&mut out, 12);
    put_u8(
        &mut out,
        match l.request_type {
            SocialListRequestType::Party => 1,
            SocialListRequestType::Friends => 2,
        },
    );
    put_u8(&mut out, l.sequence);
    put_zeros(&mut out, 2);
    let ghost header_len = out@.len();
    let n = l.entries.len();
    let mut body: Vec<u8> = Vec::new();
    let mut i: usize = 0;
    proof {
        assert(l.entries@.subrange(0, 0) =~= Seq::<PlayerEntry>::empty());
    }
    while i < n
        invariant
            i <= n,
            n == l.entries@.len(),
            f == (|e: PlayerEntry| enc_player_entry(e)),
            body@ == enc_list(l.entries@.subrange(0, i as int), f),
            body@.len() == i * PLAYER_ENTRY_SIZE,
        decreases n - i,
    {
        let entry = encode_player_entry(&l.entries[i]);
        let ghost before = body@;
        crate::bytes::put_bytes(&mut body, &entry);
        proof {
            crate::ipc::lemma_enc_list_snoc(
                l.entries@.subrange(0, i as int),
                l.entries@[i as int],
                f,
            );
            assert(l.entries@.subrange(0, i as int).push(l.entries@[i as int]) =~= l.entries@.subrange(
                0,
                i as int + 1,
            ));
        }
        i = i + 1;
    }
    proof {
        assert(l.entries@.subrange(0, n as int) =~= l.entries@);
    }
    let mut j: usize = body.len();
    let total = SOCIAL_LIST_CAP * PLAYER_ENTRY_SIZE;
    let ghost full = pad_trunc(
        enc_list(l.entries@, f),
        (SOCIAL_LIST_CAP * PLAYER_ENTRY_SIZE) as nat,
    );
    proof {
        assert(body@ =~= full.subrange(0, body@.len() as int));
    }
    while j < total
        invariant
            body@.len() == j,
            j <= total,
            total == SOCIAL_LIST_CAP * PLAYER_ENTRY_SIZE,
            full == pad_trunc(
                enc_list(l.entries@, f),
                (SOCIAL_LIST_CAP * PLAYER_ENTRY_SIZE) as nat,
            ),
            enc_list(l.entries@, f).len() <= j,
            body@ == full.subrange(0, j as int),
        decreases total - j,
    {
        body.push(0);
        proof {
            assert(body@ =~= full.subrange(0, j as int + 1));
        }
        j = j + 1;
    }
    proof {
        assert(full.subrange(0, total as int) =~= full);
    }
    crate::bytes::put_bytes(&mut out, &body);
    assert(out@ =~= enc_social_list(*l));
    out
}

/// Decodes a social list request from a command body.
pub fn decode_social_list_request(b: &Vec<u8>) -> (r: Option<SocialListRequest>)
    ensures
        r == dec_social_list_request(b@),
{
    if b.len() != 16 {
        return None;
    }
    let tag = b[10];
    let count = b[11];
    if tag == 1 {
        Some(SocialListRequest { request_type: SocialListRequestType::Party, count })
    } else if tag == 2 {
        Some(SocialListRequest { request_type: SocialListRequestType::Friends, count })
    } else {
        None
    }
}

/// Round trip: decoding an encoded request returns it.
pub proof fn lemma_social_list_request_round_trip(r: SocialListRequest)
    ensures
        dec_social_list_request(enc_social_list_request(r)) == Some(r),
{
    let b = enc_social_list_request(r);
    assert(b.len() == 16);
    assert(b[10] == social_request_tag(r.request_type));
    assert(b[11] == r.count);
}

} // verus!
