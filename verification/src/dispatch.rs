//! The command dispatch layer: maps a decoded command envelope's 16-bit
//! operation code to a typed client command, per channel. Each channel has
//! its own closed opcode space; an opcode absent from the active channel's
//! table decodes to an explicit unrecognized variant, which the session
//! drops without failing the connection. Keep-alive segments never reach
//! this layer: the frame codec types them, and the engine mirrors a
//! response on receipt of a request on every channel.

use vstd::prelude::*;

use crate::bytes::{u32_from_le};
use crate::common::{ObjectId, ObjectTypeId};
use crate::connection::ActionRequest;
use crate::frame::IpcEnvelope;
use crate::social_list::{dec_social_list_request, SocialListRequest};

verus! {

/// The zone channel's opcode for an action request.
pub const OP_CLIENT_ACTION_REQUEST: u16 = 0x0201;

/// The zone channel's opcode for a social list request.
pub const OP_CLIENT_SOCIAL_LIST_REQUEST: u16 = 0x0202;

/// A decoded zone-channel client command; a tag outside the channel's
/// table, or a body that does not fit its tag's layout, is an explicit
/// unrecognized command that the session logs and ignores.
#[derive(Debug, Clone, Copy, PartialEq, Eq, Structural)]
pub enum ClientZoneIpcData {
    ActionRequest(ActionRequest),
    SocialListRequest(SocialListRequest),
    Unrecognized { op_code: u16 },
}

/// A decoded chat-channel client command; this build handles no chat
/// command yet, so every opcode is unrecognized and skipped.
#[derive(Debug, Clone, Copy, PartialEq, Eq, Structural)]
pub enum ClientChatIpcData {
    Unrecognized { op_code: u16 },
}

/// The decoding of an action request body: the action key, then the
/// target reference.
pub open spec fn dec_action_request(b: Seq<u8>) -> Option<ActionRequest> {
    if b.len() != 12 {
        None
    } else {
        Some(
            ActionRequest {
                action_key: u32_from_le(b.subrange(0, 4)),
                target: ObjectTypeId {
                    object_id: ObjectId(u32_from_le(b.subrange(4, 8))),
                    object_type: b[8],
                },
            },
        )
    }
}

/// The zone channel's dispatch table as a function of the opcode and body.
pub open spec fn dispatch_zone_spec(op_code: u16, body: Seq<u8>) -> ClientZoneIpcData {
    if op_code == OP_CLIENT_ACTION_REQUEST {
        match dec_action_request(body) {
            Some(r) => ClientZoneIpcData::ActionRequest(r),
            None => ClientZoneIpcData::Unrecognized { op_code },
        }
    } else if op_code == OP_CLIENT_SOCIAL_LIST_REQUEST {
        match dec_social_list_request(body) {
            Some(r) => ClientZoneIpcData::SocialListRequest(r),
            None => ClientZoneIpcData::Unrecognized { op_code },
        }
    } else {
        ClientZoneIpcData::Unrecognized { op_code }
    }
}

/// Dispatches one zone-channel command envelope.
pub fn dispatch_zone(envelope: &IpcEnvelope) -> (r: ClientZoneIpcData)
    ensures
        r == dispatch_zone_spec(envelope.op_code, envelope.payload@),
{
    if envelope.op_code == OP_CLIENT_ACTION_REQUEST {
        if envelope.payload.len() != 12 {
            ClientZoneIpcData::Unrecognized { op_code: envelope.op_code }
        } else {
            let action_key = crate::bytes::get_u32(&envelope.payload, 0);
            let target_id = crate::bytes::get_u32(&envelope.payload, 4);
            let object_type = crate::bytes::get_u8(&envelope.payload, 8);
            proof {
                assert(envelope.payload@.subrange(0, 4) =~= envelope.payload@.subrange(
                    0int,
                    0int + 4,
                ));
                assert(envelope.payload@.subrange(4, 8) =~= envelope.payload@.subrange(
                    4int,
                    4int + 4,
                ));
            }
            ClientZoneIpcData::ActionRequest(
                ActionRequest {
                    action_key,
                    target: ObjectTypeId { object_id: ObjectId(target_id), object_type },
                },
            )
        }
    } else if envelope.op_code == OP_CLIENT_SOCIAL_LIST_REQUEST {
        match crate::social_list::decode_social_list_request(&envelope.payload) {
            Some(r) => ClientZoneIpcData::SocialListRequest(r),
            None => ClientZoneIpcData::Unrecognized { op_code: envelope.op_code },
        }
    } else {
        ClientZoneIpcData::Unrecognized { op_code: envelope.op_code }
    }
}

/// Dispatches one chat-channel command envelope.
pub fn dispatch_chat(envelope: &IpcEnvelope) -> (r: ClientChatIpcData)
    ensures
        r == (ClientChatIpcData::Unrecognized { op_code: envelope.op_code }),
{
    ClientChatIpcData::Unrecognized { op_code: envelope.op_code }
}

} // verus!
