//! Typed, whitelisted wire protocol between the application and its input helper: a fixed
//! little-endian header followed by a bounded payload. Only the message kinds of [`Message`]
//! exist and decoding rejects every other frame.

use vstd::prelude::*;

use crate::action::MouseButton;
use crate::bytes::{
    lemma_i32_bits_round_trip, lemma_u16_bytes_round_trip, lemma_u16_value_round_trip,
    lemma_u32_bytes_round_trip, lemma_u32_value_round_trip,
    le_bytes_u16, le_bytes_u32, push_u16_le, push_u32_le, read_u16_le, read_u32_le, u16_from_le,
    u32_from_le,
};

verus! {

/// Wire magic, the ASCII bytes `"NFIP"`.
pub const PROTOCOL_MAGIC: u32 = 0x4E46_4950;

/// Wire protocol version; frames with any other version are rejected.
pub const PROTOCOL_VERSION: u16 = 1;

/// Fixed header length: magic (4) + version (2) + message id (2) + payload length (2).
pub const HEADER_LEN: usize = 10;

/// Upper bound of any payload. The largest message needs 8 bytes.
pub const MAX_PAYLOAD_LEN: usize = 16;

/// Message id of the helper's acknowledgement.
pub const ACK_MESSAGE_ID: u16 = 10;

/// Why a helper refused or could not complete a request.
#[derive(Debug, Clone, Copy, PartialEq, Eq, Structural)]
pub enum RejectReason {
    /// The request was accepted; there is no rejection.
    Accepted,
    /// The frame was valid but its message kind is not part of the whitelist.
    UnknownCommand,
    /// The frame carried a different protocol version.
    ProtocolVersion,
    /// The payload length or content did not match the message kind.
    InvalidPayload,
    /// The pointer sequence was not accepted completely.
    InjectionFailed,
    /// The helper is connected but has not accepted an owner yet.
    NotReady,
}

/// The wire code of a rejection reason.
pub open spec fn reject_code(reason: RejectReason) -> u8 {
    match reason {
        RejectReason::Accepted => 0,
        RejectReason::UnknownCommand => 1,
        RejectReason::ProtocolVersion => 2,
        RejectReason::InvalidPayload => 3,
        RejectReason::InjectionFailed => 4,
        RejectReason::NotReady => 5,
    }
}

/// The rejection reason of a wire code, if the code is assigned.
pub open spec fn reject_from_code(code: u8) -> Option<RejectReason> {
    if code == 0 {
        Some(RejectReason::Accepted)
    } else if code == 1 {
        Some(RejectReason::UnknownCommand)
    } else if code == 2 {
        Some(RejectReason::ProtocolVersion)
    } else if code == 3 {
        Some(RejectReason::InvalidPayload)
    } else if code == 4 {
        Some(RejectReason::InjectionFailed)
    } else if code == 5 {
        Some(RejectReason::NotReady)
    } else {
        None
    }
}

impl RejectReason {
    /// Returns the wire code of this reason.
    pub fn code(self) -> (code: u8)
        ensures
            code == reject_code(self),
    {
        match self {
            RejectReason::Accepted => 0,
            RejectReason::UnknownCommand => 1,
            RejectReason::ProtocolVersion => 2,
            RejectReason::InvalidPayload => 3,
            RejectReason::InjectionFailed => 4,
            RejectReason::NotReady => 5,
        }
    }

    /// Returns the reason of a wire code; codes above 5 are not assigned.
    pub fn from_code(code: u8) -> (reason: Option<RejectReason>)
        ensures
            reason == reject_from_code(code),
            reason is Some <==> code <= 5,
    {
        match code {
            0 => Some(RejectReason::Accepted),
            1 => Some(RejectReason::UnknownCommand),
            2 => Some(RejectReason::ProtocolVersion),
            3 => Some(RejectReason::InvalidPayload),
            4 => Some(RejectReason::InjectionFailed),
            5 => Some(RejectReason::NotReady),
            _ => None,
        }
    }
}

/// Mouse button action of a [`Message::PointerButton`] request.
#[derive(Debug, Clone, Copy, PartialEq, Eq, Structural)]
pub enum ButtonAction {
    /// Press the button and keep it held.
    Down,
    /// Release a button previously pressed.
    Up,
}

/// The wire code of a button action.
pub open spec fn button_action_code(action: ButtonAction) -> u8 {
    match action {
        ButtonAction::Down => 0,
        ButtonAction::Up => 1,
    }
}

/// The button action of a wire code, if the code is assigned.
pub open spec fn button_action_from_code(code: u8) -> Option<ButtonAction> {
    if code == 0 {
        Some(ButtonAction::Down)
    } else if code == 1 {
        Some(ButtonAction::Up)
    } else {
        None
    }
}

impl ButtonAction {
    /// Returns the wire code of this action.
    pub fn code(self) -> (code: u8)
        ensures
            code == button_action_code(self),
    {
        match self {
            ButtonAction::Down => 0,
            ButtonAction::Up => 1,
        }
    }

    /// Returns the action of a wire code; only 0 and 1 are assigned.
    pub fn from_code(code: u8) -> (action: Option<ButtonAction>)
        ensures
            action == button_action_from_code(code),
            action is Some <==> code <= 1,
    {
        match code {
            0 => Some(ButtonAction::Down),
            1 => Some(ButtonAction::Up),
            _ => None,
        }
    }
}

/// One protocol message in either direction.
#[derive(Debug, Clone, Copy, PartialEq, Eq, Structural)]
pub enum Message {
    /// Application to helper: request ownership and identify the calling process.
    Handshake { client_pid: u32 },
    /// Helper to application: ownership accepted, with the helper's actual UIAccess state.
    HandshakeAccepted { server_pid: u32, ui_access: bool },
    /// Application to helper: liveness probe.
    Ping { nonce: u32 },
    /// Application to helper: move the pointer by a relative desktop delta.
    PointerMove { dx: i32, dy: i32 },
    /// Application to helper: press or release a mouse button.
    PointerButton { button: MouseButton, action: ButtonAction },
    /// Application to helper: emit one complete click.
    Click { button: MouseButton },
    /// Application to helper: emit two complete clicks.
    DoubleClick { button: MouseButton },
    /// Application to helper: release every mouse button the helper injected.
    ReleaseAll,
    /// Application to helper: release injected state and exit.
    Shutdown,
    /// Helper to application: acknowledgement; `detail` matters only when not accepted.
    Ack { accepted: bool, detail: RejectReason },
}

/// A protocol-level rejection of a frame.
#[derive(Debug, Clone, Copy, PartialEq, Eq, Structural)]
pub enum ProtocolError {
    /// The frame magic did not match [`PROTOCOL_MAGIC`].
    BadMagic,
    /// The frame used a different [`PROTOCOL_VERSION`].
    BadVersion,
    /// The message id is not part of the whitelist.
    UnknownCommand,
    /// The payload length did not match the message kind.
    BadPayloadLength,
    /// A payload field carried a value outside its whitelisted range.
    InvalidPayload,
    /// A header announced more payload than [`MAX_PAYLOAD_LEN`].
    OversizePayload,
}

/// The message id of each message kind.
pub open spec fn message_id_of(message: Message) -> u16 {
    match message {
        Message::Handshake { .. } => 1,
        Message::Ping { .. } => 2,
        Message::PointerMove { .. } => 3,
        Message::PointerButton { .. } => 4,
        Message::Click { .. } => 5,
        Message::DoubleClick { .. } => 6,
        Message::ReleaseAll => 7,
        Message::Shutdown => 8,
        Message::HandshakeAccepted { .. } => 9,
        Message::Ack { .. } => 10,
    }
}

/// The payload length that each message id requires, for the ids of the whitelist.
pub open spec fn expected_len_of(message_id: u16) -> Option<nat> {
    if message_id == 1 || message_id == 2 {
        Some(4)
    } else if message_id == 3 {
        Some(8)
    } else if message_id == 4 || message_id == 10 {
        Some(2)
    } else if message_id == 5 || message_id == 6 {
        Some(1)
    } else if message_id == 7 || message_id == 8 {
        Some(0)
    } else if message_id == 9 {
        Some(6)
    } else {
        None
    }
}

/// The wire code of a mouse button.
pub open spec fn mouse_button_code(button: MouseButton) -> u8 {
    match button {
        MouseButton::Left => 0,
        MouseButton::Right => 1,
        MouseButton::Middle => 2,
    }
}

/// The mouse button of a wire code, if the code is assigned.
pub open spec fn mouse_button_from_code(code: u8) -> Option<MouseButton> {
    if code == 0 {
        Some(MouseButton::Left)
    } else if code == 1 {
        Some(MouseButton::Right)
    } else if code == 2 {
        Some(MouseButton::Middle)
    } else {
        None
    }
}

/// The wire byte of a flag.
pub open spec fn flag_byte(flag: bool) -> u8 {
    if flag {
        1
    } else {
        0
    }
}

/// The flag of a wire byte: only 0 and 1 are flags.
pub open spec fn flag_from_byte(byte: u8) -> Option<bool> {
    if byte == 0 {
        Some(false)
    } else if byte == 1 {
        Some(true)
    } else {
        None
    }
}

/// The payload bytes of a message.
pub open spec fn payload_bytes(message: Message) -> Seq<u8> {
    match message {
        Message::Handshake { client_pid } => le_bytes_u32(client_pid),
        Message::HandshakeAccepted { server_pid, ui_access } => le_bytes_u32(server_pid) + seq![
            flag_byte(ui_access),
            0u8,
        ],
        Message::Ping { nonce } => le_bytes_u32(nonce),
        Message::PointerMove { dx, dy } => le_bytes_u32(dx as u32) + le_bytes_u32(dy as u32),
        Message::PointerButton { button, action } => seq![
            mouse_button_code(button),
            button_action_code(action),
        ],
        Message::Click { button } => seq![mouse_button_code(button)],
        Message::DoubleClick { button } => seq![mouse_button_code(button)],
        Message::ReleaseAll => Seq::empty(),
        Message::Shutdown => Seq::empty(),
        Message::Ack { accepted, detail } => seq![flag_byte(accepted), reject_code(detail)],
    }
}

/// The complete frame of a message: header, then payload.
pub open spec fn frame_bytes(message: Message) -> Seq<u8> {
    le_bytes_u32(PROTOCOL_MAGIC) + le_bytes_u16(PROTOCOL_VERSION) + le_bytes_u16(
        message_id_of(message),
    ) + le_bytes_u16(payload_bytes(message).len() as u16) + payload_bytes(message)
}

/// A message whose frame decodes to itself: an acknowledgement is accepted exactly when it
/// carries no rejection reason.
pub open spec fn is_consistent(message: Message) -> bool {
    message matches Message::Ack { accepted, detail } ==> accepted == (detail
        == RejectReason::Accepted)
}

/// The 32-bit value at an offset of a byte sequence.
pub open spec fn u32_at(bytes: Seq<u8>, offset: int) -> u32 {
    u32_from_le(bytes[offset], bytes[offset + 1], bytes[offset + 2], bytes[offset + 3])
}

/// The message that a payload of the required length decodes to, or why it is rejected.
pub open spec fn decode_payload_spec(message_id: u16, payload: Seq<u8>) -> Result<Message, ProtocolError> {
    if message_id == 1 {
        Ok(Message::Handshake { client_pid: u32_at(payload, 0) })
    } else if message_id == 2 {
        Ok(Message::Ping { nonce: u32_at(payload, 0) })
    } else if message_id == 3 {
        Ok(Message::PointerMove { dx: u32_at(payload, 0) as i32, dy: u32_at(payload, 4) as i32 })
    } else if message_id == 4 {
        match (mouse_button_from_code(payload[0]), button_action_from_code(payload[1])) {
            (Some(button), Some(action)) => Ok(Message::PointerButton { button, action }),
            _ => Err(ProtocolError::InvalidPayload),
        }
    } else if message_id == 5 || message_id == 6 {
        match mouse_button_from_code(payload[0]) {
            Some(button) => if message_id == 5 {
                Ok(Message::Click { button })
            } else {
                Ok(Message::DoubleClick { button })
            },
            None => Err(ProtocolError::InvalidPayload),
        }
    } else if message_id == 7 {
        Ok(Message::ReleaseAll)
    } else if message_id == 8 {
        Ok(Message::Shutdown)
    } else if message_id == 9 {
        match flag_from_byte(payload[4]) {
            Some(ui_access) => if payload[5] == 0 {
                Ok(Message::HandshakeAccepted { server_pid: u32_at(payload, 0), ui_access })
            } else {
                Err(ProtocolError::InvalidPayload)
            },
            None => Err(ProtocolError::InvalidPayload),
        }
    } else if message_id == 10 {
        match (flag_from_byte(payload[0]), reject_from_code(payload[1])) {
            (Some(accepted), Some(detail)) => if accepted == (detail == RejectReason::Accepted) {
                Ok(Message::Ack { accepted, detail })
            } else {
                Err(ProtocolError::InvalidPayload)
            },
            _ => Err(ProtocolError::InvalidPayload),
        }
    } else {
        Err(ProtocolError::UnknownCommand)
    }
}

/// The message that a header and a payload decode to, or why they are rejected. The checks
/// come in this order: header length, magic, version, payload bound, message id, payload
/// length, payload content.
pub open spec fn decode_spec(header: Seq<u8>, payload: Seq<u8>) -> Result<Message, ProtocolError> {
    if header.len() != HEADER_LEN {
        Err(ProtocolError::BadPayloadLength)
    } else if u32_at(header, 0) != PROTOCOL_MAGIC {
        Err(ProtocolError::BadMagic)
    } else if u16_from_le(header[4], header[5]) != PROTOCOL_VERSION {
        Err(ProtocolError::BadVersion)
    } else if u16_from_le(header[8], header[9]) > MAX_PAYLOAD_LEN {
        Err(ProtocolError::OversizePayload)
    } else {
        let message_id = u16_from_le(header[6], header[7]);
        match expected_len_of(message_id) {
            None => Err(ProtocolError::UnknownCommand),
            Some(expected) => if u16_from_le(header[8], header[9]) != expected || payload.len()
                != expected {
                Err(ProtocolError::BadPayloadLength)
            } else {
                decode_payload_spec(message_id, payload)
            },
        }
    }
}

proof fn lemma_u32_at_le_bytes(bytes: Seq<u8>, offset: int, x: u32)
    requires
        0 <= offset,
        offset + 4 <= bytes.len(),
        bytes.subrange(offset, offset + 4) == le_bytes_u32(x),
    ensures
        u32_at(bytes, offset) == x,
{
    assert(bytes[offset] == bytes.subrange(offset, offset + 4)[0]);
    assert(bytes[offset + 1] == bytes.subrange(offset, offset + 4)[1]);
    assert(bytes[offset + 2] == bytes.subrange(offset, offset + 4)[2]);
    assert(bytes[offset + 3] == bytes.subrange(offset, offset + 4)[3]);
    lemma_u32_bytes_round_trip(x);
}

/// Every consistent message survives encoding and decoding unchanged: the frame's header and
/// payload decode to the message that was encoded.
pub proof fn lemma_decode_encode_round_trip(message: Message)
    requires
        is_consistent(message),
    ensures
        frame_bytes(message).len() == HEADER_LEN + payload_bytes(message).len(),
        payload_bytes(message).len() <= MAX_PAYLOAD_LEN,
        decode_spec(
            frame_bytes(message).take(HEADER_LEN as int),
            frame_bytes(message).skip(HEADER_LEN as int),
        ) == Ok::<Message, ProtocolError>(message),
{
    let frame = frame_bytes(message);
    let payload = payload_bytes(message);
    let header = frame.take(HEADER_LEN as int);
    let id = message_id_of(message);
    let len = payload.len() as u16;
    assert(header =~= le_bytes_u32(PROTOCOL_MAGIC) + le_bytes_u16(PROTOCOL_VERSION) + le_bytes_u16(id)
        + le_bytes_u16(len));
    assert(frame.skip(HEADER_LEN as int) =~= payload);
    assert(header.subrange(0, 4) =~= le_bytes_u32(PROTOCOL_MAGIC));
    lemma_u32_at_le_bytes(header, 0, PROTOCOL_MAGIC);
    lemma_u16_bytes_round_trip(PROTOCOL_VERSION);
    lemma_u16_bytes_round_trip(id);
    lemma_u16_bytes_round_trip(len);
    match message {
        Message::Handshake { client_pid } => {
            assert(payload.subrange(0, 4) =~= le_bytes_u32(client_pid));
            lemma_u32_at_le_bytes(payload, 0, client_pid);
        },
        Message::Ping { nonce } => {
            assert(payload.subrange(0, 4) =~= le_bytes_u32(nonce));
            lemma_u32_at_le_bytes(payload, 0, nonce);
        },
        Message::HandshakeAccepted { server_pid, ui_access } => {
            assert(payload.subrange(0, 4) =~= le_bytes_u32(server_pid));
            lemma_u32_at_le_bytes(payload, 0, server_pid);
        },
        Message::PointerMove { dx, dy } => {
            assert(payload.subrange(0, 4) =~= le_bytes_u32(dx as u32));
            assert(payload.subrange(4, 8) =~= le_bytes_u32(dy as u32));
            lemma_u32_at_le_bytes(payload, 0, dx as u32);
            lemma_u32_at_le_bytes(payload, 4, dy as u32);
            lemma_i32_bits_round_trip(dx, 0);
            lemma_i32_bits_round_trip(dy, 0);
        },
        _ => {},
    }
}

/// Decoding accepts only canonical frames: whatever a header and a payload decode to, they are
/// exactly that message's frame, and that message is consistent.
pub proof fn lemma_decode_accepts_only_canonical_frames(header: Seq<u8>, payload: Seq<u8>)
    requires
        decode_spec(header, payload) is Ok,
    ensures
        header + payload == frame_bytes(decode_spec(header, payload)->Ok_0),
        is_consistent(decode_spec(header, payload)->Ok_0),
{
    let message = decode_spec(header, payload)->Ok_0;
    let id = u16_from_le(header[6], header[7]);
    let len = u16_from_le(header[8], header[9]);
    lemma_u32_value_round_trip(header[0], header[1], header[2], header[3]);
    lemma_u16_value_round_trip(header[4], header[5]);
    lemma_u16_value_round_trip(header[6], header[7]);
    lemma_u16_value_round_trip(header[8], header[9]);
    assert(message_id_of(message) == id);
    if id == 1 || id == 2 || id == 9 {
        lemma_u32_value_round_trip(payload[0], payload[1], payload[2], payload[3]);
    }
    if id == 3 {
        lemma_u32_value_round_trip(payload[0], payload[1], payload[2], payload[3]);
        lemma_u32_value_round_trip(payload[4], payload[5], payload[6], payload[7]);
        lemma_i32_bits_round_trip(0, u32_at(payload, 0));
        lemma_i32_bits_round_trip(0, u32_at(payload, 4));
    }
    assert(payload =~= payload_bytes(message));
    assert(payload_bytes(message).len() as u16 == len);
    assert(header =~= le_bytes_u32(PROTOCOL_MAGIC) + le_bytes_u16(PROTOCOL_VERSION) + le_bytes_u16(
        message_id_of(message),
    ) + le_bytes_u16(payload_bytes(message).len() as u16));
    assert(header + payload =~= frame_bytes(message));
}

impl Message {
    /// Returns the message id of this message's kind.
    pub fn message_id(self) -> (id: u16)
        ensures
            id == message_id_of(self),
    {
        match self {
            Message::Handshake { .. } => 1,
            Message::Ping { .. } => 2,
            Message::PointerMove { .. } => 3,
            Message::PointerButton { .. } => 4,
            Message::Click { .. } => 5,
            Message::DoubleClick { .. } => 6,
            Message::ReleaseAll => 7,
            Message::Shutdown => 8,
            Message::HandshakeAccepted { .. } => 9,
            Message::Ack { .. } => ACK_MESSAGE_ID,
        }
    }

    /// Returns the payload length of this message's kind.
    pub fn payload_len(self) -> (len: usize)
        ensures
            len == payload_bytes(self).len(),
            expected_len_of(message_id_of(self)) == Some(len as nat),
            len <= MAX_PAYLOAD_LEN,
    {
        match self {
            Message::Handshake { .. } | Message::Ping { .. } => 4,
            Message::PointerMove { .. } => 8,
            Message::PointerButton { .. } | Message::Ack { .. } => 2,
            Message::Click { .. } | Message::DoubleClick { .. } => 1,
            Message::HandshakeAccepted { .. } => 6,
            Message::ReleaseAll | Message::Shutdown => 0,
        }
    }

    /// Encodes the message into a complete frame: header, then payload.
    pub fn encode(self) -> (frame: Vec<u8>)
        ensures
            frame@ == frame_bytes(self),
            frame@.len() == HEADER_LEN + payload_bytes(self).len(),
    {
        let mut frame: Vec<u8> = Vec::new();
        push_u32_le(&mut frame, PROTOCOL_MAGIC);
        push_u16_le(&mut frame, PROTOCOL_VERSION);
        push_u16_le(&mut frame, self.message_id());
        let len = self.payload_len();
        push_u16_le(&mut frame, len as u16);
        let ghost header = frame@;
        self.append_payload(&mut frame);
        proof {
            assert(frame@ =~= frame_bytes(self));
        }
        frame
    }

    fn append_payload(self, frame: &mut Vec<u8>)
        ensures
            final(frame)@ == old(frame)@ + payload_bytes(self),
    {
        match self {
            Message::Handshake { client_pid } => push_u32_le(frame, client_pid),
            Message::HandshakeAccepted { server_pid, ui_access } => {
                push_u32_le(frame, server_pid);
                frame.push(if ui_access {
                    1
                } else {
                    0
                });
                frame.push(0);
            },
            Message::Ping { nonce } => push_u32_le(frame, nonce),
            Message::PointerMove { dx, dy } => {
                push_u32_le(frame, dx as u32);
                push_u32_le(frame, dy as u32);
            },
            Message::PointerButton { button, action } => {
                frame.push(button_code(button));
                frame.push(action.code());
            },
            Message::Click { button } | Message::DoubleClick { button } => {
                frame.push(button_code(button));
            },
            Message::ReleaseAll | Message::Shutdown => {},
            Message::Ack { accepted, detail } => {
                frame.push(if accepted {
                    1
                } else {
                    0
                });
                frame.push(detail.code());
            },
        }
        assert(frame@ =~= old(frame)@ + payload_bytes(self));
    }

    /// Decodes a complete frame, given as its header and its payload, into a message.
    pub fn decode(header: &[u8], payload: &[u8]) -> (result: Result<Message, ProtocolError>)
        ensures
            result == decode_spec(header@, payload@),
    {
        if header.len() != HEADER_LEN {
            return Err(ProtocolError::BadPayloadLength);
        }
        let magic = read_u32_le(header[0], header[1], header[2], header[3]);
        if magic != PROTOCOL_MAGIC {
            return Err(ProtocolError::BadMagic);
        }
        let version = read_u16_le(header[4], header[5]);
        if version != PROTOCOL_VERSION {
            return Err(ProtocolError::BadVersion);
        }
        let message_id = read_u16_le(header[6], header[7]);
        let payload_len = read_u16_le(header[8], header[9]) as usize;
        if payload_len > MAX_PAYLOAD_LEN {
            return Err(ProtocolError::OversizePayload);
        }
        let expected = match expected_payload_len(message_id) {
            Some(expected) => expected,
            None => return Err(ProtocolError::UnknownCommand),
        };
        if payload_len != expected || payload.len() != expected {
            return Err(ProtocolError::BadPayloadLength);
        }
        decode_payload(message_id, payload)
    }
}

/// Returns the payload length that a message id requires, for the ids of the whitelist.
pub fn expected_payload_len(message_id: u16) -> (expected: Option<usize>)
    ensures
        match expected {
            Some(len) => expected_len_of(message_id) == Some(len as nat),
            None => expected_len_of(message_id) is None,
        },
{
    match message_id {
        1 | 2 => Some(4),
        3 => Some(8),
        4 | 10 => Some(2),
        5 | 6 => Some(1),
        7 | 8 => Some(0),
        9 => Some(6),
        _ => None,
    }
}

fn decode_payload(message_id: u16, payload: &[u8]) -> (result: Result<Message, ProtocolError>)
    requires
        expected_len_of(message_id) == Some(payload@.len()),
    ensures
        result == decode_payload_spec(message_id, payload@),
{
    match message_id {
        1 => Ok(Message::Handshake { client_pid: read_u32(payload)? }),
        2 => Ok(Message::Ping { nonce: read_u32(payload)? }),
        3 => Ok(Message::PointerMove { dx: read_i32(payload, 0)?, dy: read_i32(payload, 4)? }),
        4 => {
            let button = button_from_code(payload[0])?;
            let action = match ButtonAction::from_code(payload[1]) {
                Some(action) => action,
                None => return Err(ProtocolError::InvalidPayload),
            };
            Ok(Message::PointerButton { button, action })
        },
        5 | 6 => {
            let button = button_from_code(payload[0])?;
            if message_id == 5 {
                Ok(Message::Click { button })
            } else {
                Ok(Message::DoubleClick { button })
            }
        },
        7 => Ok(Message::ReleaseAll),
        8 => Ok(Message::Shutdown),
        9 => {
            let reserved = payload[5];
            if reserved != 0 {
                return Err(ProtocolError::InvalidPayload);
            }
            let server_pid = read_u32(payload)?;
            let ui_access = parse_flag(payload[4])?;
            Ok(Message::HandshakeAccepted { server_pid, ui_access })
        },
        10 => {
            let accepted = parse_flag(payload[0])?;
            let detail = match RejectReason::from_code(payload[1]) {
                Some(detail) => detail,
                None => return Err(ProtocolError::InvalidPayload),
            };
            if accepted != (detail == RejectReason::Accepted) {
                return Err(ProtocolError::InvalidPayload);
            }
            Ok(Message::Ack { accepted, detail })
        },
        _ => Err(ProtocolError::UnknownCommand),
    }
}

/// Parses a flag byte; only 0 and 1 are flags.
pub fn parse_flag(value: u8) -> (flag: Result<bool, ProtocolError>)
    ensures
        match flag {
            Ok(b) => flag_from_byte(value) == Some(b),
            Err(error) => flag_from_byte(value) is None && error == ProtocolError::InvalidPayload,
        },
{
    match value {
        0 => Ok(false),
        1 => Ok(true),
        _ => Err(ProtocolError::InvalidPayload),
    }
}

/// Returns the wire code of a mouse button.
pub fn button_code(button: MouseButton) -> (code: u8)
    ensures
        code == mouse_button_code(button),
{
    match button {
        MouseButton::Left => 0,
        MouseButton::Right => 1,
        MouseButton::Middle => 2,
    }
}

/// Returns the mouse button of a wire code; codes above 2 are rejected.
pub fn button_from_code(code: u8) -> (button: Result<MouseButton, ProtocolError>)
    ensures
        match button {
            Ok(b) => mouse_button_from_code(code) == Some(b),
            Err(error) => mouse_button_from_code(code) is None && error
                == ProtocolError::InvalidPayload,
        },
{
    match code {
        0 => Ok(MouseButton::Left),
        1 => Ok(MouseButton::Right),
        2 => Ok(MouseButton::Middle),
        _ => Err(ProtocolError::InvalidPayload),
    }
}

/// Reads the 32-bit value at the start of a payload; a payload shorter than four bytes is
/// rejected.
pub fn read_u32(payload: &[u8]) -> (value: Result<u32, ProtocolError>)
    ensures
        payload@.len() < 4 ==> value == Err::<u32, ProtocolError>(ProtocolError::InvalidPayload),
        payload@.len() >= 4 ==> value == Ok::<u32, ProtocolError>(u32_at(payload@, 0)),
{
    if payload.len() < 4 {
        return Err(ProtocolError::InvalidPayload);
    }
    Ok(read_u32_le(payload[0], payload[1], payload[2], payload[3]))
}

/// Reads the signed 32-bit value at an offset of a payload; a payload that ends before the
/// value does is rejected.
pub fn read_i32(payload: &[u8], offset: usize) -> (value: Result<i32, ProtocolError>)
    ensures
        payload@.len() < offset + 4 ==> value == Err::<i32, ProtocolError>(
            ProtocolError::InvalidPayload,
        ),
        payload@.len() >= offset + 4 ==> value == Ok::<i32, ProtocolError>(
            u32_at(payload@, offset as int) as i32,
        ),
{
    if offset > payload.len() || payload.len() - offset < 4 {
        return Err(ProtocolError::InvalidPayload);
    }
    let bits = read_u32_le(
        payload[offset],
        payload[offset + 1],
        payload[offset + 2],
        payload[offset + 3],
    );
    Ok(bits as i32)
}


/// The bytes a decoder holds after receiving a chunk: a buffer that would exceed the largest
/// frame is replaced by a header that can never decode, so the stream fails closed.
pub open spec fn push_spec(buffer: Seq<u8>, chunk: Seq<u8>) -> Seq<u8> {
    if (buffer + chunk).len() > HEADER_LEN + MAX_PAYLOAD_LEN {
        Seq::new(HEADER_LEN as nat, |i: int| 0xFFu8)
    } else {
        buffer + chunk
    }
}

/// The payload length a buffered header announces.
pub open spec fn announced_len(buffer: Seq<u8>) -> u16 {
    u16_from_le(buffer[8], buffer[9])
}

/// What taking the next frame out of a buffer does: the remaining bytes and the result. An
/// incomplete frame is left in place; an oversize announcement is an error that leaves the
/// buffer unchanged; a complete frame is removed and decoded.
pub open spec fn next_frame_spec(buffer: Seq<u8>) -> (Seq<u8>, Result<Option<Message>, ProtocolError>) {
    if buffer.len() < HEADER_LEN {
        (buffer, Ok(None))
    } else if announced_len(buffer) > MAX_PAYLOAD_LEN {
        (buffer, Err(ProtocolError::OversizePayload))
    } else if buffer.len() < HEADER_LEN + announced_len(buffer) {
        (buffer, Ok(None))
    } else {
        let total = HEADER_LEN + announced_len(buffer);
        (
            buffer.skip(total),
            match decode_spec(buffer.take(HEADER_LEN as int), buffer.subrange(HEADER_LEN as int, total)) {
                Ok(message) => Ok(Some(message)),
                Err(error) => Err(error),
            },
        )
    }
}

/// Incremental frame decoder for byte streams that may split frames across reads.
#[derive(Debug)]
pub struct FrameDecoder {
    buffer: Vec<u8>,
}

impl View for FrameDecoder {
    type V = Seq<u8>;

    closed spec fn view(&self) -> Seq<u8> {
        self.buffer@
    }
}

impl Default for FrameDecoder {
    /// Returns a decoder with nothing buffered.
    fn default() -> (decoder: Self)
        ensures
            decoder@ == Seq::<u8>::empty(),
    {
        FrameDecoder { buffer: Vec::new() }
    }
}

fn copy_range(bytes: &Vec<u8>, start: usize, end: usize) -> (copy: Vec<u8>)
    requires
        start <= end <= bytes@.len(),
    ensures
        copy@ == bytes@.subrange(start as int, end as int),
{
    let mut copy: Vec<u8> = Vec::new();
    let mut i = start;
    while i < end
        invariant
            start <= i <= end <= bytes@.len(),
            copy@ == bytes@.subrange(start as int, i as int),
        decreases end - i,
    {
        copy.push(bytes[i]);
        i = i + 1;
        assert(copy@ =~= bytes@.subrange(start as int, i as int));
    }
    copy
}

impl FrameDecoder {
    /// Appends freshly received bytes. A buffer that would exceed the largest frame is replaced
    /// by a header that never decodes, so a misbehaving peer cannot make it grow and the
    /// connection fails closed.
    pub fn push(&mut self, chunk: &[u8])
        ensures
            final(self)@ == push_spec(old(self)@, chunk@),
            final(self)@.len() <= HEADER_LEN + MAX_PAYLOAD_LEN,
    {
        let mut i: usize = 0;
        while i < chunk.len()
            invariant
                i <= chunk@.len(),
                self.buffer@ == old(self)@ + chunk@.take(i as int),
            decreases chunk@.len() - i,
        {
            self.buffer.push(chunk[i]);
            i = i + 1;
            assert(self.buffer@ =~= old(self)@ + chunk@.take(i as int));
        }
        assert(chunk@.take(chunk@.len() as int) =~= chunk@);
        if self.buffer.len() > HEADER_LEN + MAX_PAYLOAD_LEN {
            self.buffer.clear();
            let mut j: usize = 0;
            while j < HEADER_LEN
                invariant
                    j <= HEADER_LEN,
                    self.buffer@ == Seq::new(j as nat, |k: int| 0xFFu8),
                decreases HEADER_LEN - j,
            {
                self.buffer.push(0xFF);
                j = j + 1;
                assert(self.buffer@ =~= Seq::new(j as nat, |k: int| 0xFFu8));
            }
        }
    }

    /// Returns the next complete message, `None` while the frame is still incomplete, or the
    /// reason the buffered frame is rejected.
    pub fn next_frame(&mut self) -> (result: Result<Option<Message>, ProtocolError>)
        ensures
            (final(self)@, result) == next_frame_spec(old(self)@),
    {
        if self.buffer.len() < HEADER_LEN {
            return Ok(None);
        }
        let payload_len = read_u16_le(self.buffer[8], self.buffer[9]) as usize;
        if payload_len > MAX_PAYLOAD_LEN {
            return Err(ProtocolError::OversizePayload);
        }
        let total = HEADER_LEN + payload_len;
        if self.buffer.len() < total {
            return Ok(None);
        }
        let header = copy_range(&self.buffer, 0, HEADER_LEN);
        let payload = copy_range(&self.buffer, HEADER_LEN, total);
        let end = self.buffer.len();
        let rest = copy_range(&self.buffer, total, end);
        proof {
            assert(header@ =~= old(self)@.take(HEADER_LEN as int));
            assert(rest@ =~= old(self)@.skip(total as int));
        }
        self.buffer = rest;
        match Message::decode(header.as_slice(), payload.as_slice()) {
            Ok(message) => Ok(Some(message)),
            Err(error) => Err(error),
        }
    }
}

/// A buffer that starts with a consistent message's frame yields that message and keeps the
/// bytes that follow it.
pub proof fn lemma_next_frame_takes_one_frame(message: Message, rest: Seq<u8>)
    requires
        is_consistent(message),
    ensures
        next_frame_spec(frame_bytes(message) + rest) == (rest, Ok::<Option<Message>, ProtocolError>(
            Some(message),
        )),
{
    let frame = frame_bytes(message);
    let buffer = frame + rest;
    lemma_decode_encode_round_trip(message);
    let len = payload_bytes(message).len() as u16;
    lemma_u16_bytes_round_trip(len);
    assert(buffer[8] == frame[8] && buffer[9] == frame[9]);
    assert(frame[8] == (len & 0xffu16) as u8 && frame[9] == (len >> 8u16) as u8);
    assert(announced_len(buffer) == len);
    let total = HEADER_LEN + len;
    assert(buffer.take(HEADER_LEN as int) =~= frame.take(HEADER_LEN as int));
    assert(buffer.subrange(HEADER_LEN as int, total as int) =~= frame.skip(HEADER_LEN as int));
    assert(buffer.skip(total as int) =~= rest);
}

/// A stream that failed on an oversize announcement stays failed: the buffer is left as it was,
/// so every later attempt fails the same way.
pub proof fn lemma_oversize_failure_is_sticky(buffer: Seq<u8>)
    requires
        next_frame_spec(buffer).1 == Err::<Option<Message>, ProtocolError>(ProtocolError::OversizePayload),
    ensures
        next_frame_spec(buffer).0 == buffer,
        next_frame_spec(next_frame_spec(buffer).0) == next_frame_spec(buffer),
{
}

/// Whether a decoder has failed closed: its buffer starts with a header announcing more than
/// the largest payload.
pub open spec fn failed_closed(buffer: Seq<u8>) -> bool {
    buffer.len() >= HEADER_LEN && announced_len(buffer) > MAX_PAYLOAD_LEN
}

/// The buffer after pushing a sequence of chunks, one after the other; taking frames in
/// between changes nothing once the stream has failed.
pub open spec fn push_all(buffer: Seq<u8>, chunks: Seq<Seq<u8>>) -> Seq<u8>
    decreases chunks.len(),
{
    if chunks.len() == 0 {
        buffer
    } else {
        push_spec(push_all(buffer, chunks.drop_last()), chunks.last())
    }
}

/// A decoder that failed closed stays failed whatever is pushed afterwards: every attempt to
/// take a frame reports an oversize frame and leaves the buffer as it was, and every later
/// sequence of pushes leaves it failed.
pub proof fn lemma_failed_stream_stays_failed(buffer: Seq<u8>, chunks: Seq<Seq<u8>>)
    requires
        failed_closed(buffer),
    ensures
        next_frame_spec(buffer) == (buffer, Err::<Option<Message>, ProtocolError>(
            ProtocolError::OversizePayload,
        )),
        failed_closed(push_all(buffer, chunks)),
        next_frame_spec(push_all(buffer, chunks)) == (push_all(buffer, chunks), Err::<
            Option<Message>,
            ProtocolError,
        >(ProtocolError::OversizePayload)),
    decreases chunks.len(),
{
    if chunks.len() > 0 {
        lemma_failed_stream_stays_failed(buffer, chunks.drop_last());
        let before = push_all(buffer, chunks.drop_last());
        let chunk = chunks.last();
        if (before + chunk).len() > HEADER_LEN + MAX_PAYLOAD_LEN {
            lemma_overflow_fails_closed(before, chunk);
        } else {
            let after = before + chunk;
            assert(after[8] == before[8] && after[9] == before[9]);
        }
    }
}

/// Overfilling the buffer fails closed: the decoder has failed closed, the next attempt reports
/// an oversize frame, and the buffer never holds more than one largest frame.
pub proof fn lemma_overflow_fails_closed(buffer: Seq<u8>, chunk: Seq<u8>)
    requires
        (buffer + chunk).len() > HEADER_LEN + MAX_PAYLOAD_LEN,
    ensures
        next_frame_spec(push_spec(buffer, chunk)).1 == Err::<Option<Message>, ProtocolError>(
            ProtocolError::OversizePayload,
        ),
        push_spec(buffer, chunk).len() <= HEADER_LEN + MAX_PAYLOAD_LEN,
        failed_closed(push_spec(buffer, chunk)),
{
    let b = push_spec(buffer, chunk);
    assert(b[8] == 0xFFu8 && b[9] == 0xFFu8);
    assert(u16_from_le(0xFFu8, 0xFFu8) == 0xFFFFu16) by (bit_vector);
}

/// The frames of messages, one after another.
pub open spec fn frames_of(messages: Seq<Message>) -> Seq<u8>
    decreases messages.len(),
{
    if messages.len() == 0 {
        Seq::empty()
    } else {
        frame_bytes(messages[0]) + frames_of(messages.drop_first())
    }
}

/// The bytes of chunks, one after another.
pub open spec fn chunk_bytes(chunks: Seq<Seq<u8>>) -> Seq<u8>
    decreases chunks.len(),
{
    if chunks.len() == 0 {
        Seq::empty()
    } else {
        chunk_bytes(chunks.drop_last()) + chunks.last()
    }
}

/// Taking frames out of a buffer until none is complete: the bytes left, the messages taken in
/// order, and whether no attempt failed.
pub open spec fn drain_frames(buffer: Seq<u8>) -> (Seq<u8>, Seq<Message>, bool)
    decreases buffer.len(),
{
    match next_frame_spec(buffer) {
        (rest, Ok(Some(message))) => if rest.len() < buffer.len() {
            let (left, taken, ok) = drain_frames(rest);
            (left, seq![message] + taken, ok)
        } else {
            (rest, seq![message], true)
        },
        (_, Ok(None)) => (buffer, Seq::empty(), true),
        (_, Err(_)) => (buffer, Seq::empty(), false),
    }
}

/// Receiving chunks into a new decoder, taking every complete frame after each chunk: the
/// bytes left, the messages taken in order, and whether no attempt failed.
pub open spec fn receive_chunks(chunks: Seq<Seq<u8>>) -> (Seq<u8>, Seq<Message>, bool)
    decreases chunks.len(),
{
    if chunks.len() == 0 {
        (Seq::empty(), Seq::empty(), true)
    } else {
        let (buffer, taken, ok) = receive_chunks(chunks.drop_last());
        let (left, more, drained) = drain_frames(push_spec(buffer, chunks.last()));
        (left, taken + more, ok && drained)
    }
}

/// The largest chunk that can never overfill a buffer holding an incomplete frame.
pub const SAFE_CHUNK_LEN: usize = 9;

/// Every frame fits the largest payload of any message, eight bytes.
proof fn lemma_frame_len(message: Message)
    requires
        is_consistent(message),
    ensures
        HEADER_LEN <= frame_bytes(message).len() <= HEADER_LEN + 8,
        frame_bytes(message).len() == HEADER_LEN + payload_bytes(message).len(),
{
    lemma_decode_encode_round_trip(message);
}

proof fn lemma_frames_append(x: Seq<Message>, y: Seq<Message>)
    ensures
        frames_of(x + y) == frames_of(x) + frames_of(y),
    decreases x.len(),
{
    if x.len() == 0 {
        assert(x + y =~= y);
        assert(frames_of(x) + frames_of(y) =~= frames_of(y));
    } else {
        assert((x + y).drop_first() =~= x.drop_first() + y);
        lemma_frames_append(x.drop_first(), y);
        assert(frame_bytes(x[0]) + (frames_of(x.drop_first()) + frames_of(y)) =~= (frame_bytes(x[0])
            + frames_of(x.drop_first())) + frames_of(y));
    }
}

/// A buffer holding part of a frame, short of its end, waits for more bytes.
proof fn lemma_partial_frame_waits(message: Message, rest: Seq<u8>, n: int)
    requires
        is_consistent(message),
        0 <= n < frame_bytes(message).len(),
    ensures
        next_frame_spec((frame_bytes(message) + rest).take(n)) == ((frame_bytes(message) + rest).take(
            n,
        ), Ok::<Option<Message>, ProtocolError>(None)),
{
    let frame = frame_bytes(message);
    let buffer = (frame + rest).take(n);
    lemma_frame_len(message);
    if n >= HEADER_LEN {
        let len = payload_bytes(message).len() as u16;
        lemma_u16_bytes_round_trip(len);
        assert(buffer[8] == frame[8] && buffer[9] == frame[9]);
        assert(frame[8] == (len & 0xffu16) as u8 && frame[9] == (len >> 8u16) as u8);
        assert(announced_len(buffer) == len);
    }
}

/// Frames of consistent messages, cut after any number of bytes, drain to the messages whose
/// frames are complete, in order and without failure; the bytes left are the start of the
/// next frame, short of its end.
proof fn lemma_drain_prefix(messages: Seq<Message>, n: int)
    requires
        forall|i: int| 0 <= i < messages.len() ==> is_consistent(#[trigger] messages[i]),
        0 <= n <= frames_of(messages).len(),
    ensures
        exists|j: int|
            0 <= j <= messages.len() && #[trigger] frames_of(messages.take(j)).len() <= n && drain_frames(
                frames_of(messages).take(n),
            ) == (frames_of(messages).subrange(frames_of(messages.take(j)).len() as int, n), messages.take(
                j,
            ), true) && (j < messages.len() ==> n - frames_of(messages.take(j)).len() < frame_bytes(
                messages[j],
            ).len()),
    decreases messages.len(),
{
    let all = frames_of(messages);
    let buffer = all.take(n);
    assert(messages.take(0) =~= Seq::<Message>::empty());
    if messages.len() == 0 {
        assert(buffer =~= Seq::<u8>::empty());
        assert(all.subrange(0, n) =~= buffer);
        assert(drain_frames(buffer) == (buffer, Seq::<Message>::empty(), true));
        assert(frames_of(messages.take(0)).len() <= n);
    } else {
        let first = messages[0];
        let others = messages.drop_first();
        let flen = frame_bytes(first).len() as int;
        assert(is_consistent(first));
        assert forall|i: int| 0 <= i < others.len() implies is_consistent(#[trigger] others[i]) by {
            assert(others[i] == messages[i + 1]);
        }
        if n < flen {
            lemma_partial_frame_waits(first, frames_of(others), n);
            assert(all.subrange(0, n) =~= buffer);
            assert(frames_of(messages.take(0)).len() <= n);
        } else {
            let tail = frames_of(others).take(n - flen);
            assert(buffer =~= frame_bytes(first) + tail);
            lemma_next_frame_takes_one_frame(first, tail);
            lemma_drain_prefix(others, n - flen);
            let j2 = choose|j2: int|
                0 <= j2 <= others.len() && #[trigger] frames_of(others.take(j2)).len() <= n - flen
                    && drain_frames(frames_of(others).take(n - flen)) == (frames_of(others).subrange(
                    frames_of(others.take(j2)).len() as int,
                    n - flen,
                ), others.take(j2), true) && (j2 < others.len() ==> n - flen - frames_of(
                    others.take(j2),
                ).len() < frame_bytes(others[j2]).len());
            let j = j2 + 1;
            assert(messages.take(j) =~= seq![first] + others.take(j2));
            assert(messages.take(j).drop_first() =~= others.take(j2));
            assert(messages.take(j)[0] == first);
            assert(frames_of(messages.take(j)) == frame_bytes(first) + frames_of(others.take(j2)));
            let c2 = frames_of(others.take(j2)).len() as int;
            assert(all.subrange(flen + c2, n) =~= frames_of(others).subrange(c2, n - flen));
            assert(j < messages.len() ==> messages[j] == others[j2]);
            assert(drain_frames(buffer) == (frames_of(others).subrange(c2, n - flen), seq![first]
                + others.take(j2), true));
            assert(frames_of(messages.take(j)).len() <= n);
        }
    }
}

/// Frames split across reads are reassembled: when the chunks received, one after another,
/// are the frames of consistent messages, and no chunk is longer than `SAFE_CHUNK_LEN`, taking
/// every complete frame after each chunk gives back exactly those messages, in order, with no
/// failure and nothing left over.
pub proof fn lemma_chunked_frames_reassemble(messages: Seq<Message>, chunks: Seq<Seq<u8>>)
    requires
        forall|i: int| 0 <= i < messages.len() ==> is_consistent(#[trigger] messages[i]),
        forall|k: int| 0 <= k < chunks.len() ==> (#[trigger] chunks[k]).len() <= SAFE_CHUNK_LEN,
        chunk_bytes(chunks) == frames_of(messages),
    ensures
        receive_chunks(chunks) == (Seq::<u8>::empty(), messages, true),
{
    assert(frames_of(messages).take(frames_of(messages).len() as int) =~= frames_of(messages));
    lemma_receive_prefix(messages, chunks);
    let all = frames_of(messages);
    let n = all.len() as int;
    let j = choose|j: int|
        0 <= j <= messages.len() && #[trigger] frames_of(messages.take(j)).len() <= n && receive_chunks(
            chunks,
        ) == (all.subrange(frames_of(messages.take(j)).len() as int, n), messages.take(j), true) && (j
            < messages.len() ==> n - frames_of(messages.take(j)).len() < frame_bytes(messages[j]).len());
    if j < messages.len() {
        lemma_frames_append(messages.take(j), messages.skip(j));
        assert(messages.take(j) + messages.skip(j) =~= messages);
        assert(frames_of(messages.skip(j)) == frame_bytes(messages[j]) + frames_of(messages.skip(j).drop_first())) by {
            assert(messages.skip(j)[0] == messages[j]);
        }
        assert(false);
    }
    assert(messages.take(j) =~= messages);
    assert(all.subrange(n, n) =~= Seq::<u8>::empty());
}

proof fn lemma_receive_prefix(messages: Seq<Message>, chunks: Seq<Seq<u8>>)
    requires
        forall|i: int| 0 <= i < messages.len() ==> is_consistent(#[trigger] messages[i]),
        forall|k: int| 0 <= k < chunks.len() ==> (#[trigger] chunks[k]).len() <= SAFE_CHUNK_LEN,
        chunk_bytes(chunks).len() <= frames_of(messages).len(),
        chunk_bytes(chunks) == frames_of(messages).take(chunk_bytes(chunks).len() as int),
    ensures
        exists|j: int|
            0 <= j <= messages.len() && #[trigger] frames_of(messages.take(j)).len() <= chunk_bytes(
                chunks,
            ).len() && receive_chunks(chunks) == (frames_of(messages).subrange(
                frames_of(messages.take(j)).len() as int,
                chunk_bytes(chunks).len() as int,
            ), messages.take(j), true) && (j < messages.len() ==> chunk_bytes(chunks).len()
                - frames_of(messages.take(j)).len() < frame_bytes(messages[j]).len()),
    decreases chunks.len(),
{
    let all = frames_of(messages);
    assert(messages.take(0) =~= Seq::<Message>::empty());
    if chunks.len() == 0 {
        assert(all.subrange(0, 0) =~= Seq::<u8>::empty());
        if messages.len() > 0 {
            lemma_frame_len(messages[0]);
        }
        assert(frames_of(messages.take(0)).len() <= chunk_bytes(chunks).len());
    } else {
        let earlier = chunks.drop_last();
        let chunk = chunks.last();
        let n0 = chunk_bytes(earlier).len() as int;
        let n1 = chunk_bytes(chunks).len() as int;
        assert(chunk_bytes(chunks) == chunk_bytes(earlier) + chunk);
        assert(chunk_bytes(earlier) =~= all.take(n0)) by {
            assert forall|i: int| 0 <= i < n0 implies chunk_bytes(earlier)[i] == all.take(n0)[i] by {
                assert(chunk_bytes(chunks)[i] == chunk_bytes(earlier)[i]);
            }
        }
        assert forall|k: int| 0 <= k < earlier.len() implies (#[trigger] earlier[k]).len() <= SAFE_CHUNK_LEN by {
            assert(earlier[k] == chunks[k]);
        }
        assert(chunk.len() <= SAFE_CHUNK_LEN) by {
            assert(chunk == chunks[chunks.len() - 1]);
        }
        lemma_receive_prefix(messages, earlier);
        let j = choose|j: int|
            0 <= j <= messages.len() && #[trigger] frames_of(messages.take(j)).len() <= n0
                && receive_chunks(earlier) == (all.subrange(frames_of(messages.take(j)).len() as int, n0),
                messages.take(j), true) && (j < messages.len() ==> n0 - frames_of(messages.take(j)).len()
                < frame_bytes(messages[j]).len());
        let done = messages.take(j);
        let left = messages.skip(j);
        let c = frames_of(done).len() as int;
        lemma_frames_append(done, left);
        assert(done + left =~= messages);
        assert forall|i: int| 0 <= i < left.len() implies is_consistent(#[trigger] left[i]) by {
            assert(left[i] == messages[i + j]);
        }
        let buffer = all.subrange(c, n0);
        if j < messages.len() {
            lemma_frame_len(messages[j]);
        }
        assert(buffer.len() + chunk.len() <= HEADER_LEN + MAX_PAYLOAD_LEN);
        assert(push_spec(buffer, chunk) =~= frames_of(left).take(n1 - c)) by {
            assert forall|i: int| 0 <= i < n1 - c implies push_spec(buffer, chunk)[i] == frames_of(left).take(n1 - c)[i] by {
                assert(frames_of(left)[i] == all[c + i]);
                if i < n0 - c {
                    assert(buffer[i] == all[c + i]);
                } else {
                    assert(chunk_bytes(chunks)[c + i] == chunk[c + i - n0]);
                    assert(chunk_bytes(chunks)[c + i] == all[c + i]);
                }
            }
        }
        lemma_drain_prefix(left, n1 - c);
        let j2 = choose|j2: int|
            0 <= j2 <= left.len() && #[trigger] frames_of(left.take(j2)).len() <= n1 - c && drain_frames(
                frames_of(left).take(n1 - c),
            ) == (frames_of(left).subrange(frames_of(left.take(j2)).len() as int, n1 - c), left.take(
                j2,
            ), true) && (j2 < left.len() ==> n1 - c - frames_of(left.take(j2)).len() < frame_bytes(
                left[j2],
            ).len());
        let total = j + j2;
        assert(messages.take(total) =~= done + left.take(j2));
        lemma_frames_append(done, left.take(j2));
        let c2 = frames_of(left.take(j2)).len() as int;
        assert(all.subrange(c + c2, n1) =~= frames_of(left).subrange(c2, n1 - c));
        assert(total < messages.len() ==> messages[total] == left[j2]);
        assert(receive_chunks(chunks) == (all.subrange(c + c2, n1), messages.take(total), true));
        assert(frames_of(messages.take(total)).len() <= n1);
    }
}

} // verus!
