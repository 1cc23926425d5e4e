use numflow::action::MouseButton;
use numflow::protocol::{
    ButtonAction, FrameDecoder, HEADER_LEN, MAX_PAYLOAD_LEN, Message, PROTOCOL_MAGIC,
    PROTOCOL_VERSION, ProtocolError, RejectReason,
};

const SAMPLE_MESSAGES: [Message; 10] = [
    Message::Handshake { client_pid: 4_242 },
    Message::HandshakeAccepted {
        server_pid: 8_484,
        ui_access: true,
    },
    Message::Ping { nonce: 0x0102_0304 },
    Message::PointerMove { dx: -12, dy: 3_402 },
    Message::PointerButton {
        button: MouseButton::Middle,
        action: ButtonAction::Down,
    },
    Message::Click {
        button: MouseButton::Right,
    },
    Message::DoubleClick {
        button: MouseButton::Left,
    },
    Message::ReleaseAll,
    Message::Shutdown,
    Message::Ack {
        accepted: false,
        detail: RejectReason::InjectionFailed,
    },
];

#[test]
fn every_whitelisted_message_round_trips() {
    for message in SAMPLE_MESSAGES {
        let frame = message.encode();
        assert_eq!(frame.len(), HEADER_LEN + message.payload_len());
        let decoded = Message::decode(&frame[..HEADER_LEN], &frame[HEADER_LEN..])
            .expect("whitelisted message must decode");
        assert_eq!(decoded, message);
    }
}

#[test]
fn decoder_reassembles_frames_split_across_reads() {
    let mut decoder = FrameDecoder::default();
    let mut delivered = Vec::new();

    for message in SAMPLE_MESSAGES {
        for chunk in message.encode().chunks(3) {
            decoder.push(chunk);
            if let Some(decoded) = decoder.next_frame().expect("split frames stay valid") {
                delivered.push(decoded);
            }
        }
    }

    assert_eq!(delivered.len(), SAMPLE_MESSAGES.len());
    for (decoded, expected) in delivered.into_iter().zip(SAMPLE_MESSAGES) {
        assert_eq!(decoded, expected);
    }
}

#[test]
fn decoder_rejects_oversize_stream_and_fails_closed() {
    let mut header = [0_u8; HEADER_LEN];
    header[0..4].copy_from_slice(&PROTOCOL_MAGIC.to_le_bytes());
    header[4..6].copy_from_slice(&PROTOCOL_VERSION.to_le_bytes());
    header[6..8].copy_from_slice(&3_u16.to_le_bytes());
    header[8..10].copy_from_slice(
        &u16::try_from(MAX_PAYLOAD_LEN)
            .expect("payload bound fits in u16")
            .wrapping_add(1)
            .to_le_bytes(),
    );

    assert_eq!(
        Message::decode(&header, &[]),
        Err(ProtocolError::OversizePayload)
    );

    let mut decoder = FrameDecoder::default();
    decoder.push(&header);
    assert_eq!(decoder.next_frame(), Err(ProtocolError::OversizePayload));
    assert!(
        decoder.next_frame().is_err(),
        "a failed stream must stay failed instead of resynchronizing silently"
    );
}

#[test]
fn headers_outside_the_whitelist_are_rejected() {
    let frame = Message::PointerMove { dx: 1, dy: 2 }.encode();
    let mut header = frame[..HEADER_LEN].to_vec();
    let payload = &frame[HEADER_LEN..];

    header[0] ^= 0xFF;
    assert_eq!(
        Message::decode(&header, payload),
        Err(ProtocolError::BadMagic)
    );
    header[0] = u8::try_from(PROTOCOL_MAGIC & 0xFF).expect("low magic byte fits in u8");

    header[4] = 0x99;
    assert_eq!(
        Message::decode(&header, payload),
        Err(ProtocolError::BadVersion)
    );
    header[4..6].copy_from_slice(&PROTOCOL_VERSION.to_le_bytes());

    header[6] = 0x7F;
    assert_eq!(
        Message::decode(&header, payload),
        Err(ProtocolError::UnknownCommand)
    );

    header[6..8].copy_from_slice(&3_u16.to_le_bytes());
    header[8..10].copy_from_slice(&7_u16.to_le_bytes());
    assert_eq!(
        Message::decode(&header, payload),
        Err(ProtocolError::BadPayloadLength)
    );
}

#[test]
fn payload_values_outside_the_whitelist_are_rejected() {
    let button_frame = Message::PointerButton {
        button: MouseButton::Left,
        action: ButtonAction::Down,
    }
    .encode();
    let (_, button_payload) = button_frame.split_at(HEADER_LEN);
    assert_eq!(
        Message::decode(&button_frame[..HEADER_LEN], &[7, 0]),
        Err(ProtocolError::InvalidPayload)
    );
    assert_eq!(button_payload, &[0, 0]);

    let click_frame = Message::Click {
        button: MouseButton::Left,
    }
    .encode();
    assert_eq!(
        Message::decode(&click_frame[..HEADER_LEN], &[9]),
        Err(ProtocolError::InvalidPayload)
    );
}

#[test]
fn boolean_and_reject_fields_are_strictly_validated() {
    let handshake = Message::HandshakeAccepted {
        server_pid: 54_321,
        ui_access: false,
    }
    .encode();
    let mut invalid_flag = handshake.clone();
    invalid_flag[HEADER_LEN + 4] = 2;
    assert_eq!(
        Message::decode(&invalid_flag[..HEADER_LEN], &invalid_flag[HEADER_LEN..]),
        Err(ProtocolError::InvalidPayload)
    );

    let mut invalid_reserved = handshake;
    invalid_reserved[HEADER_LEN + 5] = 1;
    assert_eq!(
        Message::decode(
            &invalid_reserved[..HEADER_LEN],
            &invalid_reserved[HEADER_LEN..]
        ),
        Err(ProtocolError::InvalidPayload)
    );

    let ack = Message::Ack {
        accepted: false,
        detail: RejectReason::InjectionFailed,
    }
    .encode();
    let mut invalid_reason = ack.clone();
    invalid_reason[HEADER_LEN + 1] = 0xFF;
    assert_eq!(
        Message::decode(&invalid_reason[..HEADER_LEN], &invalid_reason[HEADER_LEN..]),
        Err(ProtocolError::InvalidPayload)
    );

    let mut contradictory_ack = ack;
    contradictory_ack[HEADER_LEN] = 1;
    assert_eq!(
        Message::decode(
            &contradictory_ack[..HEADER_LEN],
            &contradictory_ack[HEADER_LEN..]
        ),
        Err(ProtocolError::InvalidPayload)
    );
}

#[test]
fn handshake_frames_carry_verified_peer_data() {
    let request = Message::Handshake { client_pid: 12_345 }.encode();
    assert_eq!(&request[HEADER_LEN..], &12_345_u32.to_le_bytes());

    let response = Message::HandshakeAccepted {
        server_pid: 54_321,
        ui_access: false,
    }
    .encode();
    assert_eq!(
        &response[HEADER_LEN..HEADER_LEN + 4],
        &54_321_u32.to_le_bytes()
    );
    assert_eq!(response[HEADER_LEN + 4], 0);
    assert_eq!(response[HEADER_LEN + 5], 0);
}

#[test]
fn reject_and_button_codes_round_trip_and_refuse_unassigned_values() {
    for reason in [
        RejectReason::Accepted,
        RejectReason::UnknownCommand,
        RejectReason::ProtocolVersion,
        RejectReason::InvalidPayload,
        RejectReason::InjectionFailed,
        RejectReason::NotReady,
    ] {
        assert_eq!(RejectReason::from_code(reason.code()), Some(reason));
    }
    assert_eq!(RejectReason::from_code(6), None);
    for action in [ButtonAction::Down, ButtonAction::Up] {
        assert_eq!(ButtonAction::from_code(action.code()), Some(action));
    }
    assert_eq!(ButtonAction::from_code(2), None);
}

#[test]
fn pointer_move_frame_has_exact_bytes() {
    let frame = Message::PointerMove { dx: -1, dy: 2 }.encode();
    assert_eq!(
        frame,
        vec![0x50, 0x49, 0x46, 0x4E, 1, 0, 3, 0, 8, 0, 0xFF, 0xFF, 0xFF, 0xFF, 2, 0, 0, 0]
    );
    assert_eq!(Message::PointerMove { dx: -1, dy: 2 }.message_id(), 3);
    assert_eq!(Message::PointerMove { dx: -1, dy: 2 }.payload_len(), 8);
}

#[test]
fn decoder_waits_for_a_complete_frame() {
    let frame = Message::Ping { nonce: 7 }.encode();
    let mut decoder = FrameDecoder::default();
    decoder.push(&frame[..HEADER_LEN - 1]);
    assert_eq!(decoder.next_frame(), Ok(None));
    decoder.push(&frame[HEADER_LEN - 1..]);
    assert_eq!(decoder.next_frame(), Ok(Some(Message::Ping { nonce: 7 })));
    assert_eq!(decoder.next_frame(), Ok(None));
}
