//! Peer-wire handshake and length-prefixed message framing.

use bytes::BytesMut;
use portunus::transport::peer::{Handshake, Message, PeerCodec, PeerWireError, HANDSHAKE_LEN};

fn sample_handshake() -> Handshake {
    Handshake {
        reserved: [0; 8],
        info_hash: [1; 20],
        peer_id: [2; 20],
    }
}

// A handshake encodes to exactly 68 bytes and decodes back to itself.
#[test]
fn handshake_round_trip() {
    let handshake = sample_handshake();
    let encoded = handshake.encode();
    assert_eq!(encoded.len(), HANDSHAKE_LEN);
    assert_eq!(Handshake::decode(&encoded).unwrap(), handshake);
}

// Wrong size, wrong marker length and wrong marker bytes are all rejected.
#[test]
fn handshake_rejects_malformed_input() {
    assert!(Handshake::decode(&[0; 67]).is_err());
    let mut encoded = sample_handshake().encode();
    encoded[0] = 18;
    assert!(Handshake::decode(&encoded).is_err());
    encoded[0] = 19;
    encoded[1] = b'X';
    assert!(Handshake::decode(&encoded).is_err());
}

// Every representative message survives encoding then decoding.
#[test]
fn codec_round_trips_messages() {
    let messages = [
        Message::KeepAlive,
        Message::Have(9),
        Message::Bitfield(vec![0x80]),
        Message::Request {
            index: 2,
            begin: 16,
            length: 32,
        },
        Message::Piece {
            index: 2,
            begin: 16,
            block: b"data".to_vec(),
        },
    ];
    let mut codec = PeerCodec::new(1024);
    for message in messages {
        let mut buffer = BytesMut::new();
        codec.encode(message.clone(), &mut buffer).unwrap();
        assert_eq!(codec.decode(&mut buffer).unwrap(), Some(message));
    }
}

// Partial headers and bodies wait for more bytes; an oversized declared frame fails.
#[test]
fn codec_handles_stream_boundaries() {
    let mut codec = PeerCodec::new(4);
    assert_eq!(
        codec.decode(&mut BytesMut::from(&[0, 0][..])).unwrap(),
        None
    );
    assert_eq!(
        codec
            .decode(&mut BytesMut::from(&[0, 0, 0, 1][..]))
            .unwrap(),
        None
    );
    assert!(codec
        .decode(&mut BytesMut::from(&[0, 0, 0, 5][..]))
        .is_err());
}

// The exact wire bytes of a piece frame: length, id, index, begin, block.
#[test]
fn encodes_piece_frames_in_big_endian() {
    let mut codec = PeerCodec::new(64);
    let mut buffer = BytesMut::new();
    codec
        .encode(
            Message::Piece {
                index: 1,
                begin: 0x0102,
                block: vec![9, 8],
            },
            &mut buffer,
        )
        .unwrap();
    assert_eq!(
        &buffer[..],
        &[0, 0, 0, 11, 7, 0, 0, 0, 1, 0, 0, 1, 2, 9, 8][..]
    );
}

// Two frames in one buffer decode one at a time, leaving the rest in place.
#[test]
fn decodes_back_to_back_frames_in_order() {
    let mut codec = PeerCodec::new(64);
    let mut buffer = BytesMut::new();
    codec.encode(Message::Interested, &mut buffer).unwrap();
    codec.encode(Message::Have(3), &mut buffer).unwrap();
    assert_eq!(buffer.len(), 5 + 9);
    assert_eq!(codec.decode(&mut buffer).unwrap(), Some(Message::Interested));
    assert_eq!(buffer.len(), 9);
    assert_eq!(codec.decode(&mut buffer).unwrap(), Some(Message::Have(3)));
    assert!(buffer.is_empty());
    assert_eq!(codec.decode(&mut buffer).unwrap(), None);
}

// An unknown message id is malformed; its frame is consumed so decoding can go on.
#[test]
fn rejects_unknown_message_ids_and_consumes_the_frame() {
    let mut codec = PeerCodec::new(64);
    let mut buffer = BytesMut::from(&[0, 0, 0, 1, 42, 0, 0, 0, 0][..]);
    assert_eq!(codec.decode(&mut buffer), Err(PeerWireError::InvalidMessage));
    assert_eq!(&buffer[..], &[0, 0, 0, 0][..]);
    assert_eq!(codec.decode(&mut buffer).unwrap(), Some(Message::KeepAlive));
}

// A frame exactly at the codec limit is accepted.
#[test]
fn accepts_a_frame_exactly_at_the_limit() {
    let mut codec = PeerCodec::new(5);
    let mut buffer = BytesMut::from(&[0, 0, 0, 5, 4, 0, 0, 0, 7][..]);
    assert_eq!(codec.decode(&mut buffer).unwrap(), Some(Message::Have(7)));
}
