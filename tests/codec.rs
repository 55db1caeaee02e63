use mirkobo::api::{FromClientMessage, FromServerMessage};
use mirkobo::codec::{decode_client, decode_server, encode_client, encode_server, DecodeError};

fn client_samples() -> Vec<FromClientMessage> {
    vec![
        FromClientMessage::Ping,
        FromClientMessage::Screen(vec![]),
        FromClientMessage::Screen(vec![137, 80, 78, 71, 0, 255]),
        FromClientMessage::ScreenSize((600, 800)),
        FromClientMessage::ScreenSize((u32::MAX, 0)),
    ]
}

fn server_samples() -> Vec<FromServerMessage> {
    vec![
        FromServerMessage::Pong,
        FromServerMessage::Click(100, 200),
        FromServerMessage::Click(u16::MAX, 0),
        FromServerMessage::RequestScreen,
    ]
}

#[test]
fn client_bytes_are_exact() {
    assert_eq!(encode_client(&FromClientMessage::Ping), vec![0, 0, 0, 0]);
    assert_eq!(
        encode_client(&FromClientMessage::ScreenSize((600, 800))),
        vec![2, 0, 0, 0, 0x58, 0x02, 0, 0, 0x20, 0x03, 0, 0]
    );
    assert_eq!(
        encode_client(&FromClientMessage::Screen(vec![1, 2, 3])),
        vec![1, 0, 0, 0, 3, 0, 0, 0, 0, 0, 0, 0, 1, 2, 3]
    );
}

#[test]
fn server_bytes_are_exact() {
    assert_eq!(encode_server(FromServerMessage::Pong), vec![0, 0, 0, 0]);
    assert_eq!(encode_server(FromServerMessage::Click(100, 200)), vec![1, 0, 0, 0, 100, 0, 200, 0]);
    assert_eq!(encode_server(FromServerMessage::Click(0x1234, 0xabcd)), vec![1, 0, 0, 0, 0x34, 0x12, 0xcd, 0xab]);
    assert_eq!(encode_server(FromServerMessage::RequestScreen), vec![2, 0, 0, 0]);
}

#[test]
fn layout_matches_bincode() {
    assert_eq!(encode_client(&FromClientMessage::Ping), bincode::serialize(&0u32).unwrap());
    assert_eq!(
        encode_client(&FromClientMessage::Screen(vec![9, 8, 7])),
        bincode::serialize(&(1u32, vec![9u8, 8, 7])).unwrap()
    );
    assert_eq!(
        encode_client(&FromClientMessage::ScreenSize((1072, 1448))),
        bincode::serialize(&(2u32, (1072u32, 1448u32))).unwrap()
    );
    assert_eq!(encode_server(FromServerMessage::Pong), bincode::serialize(&0u32).unwrap());
    assert_eq!(
        encode_server(FromServerMessage::Click(100, 200)),
        bincode::serialize(&(1u32, 100u16, 200u16)).unwrap()
    );
    assert_eq!(encode_server(FromServerMessage::RequestScreen), bincode::serialize(&2u32).unwrap());
}

#[test]
fn client_round_trip() {
    for m in client_samples() {
        let bytes = encode_client(&m);
        assert_eq!(decode_client(&bytes), Ok(m));
    }
}

#[test]
fn server_round_trip() {
    for m in server_samples() {
        let bytes = encode_server(m);
        assert_eq!(decode_server(&bytes), Ok(m));
    }
}

#[test]
fn client_truncated_prefixes_fail() {
    for m in client_samples() {
        let bytes = encode_client(&m);
        for k in 0..bytes.len() {
            assert_eq!(decode_client(&bytes[..k]), Err(DecodeError::UnexpectedEnd));
        }
    }
}

#[test]
fn server_truncated_prefixes_fail() {
    for m in server_samples() {
        let bytes = encode_server(m);
        for k in 0..bytes.len() {
            assert_eq!(decode_server(&bytes[..k]), Err(DecodeError::UnexpectedEnd));
        }
    }
}

#[test]
fn unknown_tags_are_refused() {
    assert_eq!(decode_client(&[3, 0, 0, 0]), Err(DecodeError::InvalidTag(3)));
    assert_eq!(decode_server(&[0, 0, 0, 1]), Err(DecodeError::InvalidTag(0x0100_0000)));
}

#[test]
fn trailing_bytes_are_refused() {
    assert_eq!(decode_client(&[0, 0, 0, 0, 0]), Err(DecodeError::TrailingBytes));
    assert_eq!(
        decode_client(&[1, 0, 0, 0, 1, 0, 0, 0, 0, 0, 0, 0, 5, 6]),
        Err(DecodeError::TrailingBytes)
    );
    assert_eq!(decode_server(&[2, 0, 0, 0, 9]), Err(DecodeError::TrailingBytes));
    assert_eq!(decode_server(&[1, 0, 0, 0, 1, 0, 2, 0, 3]), Err(DecodeError::TrailingBytes));
}

#[test]
fn screen_length_beyond_the_data_is_refused() {
    assert_eq!(
        decode_client(&[1, 0, 0, 0, 0xff, 0xff, 0xff, 0xff, 0xff, 0xff, 0xff, 0xff, 1]),
        Err(DecodeError::UnexpectedEnd)
    );
}
