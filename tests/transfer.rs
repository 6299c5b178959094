use file_transfer::chunking::{is_last_chunk, BUFFER_SIZE};
use file_transfer::envelope::{decrypt, encrypt, encrypt_with_iv};
use file_transfer::frame::{AckStage, ClientExchange, FrameStage, ServerExchange, LENGTH_CAP};
use file_transfer::wire::MAGIC_HEADER;
use file_transfer::{get_password, Client, FileTransferError};
use hmac::{Hmac, Mac, NewMac};
use rand::Rng;
use sha2::{Digest, Sha256};

/// Feeds a whole frame to a fresh server exchange, one exact read at a time.
fn serve(frame: &[u8]) -> (ServerExchange, Result<(), FileTransferError>) {
    let mut server = ServerExchange::new();
    let mut pos = 0;
    while !server.is_complete() {
        let n = server.want();
        if pos + n > frame.len() {
            return (server, Err(FileTransferError::IOError));
        }
        if let Err(e) = server.feed(&frame[pos..pos + n]) {
            return (server, Err(e));
        }
        pos += n;
    }
    (server, Ok(()))
}

/// Feeds an acknowledgement to a client exchange, one exact read at a time.
fn check_ack(client: &mut ClientExchange, ack: &[u8]) -> Result<(), FileTransferError> {
    let mut pos = 0;
    while !client.is_accepted() {
        let n = client.want();
        if pos + n > ack.len() {
            return Err(FileTransferError::IOError);
        }
        client.feed(&ack[pos..pos + n])?;
        pos += n;
    }
    Ok(())
}

/// One full chunk round trip in memory: seal, frame, receive, acknowledge, open.
fn round_trip(client: &Client, data: &[u8], key: &[u8]) -> Result<(Vec<u8>, Vec<u8>), FileTransferError> {
    let mut exchange = client.send_full(data, key)?;
    let (server, r) = serve(&exchange.frame);
    r?;
    let ack = server.ack();
    check_ack(&mut exchange, &ack)?;
    Ok((server.open(key)?, ack))
}

fn hmac_tag(key: &[u8], msg: &[u8]) -> Vec<u8> {
    let mut mac = Hmac::<Sha256>::new_varkey(key).unwrap();
    mac.update(msg);
    mac.finalize().into_bytes().to_vec()
}

#[test]
fn test_ende() {
    let key = rand::thread_rng().gen::<[u8; 16]>();
    let plain = rand::thread_rng().gen::<[u8; 30]>();
    let cipher = encrypt(&plain, &key).unwrap();
    let plain_act = decrypt(cipher.as_slice(), &key).unwrap();
    assert_eq!(&plain, plain_act.as_slice());
}

#[test]
fn test_loopback() {
    let svr_password = get_password("password");
    let cli_password = svr_password;
    let cli = Client::new("127.0.0.1:7777");
    let msg = "client request".as_bytes();
    let mut exchange = cli.send_full(msg, &cli_password).unwrap();
    let (svr, r) = serve(&exchange.frame);
    r.unwrap();
    check_ack(&mut exchange, &svr.ack()).unwrap();
    let svr_receive = svr.open(&svr_password).unwrap();
    assert_eq!(String::from_utf8(svr_receive).unwrap(), "client request");
}

#[test]
fn round_trip_various_lengths() {
    let key = get_password("k");
    for len in [0usize, 1, 15, 16, 17, 31, 32, 1000] {
        let data: Vec<u8> = (0..len).map(|i| (i * 7) as u8).collect();
        let e = encrypt(&data, &key).unwrap();
        assert_eq!(e.len(), 16 + (len / 16 + 1) * 16 + 32);
        assert_eq!(decrypt(&e, &key).unwrap(), data);
    }
}

#[test]
fn scenario_hello_world() {
    let key = get_password("secret");
    let client = Client::new("127.0.0.1:7777");
    let exchange = client.send_full(b"hello world", &key).unwrap();
    assert_eq!(exchange.sent_len, 64);
    assert_eq!(exchange.frame.len(), 4 + 8 + 64);
    let (plain, ack) = round_trip(&client, b"hello world", &key).unwrap();
    assert_eq!(plain, b"hello world".to_vec());
    assert_eq!(ack.len(), 14);
    assert_eq!(&ack[0..4], &MAGIC_HEADER);
    assert_eq!(u64::from_be_bytes(ack[4..12].try_into().unwrap()), 64);
    assert_eq!(&ack[12..14], b"OK");
}

#[test]
fn scenario_exact_chunk_needs_empty_terminator() {
    let key = get_password("secret");
    let client = Client::new("127.0.0.1:7777");
    let file: Vec<u8> = (0..BUFFER_SIZE).map(|i| (i % 251) as u8).collect();
    let mut received = Vec::new();
    let mut pos = 0;
    let mut trips = 0;
    loop {
        let end = std::cmp::min(pos + BUFFER_SIZE, file.len());
        let chunk = &file[pos..end];
        pos = end;
        let (plain, _) = round_trip(&client, chunk, &key).unwrap();
        trips += 1;
        received.extend_from_slice(&plain);
        let client_stops = is_last_chunk(chunk.len());
        let server_stops = is_last_chunk(plain.len());
        assert_eq!(client_stops, server_stops);
        if client_stops {
            break;
        }
    }
    assert_eq!(trips, 2);
    assert_eq!(received, file);
}

#[test]
fn short_final_chunk_ends_transfer() {
    assert!(is_last_chunk(0));
    assert!(is_last_chunk(10));
    assert!(is_last_chunk(BUFFER_SIZE - 1));
    assert!(!is_last_chunk(BUFFER_SIZE));
    assert_eq!(BUFFER_SIZE, 256 * 1024);
}

#[test]
fn tamper_any_bit_fails_integrity() {
    let key = get_password("secret");
    let e = encrypt(b"hello world", &key).unwrap();
    for i in 0..e.len() {
        for bit in 0..8 {
            let mut t = e.clone();
            t[i] ^= 1 << bit;
            assert_eq!(decrypt(&t, &key), Err(FileTransferError::HmacVerifyFail));
        }
    }
}

#[test]
fn wrong_key_fails_integrity() {
    let e = encrypt(b"hello world", &get_password("secret")).unwrap();
    assert_eq!(decrypt(&e, &get_password("Secret")), Err(FileTransferError::HmacVerifyFail));
}

#[test]
fn fixed_iv_envelope_layout() {
    let key = get_password("secret");
    let iv = [7u8; 16];
    let e = encrypt_with_iv(b"hello world", &key, &iv).unwrap();
    assert_eq!(e.len(), 64);
    assert_eq!(&e[..16], &iv);
    assert_ne!(&e[16..27], b"hello world");
    assert_eq!(e[32..].to_vec(), hmac_tag(&key, &e[..32]));
    assert_eq!(encrypt_with_iv(b"hello world", &key, &iv).unwrap(), e);
    assert_ne!(encrypt_with_iv(b"hello world", &key, &[8u8; 16]).unwrap(), e);
    assert_eq!(decrypt(&e, &key).unwrap(), b"hello world".to_vec());
}

#[test]
fn key_and_iv_errors() {
    assert_eq!(encrypt(b"x", &[1u8; 15]), Err(FileTransferError::KeyIvError));
    assert_eq!(encrypt_with_iv(b"x", &[1u8; 32], &[0u8; 15]), Err(FileTransferError::KeyIvError));
    assert!(encrypt(b"x", &[1u8; 16]).is_ok());
    let e = encrypt(b"x", &[1u8; 32]).unwrap();
    assert_eq!(decrypt(&e, &[1u8; 15]), Err(FileTransferError::KeyIvError));
    let client = Client::new("a:1");
    assert!(matches!(client.send_full(b"x", &[1u8; 8]), Err(FileTransferError::KeyIvError)));
}

#[test]
fn short_envelope_is_invalid_length() {
    let key = get_password("secret");
    assert_eq!(decrypt(&[0u8; 47], &key), Err(FileTransferError::InvalidLength));
    assert_eq!(decrypt(&[], &key), Err(FileTransferError::InvalidLength));
}

#[test]
fn authentic_but_malformed_padding() {
    let key = get_password("secret");
    let iv = [3u8; 16];
    let mut e = iv.to_vec();
    e.extend_from_slice(&hmac_tag(&key, &iv));
    assert_eq!(decrypt(&e, &key), Err(FileTransferError::BlockModeError));
    let mut ragged = iv.to_vec();
    ragged.extend_from_slice(&[9u8; 5]);
    let tag = hmac_tag(&key, &ragged);
    ragged.extend_from_slice(&tag);
    assert_eq!(decrypt(&ragged, &key), Err(FileTransferError::BlockModeError));
}

#[test]
fn derived_key_is_sha256_of_password() {
    let k = get_password("secret");
    let expected: [u8; 32] = Sha256::digest(b"secret").into();
    assert_eq!(k, expected);
    assert_ne!(get_password("secret"), get_password("secreT"));
}

#[test]
fn frame_layout() {
    let client = Client::new("127.0.0.1:7777");
    assert_eq!(client.server_address, "127.0.0.1:7777");
    let x = client.send(&[1, 2, 3]);
    assert_eq!(x.frame, vec![0x91, 0x16, 0x10, 0x83, 0, 0, 0, 0, 0, 0, 0, 3, 1, 2, 3]);
    assert_eq!(x.sent_len, 3);
    assert_eq!(x.stage, AckStage::AwaitHeader);
    assert_eq!(x.want(), 4);
}

#[test]
fn frame_round_trip_lengths() {
    let client = Client::new("h:1");
    for len in [0usize, 1, 48, 300, 70000] {
        let data = vec![0xabu8; len];
        let mut x = client.send(&data);
        let (server, r) = serve(&x.frame);
        assert_eq!(r, Ok(()));
        assert_eq!(server.stage, FrameStage::Complete);
        assert_eq!(server.payload, data);
        let ack = server.ack();
        assert_eq!(u64::from_be_bytes(ack[4..12].try_into().unwrap()), len as u64);
        assert_eq!(check_ack(&mut x, &ack), Ok(()));
        assert_eq!(x.stage, AckStage::Accepted);
        assert_eq!(x.want(), 0);
    }
}

#[test]
fn cap_is_enforced() {
    let mut server = ServerExchange::new();
    server.feed(&MAGIC_HEADER).unwrap();
    assert_eq!(server.want(), 8);
    assert_eq!(server.feed(&(LENGTH_CAP + 1).to_be_bytes()), Err(FileTransferError::InvalidLength));
    assert_eq!(server.stage, FrameStage::AwaitLength);
    assert_eq!(server.feed(&u64::MAX.to_be_bytes()), Err(FileTransferError::InvalidLength));
    assert_eq!(server.feed(&LENGTH_CAP.to_be_bytes()), Ok(()));
    assert_eq!(server.stage, FrameStage::AwaitPayload);
    assert_eq!(server.want(), 1024 * 1024 * 1024);
}

#[test]
fn header_mismatch_on_both_sides() {
    let mut server = ServerExchange::new();
    assert_eq!(server.feed(b"GET "), Err(FileTransferError::InvalidHeader));
    assert_eq!(server.stage, FrameStage::AwaitHeader);
    let mut client = Client::new("h:1").send(b"abc");
    assert_eq!(client.feed(&[0x91, 0x16, 0x10, 0x84]), Err(FileTransferError::InvalidHeader));
    assert_eq!(client.stage, AckStage::AwaitHeader);
}

#[test]
fn ack_length_and_ok_mismatch() {
    let mut client = Client::new("h:1").send(b"abc");
    client.feed(&MAGIC_HEADER).unwrap();
    assert_eq!(client.feed(&4u64.to_be_bytes()), Err(FileTransferError::InvalidLength));
    assert_eq!(client.feed(&3u64.to_be_bytes()), Ok(()));
    assert_eq!(client.want(), 2);
    assert_eq!(client.feed(b"NO"), Err(FileTransferError::Generic));
    assert_eq!(client.feed(b"OK"), Ok(()));
    assert!(client.is_accepted());
    assert_eq!(client.feed(b"OK"), Err(FileTransferError::Generic));
}

#[test]
fn server_payload_length_and_reuse() {
    let mut server = ServerExchange::new();
    server.feed(&MAGIC_HEADER).unwrap();
    server.feed(&2u64.to_be_bytes()).unwrap();
    assert_eq!(server.feed(&[1, 2, 3]), Err(FileTransferError::InvalidLength));
    assert_eq!(server.feed(&[1, 2]), Ok(()));
    assert!(server.is_complete());
    assert_eq!(server.want(), 0);
    assert_eq!(server.feed(&[1]), Err(FileTransferError::Generic));
    assert_eq!(server.ack(), vec![0x91, 0x16, 0x10, 0x83, 0, 0, 0, 0, 0, 0, 0, 2, b'O', b'K']);
}
