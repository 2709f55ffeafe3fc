use amalthea::wire::{msg_delimiter, JupyterMessage, MessageError};

fn sample(identities: Vec<Vec<u8>>) -> JupyterMessage {
    JupyterMessage {
        identities,
        header: br#"{"msg_id":"A","msg_type":"execute_request"}"#.to_vec(),
        parent_header: b"{}".to_vec(),
        metadata: b"{}".to_vec(),
        content: br#"{"code":"1+1"}"#.to_vec(),
        buffers: vec![vec![7u8, 8u8]],
    }
}

fn key() -> Option<Vec<u8>> {
    Some(b"secret-key".to_vec())
}

#[test]
fn missing_delimiter_is_refused() {
    let frames = vec![b"id".to_vec(), b"sig".to_vec()];
    let r = JupyterMessage::from_buffers(frames, None);
    assert!(matches!(r, Err(MessageError::MissingDelimiter)));
}

#[test]
fn signed_frames_round_trip() {
    let m = sample(vec![b"client-1".to_vec()]);
    let frames = m.to_frames(&key());
    assert_eq!(frames[1], msg_delimiter());
    assert_eq!(frames[2].len(), 64);
    let p = JupyterMessage::from_buffers(frames, key()).unwrap();
    assert_eq!(p.identities, m.identities);
    assert_eq!(p.header, m.header);
    assert_eq!(p.parent_header, m.parent_header);
    assert_eq!(p.metadata, m.metadata);
    assert_eq!(p.content, m.content);
    assert_eq!(p.buffers, m.buffers);
}

#[test]
fn unsigned_frames_round_trip() {
    let m = sample(vec![]);
    let frames = m.to_frames(&None);
    assert_eq!(frames[0], b"<IDS|MSG>".to_vec());
    assert!(frames[1].is_empty());
    let p = JupyterMessage::from_buffers(frames, None).unwrap();
    assert_eq!(p.header, m.header);
    assert!(p.identities.is_empty());
}

#[test]
fn no_key_accepts_any_signature() {
    let mut frames = sample(vec![]).to_frames(&None);
    frames[1] = b"not hex at all".to_vec();
    assert!(JupyterMessage::from_buffers(frames, None).is_ok());
}

#[test]
fn flipped_bit_in_each_json_frame_is_bad_signature() {
    let m = sample(vec![b"id".to_vec()]);
    for part in 3..7 {
        let mut frames = m.to_frames(&key());
        frames[part][0] ^= 0x01;
        let r = JupyterMessage::from_buffers(frames, key());
        assert!(matches!(r, Err(MessageError::BadSignature(_))), "frame {}", part);
    }
}

#[test]
fn flipped_bit_in_buffer_is_accepted() {
    let m = sample(vec![]);
    let mut frames = m.to_frames(&key());
    let last = frames.len() - 1;
    frames[last][0] ^= 0x01;
    assert!(JupyterMessage::from_buffers(frames, key()).is_ok());
}

#[test]
fn removed_delimiter_is_missing_delimiter() {
    let m = sample(vec![b"id".to_vec()]);
    let mut frames = m.to_frames(&key());
    frames.remove(1);
    let r = JupyterMessage::from_buffers(frames, key());
    assert!(matches!(r, Err(MessageError::MissingDelimiter)));
}

#[test]
fn zero_signature_is_bad_signature() {
    let m = sample(vec![b"id".to_vec()]);
    let mut frames = m.to_frames(&key());
    frames[2] = vec![b'0'; 64];
    match JupyterMessage::from_buffers(frames, key()) {
        Err(MessageError::BadSignature(d)) => assert_eq!(d, vec![0u8; 32]),
        _ => panic!("expected a bad signature"),
    }
}

#[test]
fn non_hex_signature_is_invalid_hmac() {
    let m = sample(vec![]);
    let mut frames = m.to_frames(&key());
    frames[1] = b"zz".to_vec();
    match JupyterMessage::from_buffers(frames, key()) {
        Err(MessageError::InvalidHmac(s)) => assert_eq!(s, b"zz".to_vec()),
        _ => panic!("expected an invalid signature"),
    }
}

#[test]
fn odd_length_signature_is_invalid_hmac() {
    let mut frames = sample(vec![]).to_frames(&key());
    frames[1] = b"abc".to_vec();
    let r = JupyterMessage::from_buffers(frames, key());
    assert!(matches!(r, Err(MessageError::InvalidHmac(_))));
}

#[test]
fn uppercase_signature_is_accepted() {
    let mut frames = sample(vec![]).to_frames(&key());
    frames[1] = frames[1].to_ascii_uppercase();
    assert!(JupyterMessage::from_buffers(frames, key()).is_ok());
}

#[test]
fn too_few_frames_after_delimiter() {
    let frames = vec![b"<IDS|MSG>".to_vec(), b"".to_vec(), b"{}".to_vec()];
    let r = JupyterMessage::from_buffers(frames, None);
    assert!(matches!(r, Err(MessageError::MissingFrames)));
}

#[test]
fn first_delimiter_splits_identities() {
    let frames = vec![
        b"a".to_vec(),
        b"<IDS|MSG>".to_vec(),
        b"".to_vec(),
        b"<IDS|MSG>".to_vec(),
        b"p".to_vec(),
        b"m".to_vec(),
        b"c".to_vec(),
    ];
    let p = JupyterMessage::from_buffers(frames, None).unwrap();
    assert_eq!(p.identities, vec![b"a".to_vec()]);
    assert_eq!(p.header, b"<IDS|MSG>".to_vec());
    assert_eq!(p.content, b"c".to_vec());
    assert!(p.buffers.is_empty());
}

#[test]
fn signature_matches_known_hmac() {
    // HMAC-SHA256 with key "Jefe" over "what do ya want for nothing?".
    let m = JupyterMessage {
        identities: vec![],
        header: b"what do ya want ".to_vec(),
        parent_header: b"for nothing?".to_vec(),
        metadata: vec![],
        content: vec![],
        buffers: vec![],
    };
    let sig = m.signature(&Some(b"Jefe".to_vec()));
    assert_eq!(
        sig,
        b"5bdcc146bf60754e6a042426089575c75a003f089d2739839dec58b964ec3843".to_vec()
    );
    assert_eq!(m.signed_data(), b"what do ya want for nothing?".to_vec());
}

#[test]
fn reply_keeps_request_identities() {
    let request = sample(vec![b"r1".to_vec(), b"r2".to_vec()]);
    let reply = JupyterMessage::reply_to(
        &request,
        br#"{"msg_type":"execute_reply"}"#.to_vec(),
        br#"{"status":"ok"}"#.to_vec(),
    );
    assert_eq!(reply.parent_header, request.header);
    assert_eq!(reply.metadata, b"{}".to_vec());
    let frames = reply.to_frames(&key());
    let back = JupyterMessage::from_buffers(frames, key()).unwrap();
    assert_eq!(back.identities, request.identities);
    assert_eq!(back.parent_header, request.header);
}

#[test]
fn broadcast_has_no_identities() {
    let b = JupyterMessage::broadcast(b"{\"msg_id\":\"A\"}".to_vec(), b"{}".to_vec(), b"{}".to_vec());
    assert!(b.identities.is_empty());
    let frames = b.to_frames(&None);
    assert_eq!(frames[0], msg_delimiter());
    assert_eq!(frames[3], b"{\"msg_id\":\"A\"}".to_vec());
}
