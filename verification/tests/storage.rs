use pam_rustface::error::RustfaceError;
use pam_rustface::storage::{
    chown_target, decode_embedding, encode_embedding, FaceStore, FACES_DIR, MAX_EMBEDDING_DIM,
    SHORT_FILE,
};

fn bits(v: &[f32]) -> Vec<u32> {
    v.iter().map(|x| x.to_bits()).collect()
}

#[test]
fn encode_layout_is_dimension_then_words() {
    let bytes = encode_embedding(&vec![0x04030201, 0xdeadbeef]);
    assert_eq!(
        bytes,
        vec![2, 0, 0, 0, 0x01, 0x02, 0x03, 0x04, 0xef, 0xbe, 0xad, 0xde]
    );
}

#[test]
fn encode_matches_f32_le_bytes() {
    let v = [0.5f32, -1.25, 3.0e-7];
    let mut expected = (v.len() as u32).to_le_bytes().to_vec();
    for x in v {
        expected.extend_from_slice(&x.to_le_bytes());
    }
    assert_eq!(encode_embedding(&bits(&v)), expected);
}

#[test]
fn storage_roundtrip() {
    let v: Vec<f32> = (0..512).map(|i| (i as f32 - 256.0) / 97.0).collect();
    let words = bits(&v);
    let back = decode_embedding(&encode_embedding(&words)).unwrap();
    assert_eq!(back, words);
    let floats: Vec<f32> = back.into_iter().map(f32::from_bits).collect();
    assert_eq!(floats, v);
}

#[test]
fn roundtrip_at_largest_dimension() {
    let words: Vec<u32> = (0..MAX_EMBEDDING_DIM).collect();
    assert_eq!(decode_embedding(&encode_embedding(&words)).unwrap(), words);
}

#[test]
fn decode_ignores_trailing_bytes() {
    let mut bytes = encode_embedding(&vec![7, 8]);
    let prefix = bytes.clone();
    bytes.extend_from_slice(&[1, 2, 3]);
    let words = decode_embedding(&bytes).unwrap();
    assert_eq!(words, vec![7, 8]);
    assert_eq!(encode_embedding(&words), prefix);
}

#[test]
fn decode_short_header_is_storage_read() {
    match decode_embedding(&vec![1, 0, 0]) {
        Err(RustfaceError::StorageRead(m)) => assert_eq!(m, SHORT_FILE),
        other => panic!("unexpected {other:?}"),
    }
}

#[test]
fn decode_zero_dimension_is_rejected() {
    match decode_embedding(&vec![0, 0, 0, 0, 1, 2, 3, 4]) {
        Err(RustfaceError::OnnxError(m)) => assert_eq!(m, "Invalid embedding dimension: 0"),
        other => panic!("unexpected {other:?}"),
    }
    // writing an empty embedding gives a file that does not read back
    assert!(decode_embedding(&encode_embedding(&vec![])).is_err());
}

#[test]
fn decode_too_large_dimension_is_rejected() {
    let mut bytes = 4097u32.to_le_bytes().to_vec();
    bytes.extend(std::iter::repeat(0u8).take(4 * 4097));
    match decode_embedding(&bytes) {
        Err(RustfaceError::OnnxError(m)) => assert_eq!(m, "Invalid embedding dimension: 4097"),
        other => panic!("unexpected {other:?}"),
    }
    let words: Vec<u32> = vec![0; 4097];
    assert!(decode_embedding(&encode_embedding(&words)).is_err());
}

#[test]
fn decode_short_body_is_storage_read() {
    match decode_embedding(&vec![2, 0, 0, 0, 1, 2, 3, 4, 5]) {
        Err(RustfaceError::StorageRead(m)) => assert_eq!(m, "failed to fill whole buffer"),
        other => panic!("unexpected {other:?}"),
    }
}

#[test]
fn user_path_in_default_store() {
    let store = FaceStore::default();
    assert_eq!(store.user_path("alice"), "/etc/rustface/faces/alice.bin");
    assert_eq!(FACES_DIR, "/etc/rustface/faces");
}

#[test]
fn user_path_joins_like_pathbuf() {
    for (base, user) in [
        ("/etc/rustface/faces", "alice"),
        ("/tmp/faces/", "bob"),
        ("", "carol"),
        ("/tmp", "/abs/evil"),
        ("/tmp", ""),
        ("rel", "a/b"),
    ] {
        let store = FaceStore::new(base);
        let expected = std::path::PathBuf::from(base).join(format!("{user}.bin"));
        assert_eq!(store.user_path(user), expected.to_str().unwrap(), "{base:?} {user:?}");
    }
}

#[test]
fn chown_only_for_safe_names() {
    assert_eq!(chown_target("alice"), Some("alice:alice".to_string()));
    assert_eq!(chown_target("a_b-9"), Some("a_b-9:a_b-9".to_string()));
    assert_eq!(chown_target("-rf"), None);
    assert_eq!(chown_target("a.b"), None);
    assert_eq!(chown_target("a b"), None);
    assert_eq!(chown_target("ü"), None);
    assert_eq!(chown_target(""), Some(":".to_string()));
}
