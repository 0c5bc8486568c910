use dgit::hexcode::decode;
use dgit::HexDecodeError;

#[test]
fn decode_exact_bytes() {
    let r = decode(&b"cdef01".to_vec());
    assert_eq!(r, Ok(vec![0xcd, 0xef, 0x01]));
}

#[test]
fn decode_empty_name() {
    assert_eq!(decode(&Vec::new()), Ok(Vec::new()));
}

#[test]
fn decode_mixed_case() {
    assert_eq!(decode(&b"aB9F".to_vec()), Ok(vec![0xab, 0x9f]));
}

#[test]
fn decode_odd_length() {
    assert_eq!(decode(&b"abc".to_vec()), Err(HexDecodeError::OddLength));
    assert_eq!(decode(&b"a".to_vec()), Err(HexDecodeError::OddLength));
}

#[test]
fn decode_invalid_character_position() {
    assert_eq!(
        decode(&b"abzd".to_vec()),
        Err(HexDecodeError::InvalidHexCharacter { byte: b'z', index: 2 })
    );
    assert_eq!(
        decode(&b"zz".to_vec()),
        Err(HexDecodeError::InvalidHexCharacter { byte: b'z', index: 0 })
    );
}

#[test]
fn decode_agrees_with_hex_crate_on_success() {
    for name in ["cdef01", "00", "ffff", "aB9F", ""] {
        let ours = decode(&name.as_bytes().to_vec());
        let theirs = hex::decode(name);
        assert_eq!(ours.unwrap(), theirs.unwrap());
    }
}

#[test]
fn decode_agrees_with_hex_crate_on_failure() {
    assert!(hex::decode("abc").is_err());
    assert!(decode(&b"abc".to_vec()).is_err());
    match (hex::decode("abzd"), decode(&b"abzd".to_vec())) {
        (
            Err(hex::FromHexError::InvalidHexCharacter { c, index }),
            Err(HexDecodeError::InvalidHexCharacter { byte, index: ours }),
        ) => {
            assert_eq!(c, 'z');
            assert_eq!(byte, b'z');
            assert_eq!(index, ours);
        }
        other => panic!("unexpected outcomes: {:?}", other),
    }
}
