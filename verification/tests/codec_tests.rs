use nostrachat::codec;
use nostrachat::hexcode::{hex_decode, hex_encode};

fn material() -> Vec<u8> {
    (0u8..=255u8).collect()
}

#[test]
fn hex_encodes_known_bytes() {
    assert_eq!(hex_encode(&vec![0x00, 0xff, 0x2a]), b"00ff2a".to_vec());
    assert_eq!(hex_encode(&vec![]), b"".to_vec());
}

#[test]
fn hex_decodes_known_text() {
    assert_eq!(hex_decode(&b"00ff2a".to_vec()), Some(vec![0x00, 0xff, 0x2a]));
    assert_eq!(hex_decode(&b"00FF2A".to_vec()), Some(vec![0x00, 0xff, 0x2a]));
}

#[test]
fn hex_rejects_odd_length() {
    assert_eq!(hex_decode(&b"abc".to_vec()), None);
}

#[test]
fn hex_rejects_bad_digit() {
    assert_eq!(hex_decode(&b"zz".to_vec()), None);
}

#[test]
fn hex_round_trips() {
    let data: Vec<u8> = (0u8..=255u8).collect();
    assert_eq!(hex_decode(&hex_encode(&data)), Some(data));
}

#[test]
fn codec_round_trips_arbitrary_plaintext() {
    let m = material();
    let plaintexts: Vec<Vec<u8>> = vec![
        b"".to_vec(),
        b"hello world".to_vec(),
        (0u8..=255u8).collect(),
        vec![0u8; 1000],
    ];
    for p in plaintexts {
        let wire = codec::encode(&p, &m);
        assert_eq!(codec::decode(&wire, &m), Some(p));
    }
}

#[test]
fn codec_decode_rejects_malformed_wire_text() {
    let m = material();
    assert_eq!(codec::decode(&b"abc".to_vec(), &m), None);
    assert_eq!(codec::decode(&b"g0".to_vec(), &m), None);
}

#[test]
fn codec_encode_actually_transforms() {
    // The wire text is the hex of the keystreamed bytes, not of the
    // plaintext: with nonzero key material they must differ.
    let m = material();
    let p = b"aa".to_vec();
    let wire = codec::encode(&p, &m);
    assert_ne!(wire, hex_encode(&p));
}
