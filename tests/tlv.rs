use tetrust::tlv::{decode_one, encode, TlvError};

#[test]
fn encode_trivial() {
    let result = encode(1, 2, &[23, 42]);
    let encoded: [u8; 4] = [1, 2, 23, 42];
    assert_eq!(result.len(), 4);
    assert_eq!(&encoded[..], &result[..]);
}

#[test]
fn decode_one_tlv() {
    let mut buf: Vec<u8> = Vec::new();
    buf.resize(4, 0);
    buf.copy_from_slice(&[1, 2, 23, 42]);
    let result = decode_one(&buf);
    assert_eq!(result.is_ok(), true);
    assert_eq!(result.unwrap(), (1, 2, vec![23, 42]));
}

#[test]
fn decode_reports_missing_header() {
    assert_eq!(decode_one(&[]), Err(TlvError::MissingHeader));
    assert_eq!(decode_one(&[7]), Err(TlvError::MissingHeader));
}

#[test]
fn decode_reports_truncated_value() {
    assert_eq!(decode_one(&[7, 3, 1, 2]), Err(TlvError::TruncatedValue));
}

#[test]
fn decode_reads_only_the_first_record() {
    let mut bytes = encode(9, 1, &[5]);
    bytes.extend(encode(4, 0, &[]));
    assert_eq!(decode_one(&bytes), Ok((9, 1, vec![5])));
}
