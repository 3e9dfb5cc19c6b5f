use base64::Engine as _;
use ethereum_prover::{decode_proof, decompress_proof, encode_proof, ProverError};
use flate2::read::GzDecoder;
use std::io::Read;

#[test]
fn encode_proof_roundtrips() {
    let input = b"proof-bytes-test-vector";
    let encoded = encode_proof(input).expect("encode proof");
    let decoded = base64::engine::general_purpose::STANDARD
        .decode(encoded)
        .expect("decode base64");
    let mut decoder = GzDecoder::new(decoded.as_slice());
    let mut output = Vec::new();
    decoder.read_to_end(&mut output).expect("decompress");
    assert_eq!(output, input);
}

#[test]
fn encoded_proof_is_base64_of_a_gzip_stream() {
    let encoded = encode_proof(b"abc").unwrap();
    assert_ne!(encoded.as_bytes(), b"abc");
    let raw = base64::engine::general_purpose::STANDARD.decode(&encoded).unwrap();
    // gzip magic number
    assert_eq!(&raw[..2], &[0x1f, 0x8b]);
    assert_ne!(raw, b"abc");
}

#[test]
fn decode_proof_inverts_encode_proof() {
    for input in [Vec::new(), vec![0u8], b"proof-bytes-test-vector".to_vec(), vec![7u8; 10_000]] {
        let encoded = encode_proof(&input).unwrap();
        assert_eq!(decode_proof(&encoded).unwrap(), input);
    }
}

#[test]
fn decode_proof_rejects_garbage() {
    assert_eq!(decode_proof("not base64!"), Err(ProverError::ProofEncoding));
    let not_gzip = base64::engine::general_purpose::STANDARD.encode(b"plain bytes");
    assert_eq!(decode_proof(&not_gzip), Err(ProverError::ProofEncoding));
}

#[test]
fn decompress_proof_reads_a_gzip_stream() {
    let encoded = encode_proof(b"payload").unwrap();
    let raw = base64::engine::general_purpose::STANDARD.decode(&encoded).unwrap();
    assert_eq!(decompress_proof(&raw).unwrap(), b"payload".to_vec());
    assert_eq!(decompress_proof(b"payload"), Err(ProverError::ProofEncoding));
}

#[test]
fn encode_proof_succeeds_on_empty_and_large_inputs() {
    assert!(encode_proof(&[]).is_ok());
    let big: Vec<u8> = (0..200_000u32).map(|i| (i * 31 % 251) as u8).collect();
    let encoded = encode_proof(&big).unwrap();
    assert_eq!(decode_proof(&encoded).unwrap(), big);
}
