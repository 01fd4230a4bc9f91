use u2f_manager::encoder::{encode_register_response, AttestationResult, U2fAttestationStatement};

fn attestation(
    public_key: Vec<u8>,
    credential_id: Vec<u8>,
    certificate: Vec<u8>,
    signature: Vec<u8>,
) -> AttestationResult {
    AttestationResult {
        public_key,
        credential_id,
        att_statement: U2fAttestationStatement { certificates: vec![certificate], signature },
    }
}

#[test]
fn round_trip_matches_documented_layout() {
    let att = attestation(
        vec![1, 2, 3, 4],
        vec![9, 9],
        vec![0xDE, 0xAD],
        vec![0xBE, 0xEF],
    );
    let encoded = encode_register_response(&att);
    assert_eq!(
        encoded,
        vec![0x05, 1, 2, 3, 4, 2, 9, 9, 0xDE, 0xAD, 0xBE, 0xEF]
    );
}

#[test]
fn reserved_byte_leads_every_response() {
    let att = attestation(vec![], vec![], vec![], vec![]);
    let encoded = encode_register_response(&att);
    assert_eq!(encoded[0], 0x05);
}

#[test]
fn length_prefix_equals_credential_id_length() {
    let att = attestation(vec![0x11; 65], vec![0xAB; 255], vec![0x30], vec![0x01]);
    let encoded = encode_register_response(&att);
    assert_eq!(encoded[1 + 65], 255);
    assert_eq!(encoded.len(), 1 + 65 + 1 + 255 + 1 + 1);
}

#[test]
fn empty_credential_id_gets_zero_length_byte() {
    let att = attestation(vec![7], vec![], vec![8], vec![9]);
    let encoded = encode_register_response(&att);
    assert_eq!(encoded, vec![0x05, 7, 0, 8, 9]);
}

#[test]
fn first_certificate_of_the_chain_is_written() {
    let att = AttestationResult {
        public_key: vec![1],
        credential_id: vec![2],
        att_statement: U2fAttestationStatement {
            certificates: vec![vec![0xAA], vec![0xBB]],
            signature: vec![0xCC],
        },
    };
    let encoded = encode_register_response(&att);
    assert_eq!(encoded, vec![0x05, 1, 1, 2, 0xAA, 0xCC]);
}
