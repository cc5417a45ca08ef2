use ya_runtime_wasi::eth::{
    ecrecover_op, sign_op, EthAddress, EthHash, EthHashBuilder, PublicKey, RecoverableSignature,
    SecretKey, ToEthAddress,
};
use ya_runtime_wasi::guestmem::write_object;
use ya_runtime_wasi::hex::{bytes_to_hex, hex_to_bytes};

#[test]
fn hex_encoding_is_lowercase_and_exact() {
    assert_eq!(bytes_to_hex(&[0xde, 0xad, 0xbe, 0xef]), "deadbeef");
    assert_eq!(bytes_to_hex(&[]), "");
    assert_eq!(bytes_to_hex(&[0x00, 0x0f, 0xf0]), "000ff0");
}

#[test]
fn hex_decoding_accepts_both_cases_and_rejects_junk() {
    assert_eq!(hex_to_bytes("deadbeef").unwrap(), vec![0xde, 0xad, 0xbe, 0xef]);
    assert_eq!(hex_to_bytes("DEADBEEF").unwrap(), vec![0xde, 0xad, 0xbe, 0xef]);
    assert_eq!(hex_to_bytes("").unwrap(), Vec::<u8>::new());
    assert!(hex_to_bytes("abc").is_none());
    assert!(hex_to_bytes("zz").is_none());
}

#[test]
fn hex_round_trip() {
    let data: Vec<u8> = (0u8..=255).collect();
    assert_eq!(hex_to_bytes(&bytes_to_hex(&data)).unwrap(), data);
}

#[test]
fn keccak_of_empty_input_matches_the_known_digest() {
    let digest = EthHashBuilder { data: Vec::new() }.build();
    assert_eq!(
        bytes_to_hex(&digest.serialize()),
        "c5d2460186f7233c927e7db2dcc703c0e500b653ca82273b7bfad8045d85a470"
    );
}

#[test]
fn address_of_secret_key_one_matches_the_known_vector() {
    let mut secret_bytes = [0u8; 32];
    secret_bytes[31] = 1;
    let secret = SecretKey::from_slice(&secret_bytes).unwrap();
    let address = secret.to_eth_address();
    assert_eq!(
        address.to_hex_string(),
        "7e5f4552091a69125d5dfcb7b8c2659029395bdf"
    );
    let public = PublicKey::from_secret(&secret);
    assert_eq!(public.to_eth_address().to_hex_string(), address.to_hex_string());
}

#[test]
fn eth_address_hex_round_trip() {
    let addr = EthAddress::new([0xab; 20]);
    let hexed = addr.to_hex_string();
    assert_eq!(hexed.len(), 40);
    let back = EthAddress::from_hex(&hexed).unwrap();
    assert_eq!(back.to_array(), addr.to_array());
    assert!(EthAddress::from_hex("abcd").is_err());
    assert!(EthAddress::from_hex("0xnope").is_err());
}

#[test]
fn signature_round_trip_recovers_the_signing_key() {
    let secret = SecretKey::random_new();
    let hash = EthHash::parse_slice(&[0x11u8; 32]).unwrap();
    let signature = hash.sign_by(&secret);
    let recovered = signature.recover_pub_key(&hash).unwrap();
    let expected = PublicKey::from_secret(&secret);
    assert_eq!(recovered.serialize(), expected.serialize());
}

#[test]
fn rpc_serialisation_round_trip() {
    let secret = SecretKey::random_new();
    let hash = EthHash::parse_slice(&[0x22u8; 32]).unwrap();
    let signature = hash.sign_by(&secret);
    let rpc = signature.serialize_rpc();
    assert_eq!(rpc.len(), 65);
    assert!(rpc[64] == 27 || rpc[64] == 28);

    let parsed = RecoverableSignature::from_bytes(&rpc).unwrap();
    assert_eq!(parsed.sig, signature.sig);
    let recovered = parsed.recover_pub_key(&hash).unwrap();
    assert_eq!(
        recovered.serialize(),
        PublicKey::from_secret(&secret).serialize()
    );
}

#[test]
fn signature_hex_round_trip() {
    let secret = SecretKey::random_new();
    let hash = EthHash::parse_slice(&[0x33u8; 32]).unwrap();
    let signature = hash.sign_by(&secret);
    let hexed = signature.to_hex();
    assert_eq!(hexed.len(), 130);
    let back = RecoverableSignature::from_hex(&hexed).unwrap();
    assert_eq!(back.sig, signature.sig);
    assert_eq!(back.recid, signature.recid);

    let mut prefixed = String::from("0x");
    prefixed.push_str(&hexed);
    let back2 = RecoverableSignature::from_hex(&prefixed).unwrap();
    assert_eq!(back2.sig, signature.sig);
}

#[test]
fn signature_parsing_rejects_bad_input() {
    assert!(RecoverableSignature::from_bytes(&[0u8; 64]).is_err());
    let mut bad_v = [0x11u8; 65];
    bad_v[64] = 9;
    assert!(RecoverableSignature::from_bytes(&bad_v).is_err());
    assert!(RecoverableSignature::from_hex("zz").is_err());
}

#[test]
fn signature_hash_matches_the_builder() {
    let by_fn = ya_runtime_wasi::eth::signature_hash("transfer(address,uint256)");
    let by_builder = EthHash::build_with("transfer(address,uint256)").build();
    assert_eq!(by_fn.serialize(), by_builder.serialize());
}

#[test]
fn personal_message_matches_the_builder() {
    let message = b"abc";
    let by_method = EthHash::personal_message(message);
    let by_builder = EthHashBuilder { data: Vec::new() }
        .add(b"\x19Ethereum Signed Message:\n")
        .add(b"3")
        .add(message)
        .build();
    assert_eq!(by_method.serialize(), by_builder.serialize());
}

/// Lays out one guest object at the given pointer.
fn put_object(mem: &mut Vec<u8>, ptr: usize, payload: &[u8]) {
    let prefix = (payload.len() as u32).to_le_bytes();
    mem[ptr - 4..ptr].copy_from_slice(&prefix);
    write_object(mem, ptr as u32, payload).unwrap();
}

#[test]
fn sign_and_recover_through_guest_memory() {
    let secret = SecretKey::random_new();
    let mut mem = vec![0u8; 4096];
    put_object(&mut mem, 16, &secret.serialize());
    put_object(&mut mem, 128, &[0x44u8; 32]);

    let rpc = sign_op(&mem, 16, 128).unwrap();
    assert_eq!(rpc.len(), 65);

    put_object(&mut mem, 256, &rpc);
    let recovered = ecrecover_op(&mem, 128, 256).unwrap();
    assert_eq!(recovered, PublicKey::from_secret(&secret).serialize());
}

#[test]
fn guest_ops_trap_on_invalid_objects() {
    let mem = vec![0u8; 64];
    assert!(sign_op(&mem, 2, 16).is_err());
    assert!(ecrecover_op(&mem, 0, 16).is_err());
}

#[test]
fn typed_decoders_check_their_objects() {
    let secret = SecretKey::random_new();
    let mut mem = vec![0u8; 512];
    put_object(&mut mem, 16, &secret.serialize());
    put_object(&mut mem, 128, &[0x55u8; 32]);
    put_object(&mut mem, 256, &PublicKey::from_secret(&secret).serialize());

    let k = ya_runtime_wasi::eth::decode_secret(&mem, 16).unwrap();
    assert_eq!(k.serialize(), secret.serialize());
    let h = ya_runtime_wasi::eth::decode_hash(&mem, 128).unwrap();
    assert_eq!(h.serialize(), vec![0x55u8; 32]);
    let p = ya_runtime_wasi::eth::decode_pubkey(&mem, 256).unwrap();
    assert_eq!(p.serialize(), PublicKey::from_secret(&secret).serialize());

    // A 32-byte all-zero object is no secret key, and a short object no hash.
    put_object(&mut mem, 384, &[0u8; 32]);
    assert!(ya_runtime_wasi::eth::decode_secret(&mem, 384).is_err());
    put_object(&mut mem, 460, &[1u8; 8]);
    assert!(ya_runtime_wasi::eth::decode_hash(&mem, 460).is_err());
    assert!(ya_runtime_wasi::eth::decode_pubkey(&mem, 460).is_err());
}
