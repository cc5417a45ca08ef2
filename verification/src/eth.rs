//! Elliptic-curve primitives over secp256k1 and Keccak-256, as the
//! host-ABI `eth.*` library exposes them to guests.
//!
//! Keys, hashes and signatures are held as plain byte strings; the curve
//! and digest computations themselves are calls into libsecp256k1 and
//! tiny-keccak behind named, trusted contracts.

use vstd::prelude::*;

use tiny_keccak::Hasher;
use vstd::string::StringSliceAdditionalSpecFns;

use crate::error::Error;
use crate::guestmem::{obj_bytes, obj_ok};
use crate::hex::{bytes_to_hex, hex_decodable, hex_decoded, hex_of, hex_to_bytes};

verus! {

/// The Keccak-256 digest of a byte string; 32 bytes.
pub uninterp spec fn keccak_of(data: Seq<u8>) -> Seq<u8>;

/// Whether a byte string forms a valid secret key.
pub uninterp spec fn secret_key_ok(s: Seq<u8>) -> bool;

/// The 65-byte serialised public key of a valid secret key.
pub uninterp spec fn pubkey_of(secret: Seq<u8>) -> Seq<u8>;

/// What signing a 32-byte hash with a valid secret key yields: the
/// 64-byte `r||s` signature and the recovery id. Signing is
/// deterministic, so this is a function of its arguments.
pub uninterp spec fn secp_sign_of(secret: Seq<u8>, hash: Seq<u8>) -> (Seq<u8>, u8);

/// What recovering a public key from a hash, a 64-byte signature and a
/// recovery id yields: the 65-byte serialised key, or nothing when the
/// signature or id is rejected.
pub uninterp spec fn secp_recover_of(hash: Seq<u8>, sig: Seq<u8>, recid: u8) -> Option<Seq<u8>>;

/// What parsing a serialised public key yields: the 65-byte normalised
/// form, or nothing when the bytes are rejected.
pub uninterp spec fn pubkey_parse_of(data: Seq<u8>) -> Option<Seq<u8>>;

/// Whether 64 bytes parse as a standard (non-overflowing) signature.
pub uninterp spec fn sig_parse_ok(data: Seq<u8>) -> bool;

/// What the SHA-256-derived ECDH shared secret of a secret and a public
/// key is, or nothing when either key is rejected.
pub uninterp spec fn shared_secret_of(secret: Seq<u8>, pubkey: Seq<u8>) -> Option<Seq<u8>>;

/// Relies on `tiny_keccak::Keccak::v256`: the 32-byte Keccak-256 digest,
/// a function of the input alone.
#[verifier::external_body]
fn keccak256(data: &[u8]) -> (r: Vec<u8>)
    ensures
        r@ == keccak_of(data@),
        r@.len() == 32,
{
    let mut hasher = tiny_keccak::Keccak::v256();
    hasher.update(data);
    let mut out = [0u8; 32];
    hasher.finalize(&mut out);
    out.to_vec()
}

/// Relies on `libsecp256k1::SecretKey::parse_slice`: succeeds exactly on
/// the byte strings that form a valid secret key.
#[verifier::external_body]
fn secp_secret_check(data: &[u8]) -> (r: bool)
    ensures
        r == secret_key_ok(data@),
{
    libsecp256k1::SecretKey::parse_slice(data).is_ok()
}

/// Relies on `libsecp256k1::SecretKey::random` and `serialize`: draws
/// until the bytes form a valid key, so the result always parses.
#[verifier::external_body]
fn secp_random_secret() -> (r: Vec<u8>)
    ensures
        r@.len() == 32,
        secret_key_ok(r@),
{
    libsecp256k1::SecretKey::random(&mut rand::thread_rng()).serialize().to_vec()
}

/// Relies on `libsecp256k1::PublicKey::from_secret_key` and
/// `PublicKey::serialize`: the full 65-byte public key of a valid secret
/// key, a function of the secret alone.
#[verifier::external_body]
fn secp_pubkey_of_secret(secret: &[u8]) -> (r: Option<Vec<u8>>)
    ensures
        r is Some <==> secret_key_ok(secret@),
        r matches Some(p) ==> p@ == pubkey_of(secret@) && p@.len() == 65,
{
    let sk = match libsecp256k1::SecretKey::parse_slice(secret) {
        Ok(k) => k,
        Err(_) => return None,
    };
    Some(libsecp256k1::PublicKey::from_secret_key(&sk).serialize().to_vec())
}

/// Relies on `libsecp256k1::sign` (deterministic, RFC 6979) with
/// `Signature::serialize` and `RecoveryId::serialize`: succeeds exactly
/// when the secret parses, and the id stays below 4. The signature's
/// halves are reduced scalars, so its serialisation re-parses as a
/// standard signature.
#[verifier::external_body]
fn secp_sign(secret: &[u8], hash: &[u8]) -> (r: Option<(Vec<u8>, u8)>)
    requires
        hash@.len() == 32,
    ensures
        r is Some <==> secret_key_ok(secret@),
        r matches Some(p) ==> (p.0@, p.1) == secp_sign_of(secret@, hash@) && p.0@.len() == 64
            && p.1 < 4 && sig_parse_ok(p.0@),
{
    let sk = match libsecp256k1::SecretKey::parse_slice(secret) {
        Ok(k) => k,
        Err(_) => return None,
    };
    let msg = libsecp256k1::Message::parse_slice(hash).unwrap();
    let (sig, rid) = libsecp256k1::sign(&msg, &sk);
    Some((sig.serialize().to_vec(), rid.serialize()))
}

/// Relies on `libsecp256k1::recover` with
/// `Signature::parse_standard_slice` and `RecoveryId::parse`: a function
/// of hash, signature bytes and id alone.
#[verifier::external_body]
fn secp_recover(hash: &[u8], sig: &[u8], recid: u8) -> (r: Option<Vec<u8>>)
    requires
        hash@.len() == 32,
    ensures
        r is Some <==> secp_recover_of(hash@, sig@, recid) is Some,
        r matches Some(p) ==> Some(p@) == secp_recover_of(hash@, sig@, recid) && p@.len() == 65,
{
    let msg = libsecp256k1::Message::parse_slice(hash).unwrap();
    let s = match libsecp256k1::Signature::parse_standard_slice(sig) {
        Ok(s) => s,
        Err(_) => return None,
    };
    let id = match libsecp256k1::RecoveryId::parse(recid) {
        Ok(i) => i,
        Err(_) => return None,
    };
    match libsecp256k1::recover(&msg, &s, &id) {
        Ok(p) => Some(p.serialize().to_vec()),
        Err(_) => None,
    }
}

/// Relies on `libsecp256k1::Signature::parse_standard_slice`: succeeds
/// exactly on 64 bytes whose halves stay below the curve order.
#[verifier::external_body]
fn secp_sig_check(data: &[u8]) -> (r: bool)
    ensures
        r == sig_parse_ok(data@),
{
    libsecp256k1::Signature::parse_standard_slice(data).is_ok()
}

/// Relies on `libsecp256k1::PublicKey::parse_slice` and `serialize`: the
/// normalised 65-byte form, a function of the bytes alone.
#[verifier::external_body]
fn secp_pubkey_parse(data: &[u8]) -> (r: Option<Vec<u8>>)
    ensures
        r is Some <==> pubkey_parse_of(data@) is Some,
        r matches Some(p) ==> Some(p@) == pubkey_parse_of(data@) && p@.len() == 65,
{
    match libsecp256k1::PublicKey::parse_slice(data, None) {
        Ok(p) => Some(p.serialize().to_vec()),
        Err(_) => None,
    }
}

/// Relies on `libsecp256k1::SharedSecret::<sha2::Sha256>::new`: the
/// 32-byte derived secret, a function of the two keys alone.
#[verifier::external_body]
fn secp_shared_secret(secret: &[u8], pubkey: &[u8]) -> (r: Option<Vec<u8>>)
    ensures
        r is Some <==> shared_secret_of(secret@, pubkey@) is Some,
        r matches Some(p) ==> Some(p@) == shared_secret_of(secret@, pubkey@) && p@.len() == 32,
{
    let sk = match libsecp256k1::SecretKey::parse_slice(secret) {
        Ok(k) => k,
        Err(_) => return None,
    };
    let pk = match libsecp256k1::PublicKey::parse_slice(pubkey, None) {
        Ok(p) => p,
        Err(_) => return None,
    };
    match libsecp256k1::SharedSecret::<sha2::Sha256>::new(&pk, &sk) {
        Ok(s) => Some(s.as_ref().to_vec()),
        Err(_) => None,
    }
}

/// Relies on std's `TryFrom<&[u8]>` for `[u8; 20]`: succeeds exactly on
/// length 20 and preserves the bytes.
#[verifier::external_body]
fn slice_to_array20(s: &[u8]) -> (r: Option<[u8; 20]>)
    ensures
        r is Some <==> s@.len() == 20,
        r matches Some(a) ==> a@ == s@,
{
    match <[u8; 20]>::try_from(s) {
        Ok(a) => Some(a),
        Err(_) => None,
    }
}

/// A valid secret key, held as its 32 serialised bytes.
#[derive(Debug)]
pub struct SecretKey {
    bytes: Vec<u8>,
}

impl View for SecretKey {
    type V = Seq<u8>;

    closed spec fn view(&self) -> Seq<u8> {
        self.bytes@
    }
}

impl SecretKey {
    /// The bytes are 32 long and parse as a key.
    pub open spec fn wf(&self) -> bool {
        self@.len() == 32 && secret_key_ok(self@)
    }

    /// Accepts exactly the byte strings that form a valid secret key.
    pub fn from_slice(data: &[u8]) -> (r: Result<SecretKey, Error>)
        ensures
            r is Ok <==> (data@.len() == 32 && secret_key_ok(data@)),
            r matches Ok(k) ==> k@ == data@ && k.wf(),
            r matches Err(e) ==> e is GuestTrap,
    {
        if data.len() != 32 || !secp_secret_check(data) {
            return Err(Error::GuestTrap(String::from_str("invalid secret key")));
        }
        Ok(SecretKey { bytes: vstd::slice::slice_to_vec(data) })
    }

    /// Draws a fresh random key.
    pub fn random_new() -> (r: SecretKey)
        ensures
            r.wf(),
    {
        SecretKey { bytes: secp_random_secret() }
    }

    /// The key's 32 serialised bytes.
    pub fn serialize(&self) -> (r: Vec<u8>)
        ensures
            r@ == self@,
    {
        vstd::slice::slice_to_vec(self.bytes.as_slice())
    }
}

/// A public key, held in its full 65-byte serialised form.
#[derive(Debug)]
pub struct PublicKey {
    bytes: Vec<u8>,
}

impl View for PublicKey {
    type V = Seq<u8>;

    closed spec fn view(&self) -> Seq<u8> {
        self.bytes@
    }
}

impl PublicKey {
    /// The serialised form is 65 bytes.
    pub open spec fn wf(&self) -> bool {
        self@.len() == 65
    }

    /// The public key of a secret key.
    pub fn from_secret(secret: &SecretKey) -> (r: PublicKey)
        requires
            secret.wf(),
        ensures
            r@ == pubkey_of(secret@),
            r.wf(),
    {
        match secp_pubkey_of_secret(secret.bytes.as_slice()) {
            Some(p) => PublicKey { bytes: p },
            None => {
                proof {
                    assert(false);
                }
                PublicKey { bytes: Vec::new() }
            },
        }
    }

    /// Accepts any serialised form libsecp256k1 parses, normalising it
    /// to 65 bytes.
    pub fn parse_slice(data: &[u8]) -> (r: Result<PublicKey, Error>)
        ensures
            r is Ok <==> pubkey_parse_of(data@) is Some,
            r matches Ok(p) ==> Some(p@) == pubkey_parse_of(data@) && p.wf(),
            r matches Err(e) ==> e is GuestTrap,
    {
        match secp_pubkey_parse(data) {
            Some(p) => Ok(PublicKey { bytes: p }),
            None => Err(Error::GuestTrap(String::from_str("invalid public key"))),
        }
    }

    /// The key's 65 serialised bytes.
    pub fn serialize(&self) -> (r: Vec<u8>)
        ensures
            r@ == self@,
    {
        vstd::slice::slice_to_vec(self.bytes.as_slice())
    }
}

/// A 32-byte Keccak-256 message hash.
#[derive(Debug)]
pub struct EthHash {
    bytes: Vec<u8>,
}

impl View for EthHash {
    type V = Seq<u8>;

    closed spec fn view(&self) -> Seq<u8> {
        self.bytes@
    }
}

/// An Ethereum-style address: the last 20 bytes of the Keccak-256 digest
/// of the serialised public key without its leading tag byte.
pub open spec fn addr_of_pubkey(pubkey: Seq<u8>) -> Seq<u8> {
    keccak_of(pubkey.skip(1)).skip(12)
}

impl EthHash {
    /// The hash is exactly 32 bytes.
    pub open spec fn wf(&self) -> bool {
        self@.len() == 32
    }

    /// Accepts exactly 32-byte strings.
    pub fn parse_slice(bytes: &[u8]) -> (r: Result<EthHash, Error>)
        ensures
            r is Ok <==> bytes@.len() == 32,
            r matches Ok(h) ==> h@ == bytes@ && h.wf(),
            r matches Err(e) ==> e is GuestTrap,
    {
        if bytes.len() != 32 {
            return Err(Error::GuestTrap(String::from_str("invalid message hash")));
        }
        Ok(EthHash { bytes: vstd::slice::slice_to_vec(bytes) })
    }

    /// The hash of a personal message: the digest of the fixed prefix,
    /// the message's decimal length, and the message.
    pub fn personal_message(message: &[u8]) -> (r: EthHash)
        ensures
            r@ == keccak_of(
                personal_prefix() + dec_bytes_of(message@.len() as int) + message@,
            ),
            r.wf(),
    {
        let mut data = personal_prefix_exec();
        let len_bytes = u64_dec_bytes(message.len() as u64);
        append_slice(&mut data, len_bytes.as_slice());
        append_slice(&mut data, message);
        let h = keccak256(data.as_slice());
        EthHash { bytes: h }
    }

    /// Starts an incremental hash whose first part is the UTF-8 bytes of
    /// a signature string.
    pub fn build_with(signature: &str) -> (r: EthHashBuilder)
        ensures
            r.data@ == signature.spec_bytes(),
    {
        EthHashBuilder { data: vstd::slice::slice_to_vec(signature.as_bytes()) }
    }

    /// Signs the hash with a secret key, yielding a recoverable
    /// signature.
    pub fn sign_by(&self, secret: &SecretKey) -> (r: RecoverableSignature)
        requires
            self.wf(),
            secret.wf(),
        ensures
            (r.sig@, r.recid) == secp_sign_of(secret@, self@),
            r.wf_parts(),
    {
        match secp_sign(secret.bytes.as_slice(), self.bytes.as_slice()) {
            Some(p) => RecoverableSignature { sig: p.0, recid: p.1 },
            None => {
                proof {
                    assert(false);
                }
                RecoverableSignature { sig: Vec::new(), recid: 0 }
            },
        }
    }

    /// The hash's 32 bytes.
    pub fn serialize(&self) -> (r: Vec<u8>)
        ensures
            r@ == self@,
    {
        vstd::slice::slice_to_vec(self.bytes.as_slice())
    }
}

/// The digest of a signature string's UTF-8 bytes.
pub fn signature_hash(signature: &str) -> (r: EthHash)
    ensures
        r@ == keccak_of(signature.spec_bytes()),
        r.wf(),
{
    EthHash { bytes: keccak256(signature.as_bytes()) }
}

/// An incremental Keccak-256 input, hashed when built.
#[derive(Debug)]
pub struct EthHashBuilder {
    pub data: Vec<u8>,
}

impl EthHashBuilder {
    /// Appends more bytes to the input.
    pub fn add(self, content: &[u8]) -> (r: EthHashBuilder)
        ensures
            r.data@ == self.data@ + content@,
    {
        let mut data = self.data;
        append_slice(&mut data, content);
        EthHashBuilder { data }
    }

    /// Hashes everything added so far.
    pub fn build(self) -> (r: EthHash)
        ensures
            r@ == keccak_of(self.data@),
            r.wf(),
    {
        EthHash { bytes: keccak256(self.data.as_slice()) }
    }
}

/// The fixed prefix of a personal message: `\x19Ethereum Signed
/// Message:\n`.
pub open spec fn personal_prefix() -> Seq<u8> {
    seq![
        0x19u8, 0x45u8, 0x74u8, 0x68u8, 0x65u8, 0x72u8, 0x65u8, 0x75u8, 0x6du8, 0x20u8, 0x53u8,
        0x69u8, 0x67u8, 0x6eu8, 0x65u8, 0x64u8, 0x20u8, 0x4du8, 0x65u8, 0x73u8, 0x73u8, 0x61u8,
        0x67u8, 0x65u8, 0x3au8, 0x0au8,
    ]
}

/// Builds the personal-message prefix.
fn personal_prefix_exec() -> (r: Vec<u8>)
    ensures
        r@ == personal_prefix(),
{
    let mut v: Vec<u8> = Vec::new();
    v.push(0x19);
    v.push(0x45);
    v.push(0x74);
    v.push(0x68);
    v.push(0x65);
    v.push(0x72);
    v.push(0x65);
    v.push(0x75);
    v.push(0x6d);
    v.push(0x20);
    v.push(0x53);
    v.push(0x69);
    v.push(0x67);
    v.push(0x6e);
    v.push(0x65);
    v.push(0x64);
    v.push(0x20);
    v.push(0x4d);
    v.push(0x65);
    v.push(0x73);
    v.push(0x73);
    v.push(0x61);
    v.push(0x67);
    v.push(0x65);
    v.push(0x3a);
    v.push(0x0a);
    proof {
        assert(v@ =~= personal_prefix());
    }
    v
}

/// The ASCII decimal digits of a non-negative number.
pub open spec fn dec_bytes_of(n: int) -> Seq<u8>
    decreases n,
{
    if n < 10 {
        seq![(0x30 + if n >= 0 { n } else { 0 }) as u8]
    } else {
        dec_bytes_of(n / 10).push((0x30 + n % 10) as u8)
    }
}

/// Renders a number as ASCII decimal digits.
fn u64_dec_bytes(n: u64) -> (r: Vec<u8>)
    ensures
        r@ == dec_bytes_of(n as int),
    decreases n,
{
    if n < 10 {
        let mut v: Vec<u8> = Vec::new();
        v.push(0x30 + (n as u8));
        proof {
            assert(v@ =~= dec_bytes_of(n as int));
        }
        v
    } else {
        let mut v = u64_dec_bytes(n / 10);
        v.push(0x30 + ((n % 10) as u8));
        v
    }
}

/// Appends a slice's bytes to a vector.
fn append_slice(v: &mut Vec<u8>, s: &[u8])
    ensures
        final(v)@ == old(v)@ + s@,
{
    let mut i: usize = 0;
    while i < s.len()
        invariant
            i <= s@.len(),
            v@ == old(v)@ + s@.take(i as int),
        decreases s@.len() - i,
    {
        v.push(s[i]);
        i = i + 1;
        proof {
            assert(v@ =~= old(v)@ + s@.take(i as int));
        }
    }
    proof {
        assert(old(v)@ + s@.take(s@.len() as int) =~= old(v)@ + s@);
    }
}

/// An Ethereum-style 20-byte address.
#[derive(Debug, Clone, Copy, PartialEq, Eq, Hash)]
pub struct EthAddress {
    bytes: [u8; 20],
}

impl View for EthAddress {
    type V = Seq<u8>;

    closed spec fn view(&self) -> Seq<u8> {
        self.bytes@
    }
}

impl EthAddress {
    pub fn new(inner: [u8; 20]) -> (r: Self)
        ensures
            r@ == inner@,
    {
        EthAddress { bytes: inner }
    }

    /// The address as 40 lowercase hexadecimal digits.
    pub fn to_hex_string(&self) -> (r: String)
        ensures
            r@ == hex_of(self@),
    {
        bytes_to_hex(self.bytes.as_slice())
    }

    /// Accepts exactly 40 hexadecimal digits.
    pub fn from_hex(s: &str) -> (r: Result<Self, Error>)
        ensures
            r is Ok <==> (hex_decodable(s@) && s@.len() == 40),
            r matches Ok(a) ==> a@ == hex_decoded(s@),
            r matches Err(e) ==> e is GuestTrap,
    {
        let bytes = match hex_to_bytes(s) {
            Some(b) => b,
            None => {
                return Err(Error::GuestTrap(String::from_str("invalid hex address")));
            },
        };
        match slice_to_array20(bytes.as_slice()) {
            Some(a) => Ok(EthAddress { bytes: a }),
            None => Err(Error::GuestTrap(String::from_str("invalid address length"))),
        }
    }

    pub fn to_array(&self) -> (r: [u8; 20])
        ensures
            r@ == self@,
    {
        self.bytes
    }
}

/// Something with an Ethereum-style address.
pub trait ToEthAddress {
    /// When the address is defined.
    spec fn addr_wf(&self) -> bool;

    /// The address's 20 bytes.
    spec fn addr_spec(&self) -> Seq<u8>;

    fn to_eth_address(&self) -> (r: EthAddress)
        requires
            self.addr_wf(),
        ensures
            r@ == self.addr_spec(),
    ;
}

impl ToEthAddress for PublicKey {
    open spec fn addr_wf(&self) -> bool {
        self.wf()
    }

    open spec fn addr_spec(&self) -> Seq<u8> {
        addr_of_pubkey(self@)
    }

    fn to_eth_address(&self) -> (r: EthAddress) {
        let ser = self.serialize();
        let tail = vstd::slice::slice_subrange(ser.as_slice(), 1, 65);
        let hash = keccak256(tail);
        let addr = vstd::slice::slice_subrange(hash.as_slice(), 12, 32);
        match slice_to_array20(addr) {
            Some(a) => EthAddress { bytes: a },
            None => {
                proof {
                    assert(false);
                }
                EthAddress { bytes: [0u8; 20] }
            },
        }
    }
}

impl ToEthAddress for SecretKey {
    open spec fn addr_wf(&self) -> bool {
        self.wf()
    }

    open spec fn addr_spec(&self) -> Seq<u8> {
        addr_of_pubkey(pubkey_of(self@))
    }

    fn to_eth_address(&self) -> (r: EthAddress) {
        PublicKey::from_secret(self).to_eth_address()
    }
}

/// A signature from which the signing key can be recovered: 64 signature
/// bytes and a recovery id.
#[derive(Debug)]
pub struct RecoverableSignature {
    pub sig: Vec<u8>,
    pub recid: u8,
}

/// The recovery byte a 65-byte signature string carries, normalised:
/// RPC-offset values (at least 27) have the offset removed.
pub open spec fn recid_of_byte(v: u8) -> u8 {
    if v >= 27 {
        (v - 27) as u8
    } else {
        v
    }
}

/// Whether a recovery byte is acceptable in either raw or RPC-offset
/// form.
pub open spec fn recid_byte_ok(v: u8) -> bool {
    recid_of_byte(v) < 4
}

/// Whether 65 bytes form a parsable recoverable signature.
pub open spec fn rpc_sig_bytes_ok(b: Seq<u8>) -> bool {
    b.len() == 65 && sig_parse_ok(b.take(64)) && recid_byte_ok(b[64])
}

impl RecoverableSignature {
    /// The signature bytes parse and the id is in range.
    pub open spec fn wf_parts(&self) -> bool {
        self.sig@.len() == 64 && sig_parse_ok(self.sig@) && self.recid < 4
    }

    /// Parses `r||s||v`, accepting `v` raw or RPC-offset.
    pub fn from_bytes(bytes: &[u8]) -> (r: Result<Self, Error>)
        ensures
            r is Ok <==> rpc_sig_bytes_ok(bytes@),
            r matches Ok(s) ==> s.sig@ == bytes@.take(64) && s.recid == recid_of_byte(
                bytes@[64],
            ) && s.wf_parts(),
            r matches Err(e) ==> e is GuestTrap,
    {
        if bytes.len() != 65 {
            return Err(Error::GuestTrap(String::from_str("invalid signature length")));
        }
        let sig_part = vstd::slice::slice_subrange(bytes, 0, 64);
        if !secp_sig_check(sig_part) {
            return Err(Error::GuestTrap(String::from_str("invalid signature")));
        }
        let v = *vstd::slice::slice_index_get(bytes, 64);
        let recid: u8 = if v >= 27 {
            v - 27
        } else {
            v
        };
        if recid >= 4 {
            return Err(Error::GuestTrap(String::from_str("invalid recovery id")));
        }
        Ok(RecoverableSignature { sig: vstd::slice::slice_to_vec(sig_part), recid })
    }

    /// The signature and its raw recovery id as lowercase hexadecimal.
    pub fn to_hex(&self) -> (r: String)
        ensures
            r@ == hex_of(self.sig@.push(self.recid)),
    {
        let mut bytes = vstd::slice::slice_to_vec(self.sig.as_slice());
        bytes.push(self.recid);
        bytes_to_hex(bytes.as_slice())
    }

    /// The 65-byte RPC form: `r||s` then `(recovery id & 1) + 27`.
    pub fn serialize_rpc(&self) -> (r: Vec<u8>)
        requires
            self.wf_parts(),
        ensures
            r@ == self.sig@.push((self.recid % 2 + 27) as u8),
            r@.len() == 65,
    {
        let mut out = vstd::slice::slice_to_vec(self.sig.as_slice());
        out.push(self.recid % 2 + 27);
        out
    }

    /// Parses a hexadecimal signature string, with or without a `0x`
    /// prefix.
    pub fn from_hex(hex_str: &str) -> (r: Result<Self, Error>)
        ensures
            r is Ok <==> {
                let t = stripped_0x(hex_str@);
                hex_decodable(t) && rpc_sig_bytes_ok(hex_decoded(t))
            },
            r matches Ok(s) ==> {
                let t = stripped_0x(hex_str@);
                s.sig@ == hex_decoded(t).take(64) && s.recid == recid_of_byte(hex_decoded(t)[64])
                    && s.wf_parts()
            },
            r matches Err(e) ==> e is GuestTrap,
    {
        let n = hex_str.unicode_len();
        let stripped: &str = if n >= 2 && hex_str.get_char(0) == '0' && hex_str.get_char(1) == 'x' {
            hex_str.substring_char(2, n)
        } else {
            hex_str
        };
        proof {
            if hex_str@.len() >= 2 && hex_str@[0] == '0' && hex_str@[1] == 'x' {
                assert(hex_str@.subrange(2, n as int) =~= hex_str@.skip(2));
            }
            assert(stripped@ == stripped_0x(hex_str@));
        }
        let bytes = match hex_to_bytes(stripped) {
            Some(b) => b,
            None => {
                return Err(Error::GuestTrap(String::from_str("invalid hex signature")));
            },
        };
        Self::from_bytes(bytes.as_slice())
    }

    /// Recovers the signing public key of a message hash; fails exactly
    /// when the curve rejects the signature for that hash.
    pub fn recover_pub_key(&self, message_hash: &EthHash) -> (r: Result<PublicKey, Error>)
        requires
            message_hash.wf(),
        ensures
            r is Ok <==> secp_recover_of(message_hash@, self.sig@, self.recid) is Some,
            r matches Ok(p) ==> Some(p@) == secp_recover_of(message_hash@, self.sig@, self.recid)
                && p.wf(),
            r matches Err(e) ==> e is GuestTrap,
    {
        match secp_recover(message_hash.bytes.as_slice(), self.sig.as_slice(), self.recid) {
            Some(p) => Ok(PublicKey { bytes: p }),
            None => Err(Error::GuestTrap(String::from_str("unable to recover public key"))),
        }
    }
}

/// Reads a secret key out of guest memory; traps exactly when the
/// pointer is invalid or the bytes do not form a key.
pub fn decode_secret(mem: &[u8], ptr: u32) -> (r: Result<SecretKey, Error>)
    ensures
        r is Ok <==> (obj_ok(mem@, ptr as int) && obj_bytes(mem@, ptr as int).len() == 32
            && secret_key_ok(obj_bytes(mem@, ptr as int))),
        r matches Ok(k) ==> k@ == obj_bytes(mem@, ptr as int) && k.wf(),
        r matches Err(e) ==> e is GuestTrap,
{
    let bytes = match crate::guestmem::decode_slice(mem, ptr) {
        Ok(b) => b,
        Err(e) => {
            return Err(e);
        },
    };
    SecretKey::from_slice(bytes.as_slice())
}

/// Reads a public key out of guest memory; traps exactly when the
/// pointer is invalid or the bytes are rejected by the curve.
pub fn decode_pubkey(mem: &[u8], ptr: u32) -> (r: Result<PublicKey, Error>)
    ensures
        r is Ok <==> (obj_ok(mem@, ptr as int) && pubkey_parse_of(obj_bytes(mem@, ptr as int))
            is Some),
        r matches Ok(p) ==> Some(p@) == pubkey_parse_of(obj_bytes(mem@, ptr as int)) && p.wf(),
        r matches Err(e) ==> e is GuestTrap,
{
    let bytes = match crate::guestmem::decode_slice(mem, ptr) {
        Ok(b) => b,
        Err(e) => {
            return Err(e);
        },
    };
    PublicKey::parse_slice(bytes.as_slice())
}

/// Reads a 32-byte message hash out of guest memory; traps exactly when
/// the pointer is invalid or the object is not 32 bytes.
pub fn decode_hash(mem: &[u8], ptr: u32) -> (r: Result<EthHash, Error>)
    ensures
        r is Ok <==> (obj_ok(mem@, ptr as int) && obj_bytes(mem@, ptr as int).len() == 32),
        r matches Ok(h) ==> h@ == obj_bytes(mem@, ptr as int) && h.wf(),
        r matches Err(e) ==> e is GuestTrap,
{
    let bytes = match crate::guestmem::decode_slice(mem, ptr) {
        Ok(b) => b,
        Err(e) => {
            return Err(e);
        },
    };
    EthHash::parse_slice(bytes.as_slice())
}

/// The 65-byte RPC signature of a hash under a secret key: `r||s` then
/// `(recovery id & 1) + 27`.
pub open spec fn rpc_sig_of(secret: Seq<u8>, hash: Seq<u8>) -> Seq<u8> {
    secp_sign_of(secret, hash).0.push((secp_sign_of(secret, hash).1 % 2 + 27) as u8)
}

/// The payload of `eth.newKey`: a fresh valid 32-byte secret.
pub fn new_key_op() -> (r: Vec<u8>)
    ensures
        r@.len() == 32,
        secret_key_ok(r@),
{
    SecretKey::random_new().serialize()
}

/// The computation of `eth.prvToAddress`: reads a secret key out of
/// guest memory and renders its address as hex.
pub fn prv_to_address_op(mem: &[u8], ptr: u32) -> (r: Result<String, Error>)
    ensures
        r is Ok <==> (obj_ok(mem@, ptr as int) && obj_bytes(mem@, ptr as int).len() == 32
            && secret_key_ok(obj_bytes(mem@, ptr as int))),
        r matches Ok(s) ==> s@ == hex_of(addr_of_pubkey(pubkey_of(obj_bytes(mem@, ptr as int)))),
        r matches Err(e) ==> e is GuestTrap,
{
    let secret = match decode_secret(mem, ptr) {
        Ok(k) => k,
        Err(e) => {
            return Err(e);
        },
    };
    Ok(secret.to_eth_address().to_hex_string())
}

/// The computation of `eth.pubToAddress`: reads a public key out of
/// guest memory and renders its address as hex.
pub fn pub_to_address_op(mem: &[u8], ptr: u32) -> (r: Result<String, Error>)
    ensures
        r is Ok <==> (obj_ok(mem@, ptr as int) && pubkey_parse_of(obj_bytes(mem@, ptr as int))
            is Some),
        r matches Ok(s) ==> s@ == hex_of(
            addr_of_pubkey(pubkey_parse_of(obj_bytes(mem@, ptr as int)).unwrap()),
        ),
        r matches Err(e) ==> e is GuestTrap,
{
    let pubkey = match decode_pubkey(mem, ptr) {
        Ok(p) => p,
        Err(e) => {
            return Err(e);
        },
    };
    Ok(pubkey.to_eth_address().to_hex_string())
}

/// The computation of `eth.sign`: reads a secret key and a 32-byte hash
/// out of guest memory and yields the RPC-formatted signature.
pub fn sign_op(mem: &[u8], pk_ptr: u32, hash_ptr: u32) -> (r: Result<Vec<u8>, Error>)
    ensures
        r is Ok <==> {
            &&& obj_ok(mem@, pk_ptr as int)
            &&& obj_bytes(mem@, pk_ptr as int).len() == 32
            &&& secret_key_ok(obj_bytes(mem@, pk_ptr as int))
            &&& obj_ok(mem@, hash_ptr as int)
            &&& obj_bytes(mem@, hash_ptr as int).len() == 32
        },
        r matches Ok(b) ==> b@ == rpc_sig_of(
            obj_bytes(mem@, pk_ptr as int),
            obj_bytes(mem@, hash_ptr as int),
        ),
        r matches Err(e) ==> e is GuestTrap,
{
    let secret = match decode_secret(mem, pk_ptr) {
        Ok(k) => k,
        Err(e) => {
            return Err(e);
        },
    };
    let hash = match decode_hash(mem, hash_ptr) {
        Ok(h) => h,
        Err(e) => {
            return Err(e);
        },
    };
    Ok(hash.sign_by(&secret).serialize_rpc())
}

/// The computation of `eth.keccak256`: the digest of an object's bytes.
pub fn keccak_op(mem: &[u8], ptr: u32) -> (r: Result<Vec<u8>, Error>)
    ensures
        r is Ok <==> obj_ok(mem@, ptr as int),
        r matches Ok(b) ==> b@ == keccak_of(obj_bytes(mem@, ptr as int)),
        r matches Err(e) ==> e is GuestTrap,
{
    let bytes = match crate::guestmem::decode_slice(mem, ptr) {
        Ok(b) => b,
        Err(e) => {
            return Err(e);
        },
    };
    Ok(keccak256(bytes.as_slice()))
}

/// The computation of `eth.ecrecover`: reads a 32-byte hash and a
/// 65-byte `r||s||v` signature out of guest memory and yields the
/// recovered 65-byte public key.
pub fn ecrecover_op(mem: &[u8], hash_ptr: u32, sig_ptr: u32) -> (r: Result<Vec<u8>, Error>)
    ensures
        r is Ok <==> {
            &&& obj_ok(mem@, hash_ptr as int)
            &&& obj_bytes(mem@, hash_ptr as int).len() == 32
            &&& obj_ok(mem@, sig_ptr as int)
            &&& rpc_sig_bytes_ok(obj_bytes(mem@, sig_ptr as int))
            &&& secp_recover_of(
                obj_bytes(mem@, hash_ptr as int),
                obj_bytes(mem@, sig_ptr as int).take(64),
                recid_of_byte(obj_bytes(mem@, sig_ptr as int)[64]),
            ) is Some
        },
        r matches Ok(b) ==> Some(b@) == secp_recover_of(
            obj_bytes(mem@, hash_ptr as int),
            obj_bytes(mem@, sig_ptr as int).take(64),
            recid_of_byte(obj_bytes(mem@, sig_ptr as int)[64]),
        ),
        r matches Err(e) ==> e is GuestTrap,
{
    let hash = match decode_hash(mem, hash_ptr) {
        Ok(h) => h,
        Err(e) => {
            return Err(e);
        },
    };
    let sig_bytes = match crate::guestmem::decode_slice(mem, sig_ptr) {
        Ok(b) => b,
        Err(e) => {
            return Err(e);
        },
    };
    let sign = match RecoverableSignature::from_bytes(sig_bytes.as_slice()) {
        Ok(s) => s,
        Err(e) => {
            return Err(e);
        },
    };
    let pub_key = match sign.recover_pub_key(&hash) {
        Ok(p) => p,
        Err(e) => {
            return Err(e);
        },
    };
    Ok(pub_key.serialize())
}

/// The computation of `eth.bytesToHex`: an object's bytes as lowercase
/// hex.
pub fn bytes_to_hex_op(mem: &[u8], ptr: u32) -> (r: Result<String, Error>)
    ensures
        r is Ok <==> obj_ok(mem@, ptr as int),
        r matches Ok(s) ==> s@ == hex_of(obj_bytes(mem@, ptr as int)),
        r matches Err(e) ==> e is GuestTrap,
{
    let bytes = match crate::guestmem::decode_slice(mem, ptr) {
        Ok(b) => b,
        Err(e) => {
            return Err(e);
        },
    };
    Ok(bytes_to_hex(bytes.as_slice()))
}

/// The computation of `eth.sharedSecret`: reads a secret and a public
/// key out of guest memory and yields their derived shared secret.
pub fn shared_secret_op(mem: &[u8], prv_ptr: u32, pub_ptr: u32) -> (r: Result<Vec<u8>, Error>)
    ensures
        r is Ok <==> {
            &&& obj_ok(mem@, prv_ptr as int)
            &&& obj_ok(mem@, pub_ptr as int)
            &&& shared_secret_of(
                obj_bytes(mem@, prv_ptr as int),
                obj_bytes(mem@, pub_ptr as int),
            ) is Some
        },
        r matches Ok(b) ==> Some(b@) == shared_secret_of(
            obj_bytes(mem@, prv_ptr as int),
            obj_bytes(mem@, pub_ptr as int),
        ),
        r matches Err(e) ==> e is GuestTrap,
{
    let prv_bytes = match crate::guestmem::decode_slice(mem, prv_ptr) {
        Ok(b) => b,
        Err(e) => {
            return Err(e);
        },
    };
    let pub_bytes = match crate::guestmem::decode_slice(mem, pub_ptr) {
        Ok(b) => b,
        Err(e) => {
            return Err(e);
        },
    };
    match secp_shared_secret(prv_bytes.as_slice(), pub_bytes.as_slice()) {
        Some(s) => Ok(s),
        None => Err(Error::GuestTrap(String::from_str("unable to derive shared secret"))),
    }
}

/// A string view with a leading `0x` removed, if present.
pub open spec fn stripped_0x(s: Seq<char>) -> Seq<char> {
    if s.len() >= 2 && s[0] == '0' && s[1] == 'x' {
        s.skip(2)
    } else {
        s
    }
}

/// Serialising a signature to RPC form and parsing it back preserves the
/// signature bytes; the id survives exactly when it is 0 or 1, which is
/// all the RPC form can carry.
pub proof fn lemma_rpc_round_trip(s: RecoverableSignature)
    requires
        s.wf_parts(),
        s.recid < 2,
    ensures
        rpc_sig_bytes_ok(s.sig@.push((s.recid % 2 + 27) as u8)),
        hex_decoded(hex_of(s.sig@.push((s.recid % 2 + 27) as u8))) == s.sig@.push(
            (s.recid % 2 + 27) as u8,
        ),
        s.sig@.push((s.recid % 2 + 27) as u8).take(64) == s.sig@,
        recid_of_byte(s.sig@.push((s.recid % 2 + 27) as u8)[64]) == s.recid,
{
    let b = s.sig@.push((s.recid % 2 + 27) as u8);
    assert(b.take(64) =~= s.sig@);
    assert(b[64] == s.recid + 27);
    crate::hex::lemma_hex_round_trip(b);
}

} // verus!
