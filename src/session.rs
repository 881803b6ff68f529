use vstd::prelude::*;

use crate::bootstrap::{setup_request, setup_request_spec, BootstrapError, Endpoint};
use std::sync::atomic::{AtomicU64, Ordering};

verus! {

/// Relies on rand::random (the thread-local generator): any value of the
/// type may come back, so nothing is promised of it.
pub assume_specification<T>[ rand::random::<T> ]() -> (r: T)
    where
        rand::distr::StandardUniform: rand::distr::Distribution<T>,
;

/// The Ed25519 public key that belongs to a 32-byte secret key.
pub uninterp spec fn ed25519_public_key_of(secret: Seq<u8>) -> Seq<u8>;

/// Relies on ed25519_dalek::SigningKey::from_bytes and its verifying key:
/// the public key is derived from the secret bytes alone.
#[verifier::external_body]
fn public_key_of(secret: &[u8; 32]) -> (r: [u8; 32])
    ensures
        r@ == ed25519_public_key_of(secret@),
{
    ed25519_dalek::SigningKey::from_bytes(secret).verifying_key().to_bytes()
}

/// The binary property list of the mapping `{eiv, ekey, et, timingProtocol}`.
pub uninterp spec fn binary_plist_of(eiv: Seq<u8>, ekey: Seq<u8>, et: u64, timing_protocol: Seq<char>) -> Seq<u8>;

#[verifier::external_type_specification]
#[verifier::external_body]
pub struct ExPlistError(plist::Error);

/// Relies on plist::to_writer_binary over a plist::Dictionary with one entry
/// per field: the bytes depend on the fields alone, and the binary writer
/// fails only on an out-of-order event stream or an I/O error of its sink,
/// neither of which a string-keyed dictionary written into a `Vec` can give.
#[verifier::external_body]
fn encode_record(rec: &BootstrapRecord) -> (r: Result<Vec<u8>, plist::Error>)
    ensures
        r is Ok,
        r matches Ok(b) ==> b@ == binary_plist_of(rec.eiv@, rec.ekey@, rec.et, rec.timing_protocol@),
{
    let mut dict = plist::Dictionary::new();
    dict.insert("eiv".into(), plist::Value::Data(rec.eiv.clone()));
    dict.insert("ekey".into(), plist::Value::Data(rec.ekey.clone()));
    dict.insert("et".into(), plist::Value::Integer(rec.et.into()));
    dict.insert("timingProtocol".into(), plist::Value::String(rec.timing_protocol.clone()));
    let mut out = Vec::new();
    match plist::to_writer_binary(&mut out, &dict) {
        Ok(()) => Ok(out),
        Err(e) => Err(e),
    }
}

#[verifier::external_type_specification]
#[verifier::external_body]
pub struct ExChaCha20Poly1305(chacha20_poly1305::ChaCha20Poly1305);

/// Relies on chacha20_poly1305::ChaCha20Poly1305::new with Key::new and
/// Nonce::new, which only hold the bytes.
#[verifier::external_body]
fn make_cipher(key: [u8; 32], nonce: [u8; 12]) -> (r: chacha20_poly1305::ChaCha20Poly1305) {
    chacha20_poly1305::ChaCha20Poly1305::new(
        chacha20_poly1305::Key::new(key),
        chacha20_poly1305::Nonce::new(nonce),
    )
}

/// The text `NTP`.
pub open spec fn ntp() -> Seq<char> {
    seq!['N', 'T', 'P']
}

/// The mapping that the setup request carries.
pub struct BootstrapRecord {
    pub eiv: Vec<u8>,
    pub ekey: Vec<u8>,
    pub et: u64,
    pub timing_protocol: String,
}

impl BootstrapRecord {
    /// The record for a key and nonce: encryption type 0, timing over NTP.
    pub fn new(key: &[u8; 32], nonce: &[u8; 12]) -> (r: BootstrapRecord)
        ensures
            r.eiv@ == nonce@,
            r.ekey@ == key@,
            r.et == 0,
            r.timing_protocol@ == ntp(),
    {
        let mut eiv: Vec<u8> = Vec::new();
        let mut i: usize = 0;
        while i < 12
            invariant
                i <= 12,
                nonce@.len() == 12,
                eiv@ == nonce@.subrange(0, i as int),
            decreases 12 - i,
        {
            eiv.push(nonce[i]);
            i += 1;
            assert(eiv@ =~= nonce@.subrange(0, i as int));
        }
        let mut ekey: Vec<u8> = Vec::new();
        let mut j: usize = 0;
        while j < 32
            invariant
                j <= 32,
                key@.len() == 32,
                ekey@ == key@.subrange(0, j as int),
            decreases 32 - j,
        {
            ekey.push(key[j]);
            j += 1;
            assert(ekey@ =~= key@.subrange(0, j as int));
        }
        assert(eiv@ =~= nonce@);
        assert(ekey@ =~= key@);
        let timing_protocol = String::from_str("NTP");
        proof {
            reveal_strlit("NTP");
        }
        assert(timing_protocol@ =~= ntp());
        BootstrapRecord { eiv, ekey, et: 0, timing_protocol }
    }

    /// Its binary property list, which the codec always produces.
    pub fn encode(&self) -> (r: Result<Vec<u8>, BootstrapError>)
        ensures
            r is Ok,
            r matches Ok(b) ==> b@ == binary_plist_of(self.eiv@, self.ekey@, self.et, self.timing_protocol@),
    {
        match encode_record(self) {
            Ok(b) => Ok(b),
            Err(_) => Err(BootstrapError::EncodeFailed),
        }
    }
}

/// Numbers the requests of every session; shared by all of them.
pub struct SequenceCounter {
    value: AtomicU64,
}

impl SequenceCounter {
    /// A counter that starts at zero.
    pub fn new() -> (r: SequenceCounter) {
        SequenceCounter { value: AtomicU64::new(0) }
    }

    /// Takes the current number and advances the counter, in one atomic step.
    pub fn next(&self) -> (r: u64) {
        self.value.fetch_add(1, Ordering::AcqRel)
    }
}

/// The body of the key exchange call for a fresh signing key: the version
/// byte and the public key of a newly drawn secret.
pub fn fresh_auth_setup_body() -> (r: Vec<u8>)
    ensures
        exists|secret: Seq<u8>|
            secret.len() == 32 && r@ == seq![0x10u8] + ed25519_public_key_of(secret),
{
    let secret: [u8; 32] = rand::random();
    let body = auth_setup_body_for(&secret);
    assert(secret@.len() == 32 && body@ == seq![0x10u8] + ed25519_public_key_of(secret@));
    body
}

/// The body of the key exchange call for the signing key with secret `secret`.
pub fn auth_setup_body_for(secret: &[u8; 32]) -> (r: Vec<u8>)
    ensures
        r@ == seq![0x10u8] + ed25519_public_key_of(secret@),
{
    let public_key = public_key_of(secret);
    crate::bootstrap::auth_setup_body(&public_key)
}

/// A setup request ready to be written, with the key and nonce it negotiates.
pub struct PreparedSetup {
    pub key: [u8; 32],
    pub nonce: [u8; 12],
    pub sequence: u64,
    pub request: Vec<u8>,
}

/// Builds the setup request to `e` for a given key and nonce, numbered `seq`.
pub fn prepare_setup_with(e: Endpoint, key: [u8; 32], nonce: [u8; 12], seq: u64) -> (r: Result<PreparedSetup, BootstrapError>)
    ensures
        r is Ok,
        r matches Ok(p) ==> {
            &&& p.key == key
            &&& p.nonce == nonce
            &&& p.sequence == seq
            &&& p.request@ == setup_request_spec(e, seq, binary_plist_of(nonce@, key@, 0, ntp()))
        },
{
    let record = BootstrapRecord::new(&key, &nonce);
    let body = record.encode()?;
    let request = setup_request(e, seq, &body);
    Ok(PreparedSetup { key, nonce, sequence: seq, request })
}

/// Draws a fresh key and nonce, takes the next sequence number and builds
/// the setup request to `e`.
pub fn prepare_setup(e: Endpoint, counter: &SequenceCounter) -> (r: Result<PreparedSetup, BootstrapError>)
    ensures
        r is Ok,
        r matches Ok(p) ==> p.request@ == setup_request_spec(
            e,
            p.sequence,
            binary_plist_of(p.nonce@, p.key@, 0, ntp()),
        ),
{
    let key: [u8; 32] = rand::random();
    let nonce: [u8; 12] = rand::random();
    let seq = counter.next();
    prepare_setup_with(e, key, nonce, seq)
}

/// What a completed setup leaves to its caller: the negotiated key and
/// nonce, where the session goes, its sequence number and the raw reply.
pub struct SessionContext {
    pub endpoint: Endpoint,
    pub key: [u8; 32],
    pub nonce: [u8; 12],
    pub sequence: u64,
    pub response: Vec<u8>,
}

impl SessionContext {
    pub fn new(endpoint: Endpoint, setup: PreparedSetup, response: Vec<u8>) -> (r: SessionContext)
        ensures
            r.endpoint == endpoint,
            r.key == setup.key,
            r.nonce == setup.nonce,
            r.sequence == setup.sequence,
            r.response@ == response@,
    {
        SessionContext {
            endpoint,
            key: setup.key,
            nonce: setup.nonce,
            sequence: setup.sequence,
            response,
        }
    }

    /// The AEAD cipher for the negotiated key and nonce.
    pub fn cipher(&self) -> chacha20_poly1305::ChaCha20Poly1305 {
        make_cipher(self.key, self.nonce)
    }
}

} // verus!
