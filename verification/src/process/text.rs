//! Signing and verifying byte payloads, and generating keys.
//!
//! Two schemes share one interface. `Blake3` is symmetric: signing is a keyed
//! hash, and verifying recomputes the hash and compares. `Ed25519Signer` and
//! `Ed25519Verifier` are the two halves of an asymmetric scheme. Payloads,
//! keys and signatures are raw bytes; reading them and framing them as text is
//! the caller's business.

use vstd::prelude::*;
use vstd::string::StrSliceExecFns;
use vstd::utf8::is_ascii_chars_encode_utf8;
use crate::cli::gen_pass_options::GenPassOptions;
use crate::cli::text_options::TextSignFormat;
use crate::process::gen_pass::{
    alphabet,
    lemma_alphabet_is_ascii,
    lemma_alphabet_len,
    process_genpass,
};
use crate::process::bytes::{array_to_vec, contents, prefix_array, same_bytes};
use crate::process::primitives::{
    blake3_keyed_hash,
    ed25519_accepts,
    ed25519_decode_public,
    ed25519_derive_public,
    ed25519_fresh_seed,
    ed25519_point,
    ed25519_public_key,
    ed25519_sign,
    ed25519_signature,
    ed25519_verify,
    keyed_hash,
};

verus! {

/// Why a key or a signature was refused.
#[derive(Debug, Clone, Copy, PartialEq, Eq, Structural)]
pub enum TextError {
    /// The key buffer has the wrong number of bytes.
    InvalidKeyLength,
    /// The key bytes do not encode a point of the curve.
    InvalidKeyEncoding,
    /// The signature buffer has the wrong number of bytes.
    MalformedSignature,
}

impl TextError {
    /// The text of `message`.
    pub open spec fn message_text(&self) -> &'static str {
        match self {
            TextError::InvalidKeyLength => "invalid key length",
            TextError::InvalidKeyEncoding => "invalid key encoding",
            TextError::MalformedSignature => "malformed signature",
        }
    }

    /// A short line for the user.
    pub fn message(&self) -> (text: &'static str)
        ensures
            text == self.message_text(),
    {
        match self {
            TextError::InvalidKeyLength => "invalid key length",
            TextError::InvalidKeyEncoding => "invalid key encoding",
            TextError::MalformedSignature => "malformed signature",
        }
    }
}

/// Whether an outcome is the value `value`.
pub open spec fn gives<T>(outcome: Result<T, TextError>, value: T) -> bool {
    outcome == Ok::<T, TextError>(value)
}

/// Whether an outcome is the error `error`.
pub open spec fn fails<T>(outcome: Result<T, TextError>, error: TextError) -> bool {
    outcome == Err::<T, TextError>(error)
}

/// Number of bytes in a key of either scheme.
pub const KEY_LEN: usize = 32;

/// Number of bytes in an Ed25519 signature.
pub const SIGNATURE_LEN: usize = 64;

/// Signs a payload.
pub trait TextSign {
    /// The signature that this signer gives to `data`.
    spec fn signature(&self, data: Seq<u8>) -> Seq<u8>;

    /// Signs the whole of `data`. Signing never fails.
    fn sign(&self, data: &[u8]) -> (sig: Vec<u8>)
        ensures
            sig@ == self.signature(data@),
    ;
}

/// Checks a signature against a payload.
pub trait TextVerify {
    /// What `verify` answers for `data` and `sig`.
    spec fn verdict(&self, data: Seq<u8>, sig: Seq<u8>) -> Result<bool, TextError>;

    /// Whether `sig` is a signature of `data`. A signature that does not match
    /// is `Ok(false)`, not an error.
    fn verify(&self, data: &[u8], sig: &[u8]) -> (r: Result<bool, TextError>)
        ensures
            r == self.verdict(data@, sig@),
    ;
}

/// Builds a signer or verifier from stored key bytes.
pub trait KeyLoader: Sized {
    /// The key bytes that this value holds.
    spec fn key(&self) -> Seq<u8>;

    /// The key bytes that are kept of `bytes`, or why `bytes` are refused.
    spec fn admits(bytes: Seq<u8>) -> Result<Seq<u8>, TextError>;

    fn load(bytes: &[u8]) -> (r: Result<Self, TextError>)
        ensures
            match r {
                Ok(loaded) => gives(Self::admits(bytes@), loaded.key()),
                Err(e) => fails(Self::admits(bytes@), e),
            },
    ;
}

/// Makes fresh key material.
pub trait KeyGenerator {
    /// What holds of every set of buffers that `generate` returns.
    spec fn well_formed(keys: Seq<Seq<u8>>) -> bool;

    fn generate() -> (keys: Vec<Vec<u8>>)
        ensures
            Self::well_formed(contents(keys@)),
    ;
}

/// The symmetric scheme: a BLAKE3 keyed hash under a 32-byte key.
pub struct Blake3 {
    key: [u8; 32],
}

impl View for Blake3 {
    type V = Seq<u8>;

    closed spec fn view(&self) -> Seq<u8> {
        self.key@
    }
}

impl Blake3 {
    pub fn new(key: [u8; 32]) -> (signer: Self)
        ensures
            signer@ == key@,
    {
        Self { key }
    }

    /// Takes the first 32 bytes of `key` and ignores what follows them.
    pub fn try_new(key: &[u8]) -> (r: Result<Self, TextError>)
        ensures
            match r {
                Ok(signer) => key@.len() >= 32 && signer@ == key@.subrange(0, 32),
                Err(e) => key@.len() < 32 && e == TextError::InvalidKeyLength,
            },
    {
        if key.len() < KEY_LEN {
            return Err(TextError::InvalidKeyLength);
        }
        Ok(Blake3::new(prefix_array::<32>(key)))
    }
}

impl TextSign for Blake3 {
    open spec fn signature(&self, data: Seq<u8>) -> Seq<u8> {
        keyed_hash(self@, data)
    }

    fn sign(&self, data: &[u8]) -> (sig: Vec<u8>)
        ensures
            sig@.len() == 32,
    {
        let digest = blake3_keyed_hash(&self.key, data);
        array_to_vec(&digest)
    }
}

impl TextVerify for Blake3 {
    open spec fn verdict(&self, data: Seq<u8>, sig: Seq<u8>) -> Result<bool, TextError> {
        Ok(sig == keyed_hash(self@, data))
    }

    /// Recomputes the keyed hash and compares it with `sig` byte for byte. A
    /// signature of another length does not match.
    fn verify(&self, data: &[u8], sig: &[u8]) -> (r: Result<bool, TextError>) {
        let digest = blake3_keyed_hash(&self.key, data);
        Ok(same_bytes(digest.as_slice(), sig))
    }
}

impl KeyLoader for Blake3 {
    open spec fn key(&self) -> Seq<u8> {
        self@
    }

    open spec fn admits(bytes: Seq<u8>) -> Result<Seq<u8>, TextError> {
        if bytes.len() < 32 {
            Err(TextError::InvalidKeyLength)
        } else {
            Ok(bytes.subrange(0, 32))
        }
    }

    fn load(bytes: &[u8]) -> (r: Result<Self, TextError>) {
        Self::try_new(bytes)
    }
}

/// The options under which a symmetric key is drawn: 32 characters, from
/// every class.
pub open spec fn key_options() -> GenPassOptions {
    GenPassOptions {
        length: 32,
        no_uppercase: false,
        no_lowercase: false,
        no_numbers: false,
        no_symbols: false,
    }
}

impl KeyGenerator for Blake3 {
    /// One buffer of 32 bytes, each the code of a character of the full
    /// password alphabet.
    open spec fn well_formed(keys: Seq<Seq<u8>>) -> bool {
        &&& keys.len() == 1
        &&& keys[0].len() == 32
        &&& forall|i: int|
            0 <= i < 32 ==> alphabet(key_options()).contains(#[trigger] keys[0][i] as char)
    }

    /// Draws a password of 32 characters and takes its bytes as the key.
    fn generate() -> (keys: Vec<Vec<u8>>) {
        let options = GenPassOptions {
            length: 32,
            no_uppercase: false,
            no_lowercase: false,
            no_numbers: false,
            no_symbols: false,
        };
        proof {
            lemma_alphabet_len(options);
        }
        let password = process_genpass(&options);
        let key = password.as_str().as_bytes_vec();
        proof {
            lemma_alphabet_is_ascii(options);
            is_ascii_chars_encode_utf8(password@);
            assert forall|i: int| 0 <= i < 32 implies alphabet(key_options()).contains(
                #[trigger] key@[i] as char,
            ) by {
                let c = password@[i];
                assert(alphabet(options).contains(c));
                assert(key@[i] == c as u8);
                assert(c as u8 as char == c);
            }
        }
        let mut keys: Vec<Vec<u8>> = Vec::new();
        keys.push(key);
        keys
    }
}

/// The signing half of the asymmetric scheme. It holds the 32-byte private
/// seed and, beside it, the public key that belongs to the seed.
pub struct Ed25519Signer {
    key: [u8; 32],
    public: [u8; 32],
}

impl View for Ed25519Signer {
    type V = Seq<u8>;

    /// The private seed.
    closed spec fn view(&self) -> Seq<u8> {
        self.key@
    }
}

impl Ed25519Signer {
    #[verifier::type_invariant]
    spec fn paired(&self) -> bool {
        &&& self.public@ == ed25519_public_key(self.key@)
        &&& ed25519_point(self.public@)
    }

    pub fn new(key: [u8; 32]) -> (signer: Self)
        ensures
            signer@ == key@,
    {
        let public = ed25519_derive_public(&key);
        Self { key, public }
    }

    /// Accepts exactly 32 bytes.
    pub fn try_new(key: &[u8]) -> (r: Result<Self, TextError>)
        ensures
            match r {
                Ok(signer) => key@.len() == 32 && signer@ == key@,
                Err(e) => key@.len() != 32 && e == TextError::InvalidKeyLength,
            },
    {
        if key.len() != KEY_LEN {
            return Err(TextError::InvalidKeyLength);
        }
        let seed = prefix_array::<32>(key);
        assert(key@.subrange(0, 32) =~= key@);
        Ok(Ed25519Signer::new(seed))
    }

    /// The private seed.
    pub fn to_bytes(&self) -> (seed: [u8; 32])
        ensures
            seed@ == self@,
    {
        self.key
    }

    /// The public key that belongs to the seed. It decodes as a point, so
    /// `Ed25519Verifier` loads it.
    pub fn verifying_key(&self) -> (public: [u8; 32])
        ensures
            public@ == ed25519_public_key(self@),
            ed25519_point(public@),
    {
        proof {
            use_type_invariant(self);
        }
        self.public
    }

    /// The two buffers of the key pair that grows from `seed`: the seed
    /// itself, then the public key that belongs to it.
    pub fn key_pair(seed: [u8; 32]) -> (keys: Vec<Vec<u8>>)
        ensures
            contents(keys@) == seq![seed@, ed25519_public_key(seed@)],
            Self::well_formed(contents(keys@)),
    {
        let signer = Ed25519Signer::new(seed);
        let private = signer.to_bytes();
        let public = signer.verifying_key();
        let mut keys: Vec<Vec<u8>> = Vec::new();
        keys.push(array_to_vec(&private));
        keys.push(array_to_vec(&public));
        assert(contents(keys@) =~= seq![seed@, ed25519_public_key(seed@)]);
        keys
    }
}

impl TextSign for Ed25519Signer {
    open spec fn signature(&self, data: Seq<u8>) -> Seq<u8> {
        ed25519_signature(self@, data)
    }

    /// The signature has 64 bytes, and the public key of this signer's seed,
    /// which has 32 bytes and decodes as a point, accepts it for `data`.
    fn sign(&self, data: &[u8]) -> (sig: Vec<u8>)
        ensures
            sig@.len() == 64,
            ed25519_public_key(self@).len() == 32,
            ed25519_point(ed25519_public_key(self@)),
            ed25519_accepts(ed25519_public_key(self@), data@, sig@),
    {
        proof {
            use_type_invariant(self);
        }
        let signature = ed25519_sign(&self.key, data);
        array_to_vec(&signature)
    }
}

impl KeyLoader for Ed25519Signer {
    open spec fn key(&self) -> Seq<u8> {
        self@
    }

    open spec fn admits(bytes: Seq<u8>) -> Result<Seq<u8>, TextError> {
        if bytes.len() != 32 {
            Err(TextError::InvalidKeyLength)
        } else {
            Ok(bytes)
        }
    }

    fn load(bytes: &[u8]) -> (r: Result<Self, TextError>) {
        Self::try_new(bytes)
    }
}

impl KeyGenerator for Ed25519Signer {
    /// Two buffers of 32 bytes: a private seed, then the public key that
    /// belongs to it, which decodes as a point.
    open spec fn well_formed(keys: Seq<Seq<u8>>) -> bool {
        &&& keys.len() == 2
        &&& keys[0].len() == 32
        &&& keys[1].len() == 32
        &&& keys[1] == ed25519_public_key(keys[0])
        &&& ed25519_point(keys[1])
    }

    /// Draws a seed from the operating system's random source.
    fn generate() -> (keys: Vec<Vec<u8>>) {
        let seed = ed25519_fresh_seed();
        Self::key_pair(seed)
    }
}

/// The verifying half of the asymmetric scheme. It holds 32 bytes that decode
/// as a public key.
pub struct Ed25519Verifier {
    key: [u8; 32],
}

impl View for Ed25519Verifier {
    type V = Seq<u8>;

    closed spec fn view(&self) -> Seq<u8> {
        self.key@
    }
}

impl Ed25519Verifier {
    #[verifier::type_invariant]
    spec fn decodes(&self) -> bool {
        ed25519_point(self.key@)
    }

    pub fn new(key: [u8; 32]) -> (verifier: Self)
        requires
            ed25519_point(key@),
        ensures
            verifier@ == key@,
    {
        Self { key }
    }

    /// Accepts exactly 32 bytes that decode as a point of the curve.
    pub fn try_new(key: &[u8]) -> (r: Result<Self, TextError>)
        ensures
            match r {
                Ok(verifier) => gives(Self::admits(key@), verifier@),
                Err(e) => fails(Self::admits(key@), e),
            },
    {
        if key.len() != KEY_LEN {
            return Err(TextError::InvalidKeyLength);
        }
        let public = prefix_array::<32>(key);
        assert(key@.subrange(0, 32) =~= key@);
        match ed25519_decode_public(&public) {
            Ok(_) => Ok(Ed25519Verifier::new(public)),
            Err(_) => Err(TextError::InvalidKeyEncoding),
        }
    }
}

impl TextVerify for Ed25519Verifier {
    open spec fn verdict(&self, data: Seq<u8>, sig: Seq<u8>) -> Result<bool, TextError> {
        if sig.len() != 64 {
            Err(TextError::MalformedSignature)
        } else {
            Ok(ed25519_accepts(self@, data, sig))
        }
    }

    fn verify(&self, data: &[u8], sig: &[u8]) -> (r: Result<bool, TextError>) {
        if sig.len() != SIGNATURE_LEN {
            return Err(TextError::MalformedSignature);
        }
        let signature = prefix_array::<64>(sig);
        assert(sig@.subrange(0, 64) =~= sig@);
        Ok(ed25519_verify(&self.key, data, &signature).is_ok())
    }
}

impl KeyLoader for Ed25519Verifier {
    open spec fn key(&self) -> Seq<u8> {
        self@
    }

    open spec fn admits(bytes: Seq<u8>) -> Result<Seq<u8>, TextError> {
        if bytes.len() != 32 {
            Err(TextError::InvalidKeyLength)
        } else if !ed25519_point(bytes) {
            Err(TextError::InvalidKeyEncoding)
        } else {
            Ok(bytes)
        }
    }

    fn load(bytes: &[u8]) -> (r: Result<Self, TextError>) {
        Self::try_new(bytes)
    }
}

/// What signing `input` under the stored key bytes `key` gives: the signature,
/// or why the key is refused.
pub open spec fn sign_outcome(input: Seq<u8>, key: Seq<u8>, format: TextSignFormat) -> Result<
    Seq<u8>,
    TextError,
> {
    match format {
        TextSignFormat::Blake3 => match <Blake3 as KeyLoader>::admits(key) {
            Ok(kept) => Ok(keyed_hash(kept, input)),
            Err(e) => Err(e),
        },
        TextSignFormat::Ed25519 => match <Ed25519Signer as KeyLoader>::admits(key) {
            Ok(kept) => Ok(ed25519_signature(kept, input)),
            Err(e) => Err(e),
        },
    }
}

/// What verifying `sig` against `input` under the stored key bytes `key`
/// gives. A key that is refused is reported before a signature of the wrong
/// length.
pub open spec fn verify_outcome(
    input: Seq<u8>,
    key: Seq<u8>,
    format: TextSignFormat,
    sig: Seq<u8>,
) -> Result<bool, TextError> {
    match format {
        TextSignFormat::Blake3 => match <Blake3 as KeyLoader>::admits(key) {
            Ok(kept) => Ok(sig == keyed_hash(kept, input)),
            Err(e) => Err(e),
        },
        TextSignFormat::Ed25519 => match <Ed25519Verifier as KeyLoader>::admits(key) {
            Ok(kept) => if sig.len() != 64 {
                Err(TextError::MalformedSignature)
            } else {
                Ok(ed25519_accepts(kept, input, sig))
            },
            Err(e) => Err(e),
        },
    }
}

/// What holds of the buffers that key generation returns for `format`.
pub open spec fn generated(format: TextSignFormat, keys: Seq<Seq<u8>>) -> bool {
    match format {
        TextSignFormat::Blake3 => <Blake3 as KeyGenerator>::well_formed(keys),
        TextSignFormat::Ed25519 => <Ed25519Signer as KeyGenerator>::well_formed(keys),
    }
}

/// The number of bytes in every signature of a scheme.
pub open spec fn signature_len(format: TextSignFormat) -> nat {
    match format {
        TextSignFormat::Blake3 => 32,
        TextSignFormat::Ed25519 => 64,
    }
}

/// The key under which a signature made with `key` is to be verified: the
/// same key for the symmetric scheme, the public key of the seed for the
/// asymmetric one.
pub open spec fn matching_key(key: Seq<u8>, format: TextSignFormat) -> Seq<u8> {
    match format {
        TextSignFormat::Blake3 => key,
        TextSignFormat::Ed25519 => ed25519_public_key(key),
    }
}

/// Signs `input` with the key stored in `key`, under the scheme `format`.
///
/// The signature has the length of its scheme, and it is one that verifies:
/// checked against `input` under the key that belongs to `key`, it is
/// answered with `Ok(true)`.
pub fn process_sign(input: &[u8], key: &[u8], format: TextSignFormat) -> (r: Result<
    Vec<u8>,
    TextError,
>)
    ensures
        match r {
            Ok(sig) => gives(sign_outcome(input@, key@, format), sig@),
            Err(e) => fails(sign_outcome(input@, key@, format), e),
        },
        r matches Ok(sig) ==> sig@.len() == signature_len(format),
        r matches Ok(sig) ==> gives(
            verify_outcome(input@, matching_key(key@, format), format, sig@),
            true,
        ),
{
    match format {
        TextSignFormat::Blake3 => {
            let signer = Blake3::load(key)?;
            Ok(signer.sign(input))
        },
        TextSignFormat::Ed25519 => {
            let signer = Ed25519Signer::load(key)?;
            Ok(signer.sign(input))
        },
    }
}

/// Checks `sig` against `input` with the key stored in `key`, under the
/// scheme `format`.
pub fn process_verify(input: &[u8], key: &[u8], format: TextSignFormat, sig: &[u8]) -> (r: Result<
    bool,
    TextError,
>)
    ensures
        r == verify_outcome(input@, key@, format, sig@),
{
    match format {
        TextSignFormat::Blake3 => {
            let verifier = Blake3::load(key)?;
            verifier.verify(input, sig)
        },
        TextSignFormat::Ed25519 => {
            let verifier = Ed25519Verifier::load(key)?;
            verifier.verify(input, sig)
        },
    }
}

/// The names of the files that a generated key set is stored under, one for
/// each buffer and in the order of the buffers.
pub open spec fn key_files(format: TextSignFormat) -> Seq<&'static str> {
    match format {
        TextSignFormat::Blake3 => seq!["blake3.key"],
        TextSignFormat::Ed25519 => seq!["ed25519.key", "ed25519.pub"],
    }
}

/// The names of the files that a generated key set is stored under.
pub fn key_file_names(format: &TextSignFormat) -> (names: Vec<&'static str>)
    ensures
        names@ == key_files(*format),
{
    let mut names: Vec<&'static str> = Vec::new();
    match format {
        TextSignFormat::Blake3 => {
            names.push("blake3.key");
        },
        TextSignFormat::Ed25519 => {
            names.push("ed25519.key");
            names.push("ed25519.pub");
        },
    }
    assert(names@ =~= key_files(*format));
    names
}

/// Fresh key material for `format`: one buffer for the symmetric scheme; the
/// private seed and then the public key for the asymmetric one. There are as
/// many buffers as `key_file_names` gives names.
pub fn process_genkey(format: &TextSignFormat) -> (keys: Vec<Vec<u8>>)
    ensures
        generated(*format, contents(keys@)),
        keys@.len() == key_files(*format).len(),
{
    match format {
        TextSignFormat::Blake3 => Blake3::generate(),
        TextSignFormat::Ed25519 => Ed25519Signer::generate(),
    }
}

/// `bytes` with one bit of one byte inverted.
pub open spec fn flip_bit(bytes: Seq<u8>, index: int, bit: u8) -> Seq<u8> {
    bytes.update(index, bytes[index] ^ (1u8 << bit))
}

/// Under the keyed-hash scheme, whatever signing returns for a payload and a
/// key that loads, verifying accepts for the same payload and key.
pub proof fn lemma_keyed_hash_sign_then_verify(input: Seq<u8>, key: Seq<u8>)
    requires
        key.len() >= 32,
    ensures
        sign_outcome(input, key, TextSignFormat::Blake3) matches Ok(sig) && gives(
            verify_outcome(input, key, TextSignFormat::Blake3, sig),
            true,
        ),
{
}

/// Under the keyed-hash scheme the signature of a payload is the only byte
/// string that verifies against it: every other one is answered with false.
pub proof fn lemma_keyed_hash_other_signature_rejected(
    input: Seq<u8>,
    key: Seq<u8>,
    sig: Seq<u8>,
    other: Seq<u8>,
)
    requires
        gives(sign_outcome(input, key, TextSignFormat::Blake3), sig),
        other != sig,
    ensures
        gives(verify_outcome(input, key, TextSignFormat::Blake3, other), false),
{
}

/// Under the keyed-hash scheme a signature with any single bit inverted no
/// longer verifies.
pub proof fn lemma_keyed_hash_flipped_bit_rejected(
    input: Seq<u8>,
    key: Seq<u8>,
    sig: Seq<u8>,
    index: int,
    bit: u8,
)
    requires
        gives(sign_outcome(input, key, TextSignFormat::Blake3), sig),
        0 <= index < sig.len(),
        bit < 8,
    ensures
        gives(
            verify_outcome(input, key, TextSignFormat::Blake3, flip_bit(sig, index, bit)),
            false,
        ),
{
    let byte = sig[index];
    assert(byte ^ (1u8 << bit) != byte) by (bit_vector)
        requires
            bit < 8,
    ;
    assert(flip_bit(sig, index, bit)[index] != sig[index]);
}

/// A key buffer of fewer than 32 bytes is refused with `InvalidKeyLength` by
/// every loader, and so by signing and by verifying under either scheme.
pub proof fn lemma_short_key_refused(
    input: Seq<u8>,
    key: Seq<u8>,
    format: TextSignFormat,
    sig: Seq<u8>,
)
    requires
        key.len() < 32,
    ensures
        fails(<Blake3 as KeyLoader>::admits(key), TextError::InvalidKeyLength),
        fails(<Ed25519Signer as KeyLoader>::admits(key), TextError::InvalidKeyLength),
        fails(<Ed25519Verifier as KeyLoader>::admits(key), TextError::InvalidKeyLength),
        fails(sign_outcome(input, key, format), TextError::InvalidKeyLength),
        fails(verify_outcome(input, key, format, sig), TextError::InvalidKeyLength),
{
}

/// A key buffer of exactly 32 bytes loads whole as a keyed-hash key and as a
/// private seed. As a public key it loads if it decodes as a point of the
/// curve, and is refused with `InvalidKeyEncoding` if it does not.
pub proof fn lemma_full_key_admitted(key: Seq<u8>)
    requires
        key.len() == 32,
    ensures
        gives(<Blake3 as KeyLoader>::admits(key), key),
        gives(<Ed25519Signer as KeyLoader>::admits(key), key),
        ed25519_point(key) ==> gives(<Ed25519Verifier as KeyLoader>::admits(key), key),
        !ed25519_point(key) ==> fails(
            <Ed25519Verifier as KeyLoader>::admits(key),
            TextError::InvalidKeyEncoding,
        ),
{
    assert(key.subrange(0, 32) =~= key);
}

/// A generated symmetric key is one buffer of 32 bytes, and it loads whole
/// as a keyed-hash key.
pub proof fn lemma_generated_key_loads(keys: Seq<Seq<u8>>)
    requires
        generated(TextSignFormat::Blake3, keys),
    ensures
        keys.len() == 1,
        keys[0].len() == 32,
        gives(<Blake3 as KeyLoader>::admits(keys[0]), keys[0]),
{
    assert(keys[0].subrange(0, 32) =~= keys[0]);
}

/// A generated asymmetric pair is two buffers of 32 bytes. The first loads as
/// the signer's seed and the second as the verifier's public key, and the
/// second is the key that signatures made with the first are to be verified
/// under.
pub proof fn lemma_generated_pair_loads(keys: Seq<Seq<u8>>)
    requires
        generated(TextSignFormat::Ed25519, keys),
    ensures
        keys.len() == 2,
        keys[0].len() == 32,
        keys[1].len() == 32,
        gives(<Ed25519Signer as KeyLoader>::admits(keys[0]), keys[0]),
        gives(<Ed25519Verifier as KeyLoader>::admits(keys[1]), keys[1]),
        keys[1] == matching_key(keys[0], TextSignFormat::Ed25519),
{
}

} // verus!
