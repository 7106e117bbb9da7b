//! The opaque bearer secret that authenticates inbound requests.
//!
//! A credential is exactly 64 random bytes; the only representation that
//! ever crosses a process boundary is its standard base64 encoding.

use vstd::prelude::*;

verus! {

/// Number of bytes in a credential secret.
pub const CREDENTIAL_LEN: usize = 64;

/// Why a transported credential was rejected: the text was not base64 at
/// all (transport corruption), or it decoded to a byte string of the wrong
/// length (a forged or incompatible credential).
#[derive(Clone, Copy, Debug, PartialEq, Eq, Structural)]
pub enum CredentialError {
    InvalidCredentialEncoding,
    InvalidCredentialLength,
}

/// The bearer secret the server was configured with and that every inbound
/// request must present.
#[derive(Debug)]
pub struct ApiKey {
    bytes: Vec<u8>,
}

/// The base64 text that `base64::encode` produces for a byte sequence.
pub uninterp spec fn base64_encoding_of(bytes: Seq<u8>) -> Seq<char>;

/// The byte sequence a text denotes under base64, or `None` where the text
/// is not valid base64.
pub uninterp spec fn base64_decoding_of(text: Seq<char>) -> Option<Seq<u8>>;

/// Relies on `base64::encode` (standard alphabet, padded): the encoding is
/// a function of the input bytes alone, and `base64::decode` recovers
/// exactly those bytes from it.
#[verifier::external_body]
fn base64_encode(bytes: &Vec<u8>) -> (r: String)
    ensures
        r@ == base64_encoding_of(bytes@),
        base64_decoding_of(r@) == Some(bytes@),
{
    base64::encode(bytes.as_slice())
}

#[verifier::external_type_specification]
#[verifier::external_body]
pub struct ExDecodeError(base64::DecodeError);

/// Relies on `base64::decode`: returns the bytes the text denotes under
/// standard base64, and an error exactly when the text is not valid base64.
#[verifier::external_body]
fn base64_decode(text: &str) -> (r: Result<Vec<u8>, base64::DecodeError>)
    ensures
        match r {
            Ok(b) => base64_decoding_of(text@) == Some(b@),
            Err(_) => base64_decoding_of(text@) is None,
        },
{
    base64::decode(text)
}

#[verifier::external_type_specification]
#[verifier::external_body]
pub struct ExChaCha20Rng(rand_chacha::ChaCha20Rng);

/// Relies on `rand_chacha::ChaCha20Rng::from_entropy`: a cryptographically
/// secure generator seeded from the system entropy source.
#[verifier::external_body]
fn entropy_seeded_rng() -> rand_chacha::ChaCha20Rng {
    <rand_chacha::ChaCha20Rng as rand::SeedableRng>::from_entropy()
}

/// Relies on `rand::RngCore::fill_bytes`: fills the buffer in place with
/// bytes from the generator.
#[verifier::external_body]
fn fill_random(rng: &mut rand_chacha::ChaCha20Rng, buf: &mut Vec<u8>)
    ensures
        final(buf)@.len() == old(buf)@.len(),
{
    rand::RngCore::fill_bytes(rng, buf.as_mut_slice());
}

/// How a decoded byte sequence is classified as a credential: not base64
/// at all is a distinct failure from a decodable text of the wrong length.
pub open spec fn credential_of_decoding(decoded: Option<Seq<u8>>) -> Result<Seq<u8>, CredentialError> {
    match decoded {
        None => Err(CredentialError::InvalidCredentialEncoding),
        Some(b) => if b.len() == CREDENTIAL_LEN {
            Ok(b)
        } else {
            Err(CredentialError::InvalidCredentialLength)
        },
    }
}

impl View for ApiKey {
    type V = Seq<u8>;

    closed spec fn view(&self) -> Seq<u8> {
        self.bytes@
    }
}

impl Clone for ApiKey {
    /// A clone holds the same secret bytes.
    fn clone(&self) -> (r: Self)
        ensures
            r@ == self@,
    {
        ApiKey { bytes: self.bytes.clone() }
    }
}

impl ApiKey {
    /// A credential holds exactly 64 bytes.
    pub closed spec fn wf(&self) -> bool {
        self.bytes@.len() == CREDENTIAL_LEN
    }

    pub(crate) fn new(bytes: Vec<u8>) -> (r: ApiKey)
        requires
            bytes@.len() == CREDENTIAL_LEN,
        ensures
            r@ == bytes@,
            r.wf(),
    {
        ApiKey { bytes }
    }

    /// Fills a fresh credential from a cryptographically secure random
    /// source. Nothing more than its length can be promised of the result.
    pub fn generate() -> (r: ApiKey)
        ensures
            r.wf(),
    {
        let mut rng = entropy_seeded_rng();
        let mut data: Vec<u8> = Vec::new();
        let mut i: usize = 0;
        while i < CREDENTIAL_LEN
            invariant
                data@.len() == i,
                i <= CREDENTIAL_LEN,
            decreases CREDENTIAL_LEN - i,
        {
            data.push(0u8);
            i = i + 1;
        }
        fill_random(&mut rng, &mut data);
        ApiKey::new(data)
    }

    /// Builds a credential from raw bytes, rejecting any length other than
    /// 64. This is total: no input makes it panic.
    pub fn from_bytes(bytes: Vec<u8>) -> (r: Result<ApiKey, CredentialError>)
        ensures
            bytes@.len() == CREDENTIAL_LEN ==> (r matches Ok(c) && c@ == bytes@ && c.wf()),
            bytes@.len() != CREDENTIAL_LEN ==> r == Err::<ApiKey, CredentialError>(
                CredentialError::InvalidCredentialLength,
            ),
    {
        if bytes.len() == CREDENTIAL_LEN {
            Ok(ApiKey::new(bytes))
        } else {
            Err(CredentialError::InvalidCredentialLength)
        }
    }

    /// The base64 text of the secret: the only form that leaves the process.
    pub fn as_base64(&self) -> (r: String)
        ensures
            r@ == base64_encoding_of(self@),
            base64_decoding_of(r@) == Some(self@),
    {
        base64_encode(&self.bytes)
    }

    /// Reads a credential back from its base64 text. Fails with
    /// `InvalidCredentialEncoding` exactly when the text is not base64, and
    /// with `InvalidCredentialLength` exactly when it decodes to a byte
    /// string whose length is not 64.
    pub fn from_base64(text: &str) -> (r: Result<ApiKey, CredentialError>)
        ensures
            (match r {
                Ok(c) => Ok(c@),
                Err(e) => Err(e),
            }) == credential_of_decoding(base64_decoding_of(text@)),
            r matches Ok(c) ==> c.wf(),
    {
        match base64_decode(text) {
            Err(_) => Err(CredentialError::InvalidCredentialEncoding),
            Ok(b) => {
                if b.len() == CREDENTIAL_LEN {
                    Ok(ApiKey::new(b))
                } else {
                    Err(CredentialError::InvalidCredentialLength)
                }
            },
        }
    }

    /// Compares two credentials in time independent of where they first
    /// differ: every byte is inspected and folded into one accumulator, so
    /// a mismatch leaks no timing signal about the secret's content.
    pub fn constant_time_eq(&self, other: &ApiKey) -> (r: bool)
        requires
            self.wf(),
            other.wf(),
        ensures
            r == (self@ == other@),
    {
        let mut diff: u8 = 0;
        let mut i: usize = 0;
        while i < CREDENTIAL_LEN
            invariant
                self.wf(),
                other.wf(),
                i <= CREDENTIAL_LEN,
                (diff == 0) <==> (forall|j: int| 0 <= j < i ==> self@[j] == other@[j]),
            decreases CREDENTIAL_LEN - i,
        {
            let a = self.bytes[i];
            let b = other.bytes[i];
            let x = a ^ b;
            let folded = diff | x;
            proof {
                assert((a ^ b) == 0 <==> a == b) by (bit_vector);
                assert((diff | x) == 0 <==> (diff == 0 && x == 0)) by (bit_vector);
                assert(a == self@[i as int] && b == other@[i as int]);
                if folded == 0 {
                    assert(forall|j: int| 0 <= j < i + 1 ==> self@[j] == other@[j]);
                } else if diff == 0 {
                    assert(self@[i as int] != other@[i as int]);
                }
            }
            diff = folded;
            i = i + 1;
        }
        proof {
            if diff == 0 {
                assert(self@ =~= other@);
            }
        }
        diff == 0
    }
}

/// Law: encoding any byte sequence to base64 and parsing it back as a
/// credential succeeds exactly when the sequence is 64 bytes long, and then
/// returns those very bytes; every other length is rejected as
/// `InvalidCredentialLength`.
pub fn parse_encoded_bytes(bytes: &Vec<u8>) -> (r: Result<ApiKey, CredentialError>)
    ensures
        bytes@.len() == CREDENTIAL_LEN ==> (r matches Ok(c) && c@ == bytes@),
        bytes@.len() != CREDENTIAL_LEN ==> r == Err::<ApiKey, CredentialError>(
            CredentialError::InvalidCredentialLength,
        ),
{
    let encoded = base64_encode(bytes);
    ApiKey::from_base64(encoded.as_str())
}

/// Law: a credential survives the base64 round trip unchanged:
/// decoding the encoding of a credential yields an equal credential.
pub fn round_trip(c: &ApiKey) -> (r: ApiKey)
    requires
        c.wf(),
    ensures
        r@ == c@,
        r.wf(),
{
    let encoded = c.as_base64();
    match ApiKey::from_base64(encoded.as_str()) {
        Ok(k) => k,
        // A 64-byte credential's encoding always decodes back to it.
        Err(_) => vstd::pervasive::unreached(),
    }
}

} // verus!
