use vstd::prelude::*;
use crate::hex::{hex_of, is_lower_hex, lemma_hex_of_shape, to_hex_string};
use sha3::Digest;

verus! {

/// Bytes in a secret key.
pub const SECRET_KEY_BYTES: usize = 32;

/// Bytes in a serialized (compressed) public key.
pub const PUBLIC_KEY_BYTES: usize = 33;

/// Bytes of Keccak-256 output.
pub const HASH_BYTES: usize = 32;

/// Bytes of hash output kept for the address: the low-order end.
pub const ADDRESS_BYTES: usize = 20;

/// Hex characters in an address.
pub const ADDRESS_LENGTH: usize = 40;

/// Hex characters in a private key.
pub const PRIVATE_KEY_LENGTH: usize = 64;

/// The Keccak-256 digest of `data`.
pub uninterp spec fn keccak256_of(data: Seq<u8>) -> Seq<u8>;

/// Relies on sha3::Keccak256 (`new`, `update`, `finalize`): the 32-byte
/// digest of the input, depending on the input alone.
#[verifier::external_body]
fn keccak256(data: &[u8]) -> (r: Vec<u8>)
    ensures
        r@ == keccak256_of(data@),
        r@.len() == HASH_BYTES,
{
    let mut hasher = sha3::Keccak256::new();
    hasher.update(data);
    hasher.finalize().to_vec()
}

/// The compressed serialization of the public key of a secret key.
pub uninterp spec fn public_key_of(secret_key: Seq<u8>) -> Seq<u8>;

/// Relies on secp256k1::generate_keypair, drawing from rand::thread_rng: a
/// fresh secret key as its 32 bytes (`SecretKey::secret_bytes`) and its public
/// key in the 33-byte compressed form (`PublicKey::serialize`). The public
/// key is `PublicKey::from_secret_key` of the secret key, so it depends on
/// the secret key alone.
#[verifier::external_body]
fn random_keypair() -> (r: (Vec<u8>, Vec<u8>))
    ensures
        r.0@.len() == SECRET_KEY_BYTES,
        r.1@.len() == PUBLIC_KEY_BYTES,
        r.1@ == public_key_of(r.0@),
{
    let (secret_key, public_key) = secp256k1::generate_keypair(&mut rand::thread_rng());
    (secret_key.secret_bytes().to_vec(), public_key.serialize().to_vec())
}

/// The address text for a hash: the hex of its low-order `ADDRESS_BYTES` bytes.
pub open spec fn address_of_hash(hash: Seq<u8>) -> Seq<char> {
    hex_of(hash.subrange(hash.len() - ADDRESS_BYTES, hash.len() as int))
}

/// The address derived from a serialized public key.
pub open spec fn address_of_public_key(public_key: Seq<u8>) -> Seq<char> {
    address_of_hash(keccak256_of(public_key))
}

/// A generated keypair and its derived address, both as lowercase hex.
#[derive(Debug)]
pub struct Candidate {
    address: String,
    private_key: String,
}

impl Candidate {
    pub closed spec fn address_view(&self) -> Seq<char> {
        self.address@
    }

    pub closed spec fn private_key_view(&self) -> Seq<char> {
        self.private_key@
    }

    /// An address of 40 and a private key of 64 lowercase hex characters.
    pub open spec fn is_well_formed(&self) -> bool {
        &&& self.address_view().len() == ADDRESS_LENGTH
        &&& is_lower_hex(self.address_view())
        &&& self.private_key_view().len() == PRIVATE_KEY_LENGTH
        &&& is_lower_hex(self.private_key_view())
    }

    /// The candidate for a secret key and its serialized public key.
    pub fn from_keypair(secret_key: &[u8], public_key: &[u8]) -> (r: Candidate)
        requires
            secret_key@.len() == SECRET_KEY_BYTES,
        ensures
            r.address_view() == address_of_public_key(public_key@),
            r.private_key_view() == hex_of(secret_key@),
            r.is_well_formed(),
    {
        let address = derive_address(public_key);
        let private_key = to_hex_string(secret_key, PRIVATE_KEY_LENGTH);
        proof {
            lemma_hex_of_shape(secret_key@);
        }
        Candidate { address, private_key }
    }

    /// The address, without a `0x` prefix.
    pub fn address(&self) -> (r: &String)
        ensures
            r@ == self.address_view(),
    {
        &self.address
    }

    /// The private key.
    pub fn private_key(&self) -> (r: &String)
        ensures
            r@ == self.private_key_view(),
    {
        &self.private_key
    }
}

/// The hex of the low-order `ADDRESS_BYTES` bytes of a 32-byte hash.
pub fn address_from_hash(hash: &[u8]) -> (r: String)
    requires
        hash@.len() == HASH_BYTES,
    ensures
        r@ == address_of_hash(hash@),
{
    let mut tail: Vec<u8> = Vec::new();
    let mut i: usize = HASH_BYTES - ADDRESS_BYTES;
    while i < HASH_BYTES
        invariant
            12 <= i <= 32,
            hash@.len() == 32,
            tail@ == hash@.subrange(12, i as int),
        decreases 32 - i,
    {
        tail.push(hash[i]);
        i += 1;
        assert(tail@ =~= hash@.subrange(12, i as int));
    }
    to_hex_string(tail.as_slice(), ADDRESS_LENGTH)
}

/// The address of a serialized public key: the hex of the low-order
/// `ADDRESS_BYTES` bytes of its Keccak-256 digest.
pub fn derive_address(public_key: &[u8]) -> (r: String)
    ensures
        r@ == address_of_public_key(public_key@),
        r@.len() == ADDRESS_LENGTH,
        is_lower_hex(r@),
{
    let hash = keccak256(public_key);
    proof {
        lemma_hex_of_shape(hash@.subrange(12, 32));
    }
    address_from_hash(hash.as_slice())
}

/// Draws a fresh keypair and derives its address: the private key is the
/// hex of the secret key, the address that of the low-order bytes of the
/// Keccak-256 digest of the secret key's serialized public key.
pub fn generate() -> (r: Candidate)
    ensures
        r.is_well_formed(),
        exists|secret_key: Seq<u8>|
            secret_key.len() == SECRET_KEY_BYTES && #[trigger] hex_of(secret_key)
                == r.private_key_view() && r.address_view() == address_of_public_key(
                public_key_of(secret_key),
            ),
{
    let (secret_key, public_key) = random_keypair();
    Candidate::from_keypair(secret_key.as_slice(), public_key.as_slice())
}

} // verus!
