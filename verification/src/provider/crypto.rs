use vstd::prelude::*;
use rand::Rng;

verus! {

/// The identifier of the key derivation and cipher in a ciphertext frame:
/// Argon2id with ChaCha20-Poly1305.
pub const CIPHER_ID: u8 = 0x01;

/// The key that Argon2id (version 0x13, 64 MiB of memory, one pass, four
/// lanes, 32 bytes of output) derives from a secret and a salt.
pub uninterp spec fn argon2id_key(secret: Seq<u8>, salt: Seq<u8>) -> Seq<u8>;

/// Calls `argon2::Argon2::hash_password_into` with the parameters above.
/// Trusted: with a 32-byte salt and output and a secret of at most
/// `u32::MAX` bytes the call succeeds (the crate checks only these
/// lengths), and the key is `argon2id_key` of the secret and the salt.
#[verifier::external_body]
fn derive_key(secret: &[u8], salt: &[u8; 32]) -> (key: [u8; 32])
    requires
        secret@.len() <= 0xFFFF_FFFF,
    ensures
        key@ == argon2id_key(secret@, salt@),
{
    let mut key = [0u8; 32];
    ::argon2::Argon2::new(
        ::argon2::Algorithm::default(),
        ::argon2::Version::default(),
        ::argon2::Params::new(64 * 1024, 1, 4, Some(32)).unwrap(),
    ).hash_password_into(secret, salt, &mut key).unwrap();
    key
}

/// Fills 32 bytes from the thread-local generator of `rand`. Trusted:
/// nothing is claimed of the bytes.
#[verifier::external_body]
fn random_salt() -> (salt: [u8; 32]) {
    let mut salt = [0u8; 32];
    ::rand::thread_rng().fill(&mut salt);
    salt
}

/// Fills 8 bytes from the thread-local generator of `rand`. Trusted:
/// nothing is claimed of the bytes.
#[verifier::external_body]
fn random_nonce() -> (nonce: [u8; 8]) {
    let mut nonce = [0u8; 8];
    ::rand::thread_rng().fill(&mut nonce);
    nonce
}

/// What encrypting one message needs: a fresh salt, the key derived from
/// the secret and that salt, and a fresh nonce.
#[derive(Debug)]
pub struct EncryptionInputs {
    pub salt: [u8; 32],
    pub key: [u8; 32],
    pub nonce: [u8; 8],
}

/// Draws a salt and a nonce and derives the key of a message from the
/// bytes of the secret key of the storage's credentials.
pub fn encryption_inputs(secret_key: &[u8]) -> (r: EncryptionInputs)
    requires
        secret_key@.len() <= 0xFFFF_FFFF,
    ensures
        r.key@ == argon2id_key(secret_key@, r.salt@),
{
    let salt = random_salt();
    let key = derive_key(secret_key, &salt);
    let nonce = random_nonce();
    EncryptionInputs { salt, key, nonce }
}

/// A ciphertext frame: the salt, the cipher identifier, the nonce, then
/// the encrypted data.
pub open spec fn spec_frame(salt: Seq<u8>, nonce: Seq<u8>, encrypted: Seq<u8>) -> Seq<u8> {
    salt + seq![CIPHER_ID] + nonce + encrypted
}

/// Frames encrypted data with the salt and nonce it was made with.
pub fn frame_ciphertext(salt: &[u8; 32], nonce: &[u8; 8], encrypted: &[u8]) -> (r: Vec<u8>)
    ensures
        r@ == spec_frame(salt@, nonce@, encrypted@),
{
    let mut r: Vec<u8> = Vec::new();
    let mut i: usize = 0;
    while i < 32
        invariant
            i <= 32,
            r@ == salt@.take(i as int),
        decreases 32 - i,
    {
        r.push(salt[i]);
        proof {
            assert(salt@.take(i + 1) =~= salt@.take(i as int).push(salt@[i as int]));
        }
        i = i + 1;
    }
    r.push(CIPHER_ID);
    let mut j: usize = 0;
    while j < 8
        invariant
            j <= 8,
            r@ == salt@ + seq![CIPHER_ID] + nonce@.take(j as int),
        decreases 8 - j,
    {
        r.push(nonce[j]);
        proof {
            assert(nonce@.take(j + 1) =~= nonce@.take(j as int).push(nonce@[j as int]));
        }
        j = j + 1;
        proof {
            assert(salt@.take(32) =~= salt@);
        }
    }
    proof {
        assert(salt@.take(32) =~= salt@);
        assert(nonce@.take(8) =~= nonce@);
    }
    let mut k: usize = 0;
    let n = encrypted.len();
    while k < n
        invariant
            k <= n,
            n == encrypted@.len(),
            r@ == salt@ + seq![CIPHER_ID] + nonce@ + encrypted@.take(k as int),
        decreases n - k,
    {
        r.push(encrypted[k]);
        proof {
            assert(encrypted@.take(k + 1) =~= encrypted@.take(k as int).push(encrypted@[k as int]));
        }
        k = k + 1;
    }
    proof {
        assert(encrypted@.take(n as int) =~= encrypted@);
        assert(r@ =~= spec_frame(salt@, nonce@, encrypted@));
    }
    r
}

/// The salt, nonce and encrypted data that a frame holds, where it is long
/// enough and names the cipher.
pub open spec fn spec_unframe(frame: Seq<u8>) -> Option<(Seq<u8>, Seq<u8>, Seq<u8>)> {
    if frame.len() >= 41 && frame[32] == CIPHER_ID {
        Some((frame.subrange(0, 32), frame.subrange(33, 41), frame.subrange(41, frame.len() as int)))
    } else {
        None
    }
}

/// Reading a frame back gives the salt, nonce and data it was made from.
pub proof fn lemma_frame_roundtrip(salt: Seq<u8>, nonce: Seq<u8>, encrypted: Seq<u8>)
    requires
        salt.len() == 32,
        nonce.len() == 8,
    ensures
        spec_unframe(spec_frame(salt, nonce, encrypted)) == Some((salt, nonce, encrypted)),
{
    let f = spec_frame(salt, nonce, encrypted);
    assert(f[32] == CIPHER_ID);
    assert(f.subrange(0, 32) =~= salt);
    assert(f.subrange(33, 41) =~= nonce);
    assert(f.subrange(41, f.len() as int) =~= encrypted);
}

} // verus!
