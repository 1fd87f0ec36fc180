//! Cryptographic utilities: digests, the hash-chain check, random bytes,
//! key derivation, XOR masking and Base64.
use vstd::prelude::*;
use vstd::utf8::encode_utf8;
use crate::error::DuskuraError;
use crate::outside::{
    sha256, sha256_digest, hex_encode, hex_lower, random_byte, base64_encode, base64_decode,
    base64_standard_encode, base64_standard_decode, encode_salt, argon2_hash, argon2_default_hash,
    phc_salt_text, lemma_base64_unpadded_len,
};
use vstd::string::StringExecFns;

verus! {

/// The lower-case hexadecimal text of the SHA-256 digest of `data`.
pub open spec fn digest_text(data: Seq<u8>) -> Seq<char> {
    hex_lower(sha256_digest(data))
}

/// SHA-256 of `data`, as lower-case hexadecimal text.
pub fn hash(data: &[u8]) -> (res: String)
    ensures
        res@ == digest_text(data@),
{
    let digest = sha256(data);
    hex_encode(digest.as_slice())
}

/// Whether a sequence of `(hash, previous hash)` links is chained: each
/// link names the hash of the one before it as its previous hash, except
/// after a link whose own hash is empty, which imposes nothing.
pub open spec fn links_chained(links: Seq<(String, String)>) -> bool {
    forall|i: int|
        1 <= i < links.len() ==> (links[i - 1].0@.len() == 0 || links[i - 1].0@ == links[i].1@)
}

/// Checks that `entries`, a sequence of `(hash, previous hash)` pairs, is
/// chained (see `links_chained`); the first pair's previous hash is not
/// checked.
pub fn verify_hash_chain(entries: &[(String, String)]) -> (res: Result<(), DuskuraError>)
    ensures
        res is Ok <==> links_chained(entries@),
        res is Err ==> res == Err::<(), DuskuraError>(DuskuraError::HashVerificationFailed),
{
    if entries.len() == 0 {
        return Ok(());
    }
    let mut prev_hash = String::new();
    let mut i: usize = 0;
    while i < entries.len()
        invariant
            i <= entries@.len(),
            i == 0 ==> prev_hash@.len() == 0,
            i > 0 ==> prev_hash@ == entries@[i - 1].0@,
            forall|j: int|
                1 <= j < i ==> (entries@[j - 1].0@.len() == 0 || entries@[j - 1].0@
                    == entries@[j].1@),
        decreases entries@.len() - i,
    {
        let (current_hash, prev_in_entry) = &entries[i];
        if !prev_hash.as_str().is_empty() && prev_hash != *prev_in_entry {
            return Err(DuskuraError::HashVerificationFailed);
        }
        prev_hash = current_hash.clone();
        i = i + 1;
    }
    Ok(())
}

/// `len` bytes from the thread's cryptographically secure generator.
pub fn random_bytes(len: usize) -> (res: Vec<u8>)
    ensures
        res@.len() == len,
{
    let mut res: Vec<u8> = Vec::new();
    let mut i: usize = 0;
    while i < len
        invariant
            i <= len,
            res@.len() == i,
        decreases len - i,
    {
        res.push(random_byte());
        i = i + 1;
    }
    res
}

/// The lower-case hexadecimal text of `len` random bytes.
pub fn random_hex(len: usize) -> (res: String)
    ensures
        exists|bytes: Seq<u8>| bytes.len() == len && res@ == hex_lower(bytes),
{
    let bytes = random_bytes(len);
    let res = hex_encode(bytes.as_slice());
    assert(bytes@.len() == len && res@ == hex_lower(bytes@));
    res
}

/// The key Argon2 (default parameters) derives from a password and a salt:
/// the hash output for the password's UTF-8 bytes and the salt's B64 text.
pub open spec fn argon2_key(password: Seq<char>, salt: Seq<u8>) -> Option<Seq<u8>> {
    argon2_default_hash(encode_utf8(password), phc_salt_text(salt))
}

/// Derives a 32-byte key from a password and a salt with Argon2 (default
/// parameters).
///
/// The salt must be at least 3 bytes: a shorter salt's B64 text is shorter
/// than the 4 characters a salt needs.  Argon2 needs 8 to 48 bytes of
/// salt; outside that range the derivation fails with `EncryptionFailed`.
pub fn derive_key(password: &str, salt: &[u8]) -> (res: Result<Vec<u8>, DuskuraError>)
    requires
        salt@.len() >= 3,
    ensures
        res is Ok <==> argon2_key(password@, salt@) is Some && salt@.len() <= 48,
        res matches Ok(k) ==> argon2_key(password@, salt@) == Some(k@) && k@.len() == 32,
        res matches Err(e) ==> e is EncryptionFailed,
        salt@.len() < 8 || salt@.len() > 48 ==> res is Err,
        8 <= salt@.len() <= 48 && encode_utf8(password@).len() <= 0xffff_ffff ==> res is Ok,
{
    let salt_text = match encode_salt(salt) {
        Ok(t) => t,
        Err(msg) => {
            return Err(DuskuraError::EncryptionFailed(msg));
        },
    };
    proof {
        lemma_base64_unpadded_len(salt@);
        assert(salt@.len() < 8 ==> salt_text@.len() < 11);
    }
    let hashed = match argon2_hash(password, salt_text.as_str()) {
        Ok(h) => h,
        Err(msg) => {
            return Err(DuskuraError::EncryptionFailed(msg));
        },
    };
    match hashed {
        Some(key) => Ok(key),
        None => Err(DuskuraError::EncryptionFailed(String::from_str("No hash generated"))),
    }
}

/// `data` masked with `key`, repeated: byte `i` is `data[i] ^ key[i % |key|]`.
pub open spec fn xor_with_key(data: Seq<u8>, key: Seq<u8>) -> Seq<u8> {
    Seq::new(data.len(), |i: int| data[i] ^ key[i % key.len() as int])
}

/// Masks `data` with the repeated `key`.  The key may be empty only when
/// the data is.
pub fn xor_encrypt(data: &[u8], key: &[u8]) -> (res: Vec<u8>)
    requires
        data@.len() == 0 || key@.len() > 0,
    ensures
        res@ == xor_with_key(data@, key@),
{
    let mut res: Vec<u8> = Vec::new();
    let mut i: usize = 0;
    while i < data.len()
        invariant
            data@.len() == 0 || key@.len() > 0,
            i <= data@.len(),
            res@ =~= xor_with_key(data@, key@).subrange(0, i as int),
        decreases data@.len() - i,
    {
        let b = data[i] ^ key[i % key.len()];
        res.push(b);
        i = i + 1;
    }
    assert(res@ =~= xor_with_key(data@, key@));
    res
}

/// Removes the mask that `xor_encrypt` put on `data` with the same key.
pub fn xor_decrypt(data: &[u8], key: &[u8]) -> (res: Vec<u8>)
    requires
        data@.len() == 0 || key@.len() > 0,
    ensures
        res@ == xor_with_key(data@, key@),
{
    xor_encrypt(data, key)
}

/// Masking twice with the same key gives the data back: decryption undoes
/// encryption.
pub proof fn lemma_xor_roundtrip(data: Seq<u8>, key: Seq<u8>)
    requires
        data.len() == 0 || key.len() > 0,
    ensures
        xor_with_key(xor_with_key(data, key), key) == data,
{
    let once = xor_with_key(data, key);
    let twice = xor_with_key(once, key);
    assert forall|i: int| 0 <= i < data.len() implies twice[i] == data[i] by {
        let d = data[i];
        let k = key[i % key.len() as int];
        assert((d ^ k) ^ k == d) by (bit_vector);
    }
    assert(twice =~= data);
}

/// Standard Base64 text (with padding) of `data`.
pub fn encode_base64(data: &[u8]) -> (res: String)
    ensures
        res@ == base64_standard_encode(data@),
{
    base64_encode(data)
}

/// Decodes standard Base64 text; a text that is not canonical Base64 fails
/// with `EncryptionFailed`.
pub fn decode_base64(data: &str) -> (res: Result<Vec<u8>, DuskuraError>)
    ensures
        res is Ok <==> base64_standard_decode(encode_utf8(data@)) is Some,
        res matches Ok(v) ==> base64_standard_decode(encode_utf8(data@)) == Some(v@),
        res matches Err(e) ==> e is EncryptionFailed,
{
    match base64_decode(data) {
        Ok(v) => Ok(v),
        Err(msg) => Err(DuskuraError::EncryptionFailed(msg)),
    }
}

} // verus!
