//! Symmetric encryption and message authentication for agent channels.
//!
//! The cipher suite is carried as data (`CipherSuite`) so that the symmetric
//! algorithm can be replaced without touching any call site: every caller goes
//! through `encrypt` / `decrypt`, which dispatch on the suite.

use vstd::prelude::*;

verus! {

/// The symmetric cipher suites a channel can negotiate. Keeping the suite as
/// a value (rather than a fixed algorithm) is what makes the encryption layer
/// algorithm-agile.
#[derive(Clone, Copy, PartialEq, Eq, Structural, Debug)]
pub enum CipherSuite {
    /// Keystream cipher combining plaintext and key bytes with exclusive or.
    StreamXor,
    /// Keystream cipher adding key bytes to plaintext bytes modulo 256.
    StreamAdd,
}

/// The keystream byte used at position `i`: the key is cycled over the
/// message.
pub open spec fn keystream_byte(key: Seq<u8>, i: int) -> u8
    recommends
        key.len() > 0,
{
    key[i % key.len() as int]
}

/// One byte of ciphertext from one byte of plaintext and one keystream byte.
pub open spec fn encrypt_byte(suite: CipherSuite, k: u8, p: u8) -> u8 {
    match suite {
        CipherSuite::StreamXor => p ^ k,
        CipherSuite::StreamAdd => ((p as int + k as int) % 256) as u8,
    }
}

/// One byte of plaintext from one byte of ciphertext and one keystream byte.
pub open spec fn decrypt_byte(suite: CipherSuite, k: u8, c: u8) -> u8 {
    match suite {
        CipherSuite::StreamXor => c ^ k,
        CipherSuite::StreamAdd => ((c as int - k as int + 256) % 256) as u8,
    }
}

/// The ciphertext of `p` under `key` with `suite`.
pub open spec fn spec_encrypt(suite: CipherSuite, key: Seq<u8>, p: Seq<u8>) -> Seq<u8> {
    Seq::new(p.len(), |i: int| encrypt_byte(suite, keystream_byte(key, i), p[i]))
}

/// The plaintext of `c` under `key` with `suite`.
pub open spec fn spec_decrypt(suite: CipherSuite, key: Seq<u8>, c: Seq<u8>) -> Seq<u8> {
    Seq::new(c.len(), |i: int| decrypt_byte(suite, keystream_byte(key, i), c[i]))
}

proof fn lemma_byte_round_trip(suite: CipherSuite, k: u8, p: u8)
    ensures
        decrypt_byte(suite, k, encrypt_byte(suite, k, p)) == p,
{
    match suite {
        CipherSuite::StreamXor => {
            assert((p ^ k) ^ k == p) by (bit_vector);
        },
        CipherSuite::StreamAdd => {
            let c = ((p as int + k as int) % 256) as u8;
            assert((c as int - k as int + 256) % 256 == p as int);
        },
    }
}

/// Whatever the suite and the (nonempty) key, decryption inverts encryption:
/// a message sent over a channel decrypts at the receiving end to the bytes
/// that were encrypted.
pub proof fn lemma_encrypt_decrypt_round_trip(suite: CipherSuite, key: Seq<u8>, p: Seq<u8>)
    requires
        key.len() > 0,
    ensures
        spec_decrypt(suite, key, spec_encrypt(suite, key, p)) == p,
{
    let c = spec_encrypt(suite, key, p);
    assert forall|i: int| 0 <= i < p.len() implies spec_decrypt(suite, key, c)[i] == p[i] by {
        lemma_byte_round_trip(suite, keystream_byte(key, i), p[i]);
    }
    assert(spec_decrypt(suite, key, c) =~= p);
}

/// Encrypts `plain` under `key` with `suite`.
pub fn encrypt(suite: CipherSuite, key: &Vec<u8>, plain: &Vec<u8>) -> (c: Vec<u8>)
    requires
        key@.len() > 0,
    ensures
        c@ == spec_encrypt(suite, key@, plain@),
{
    let mut out: Vec<u8> = Vec::new();
    let mut i: usize = 0;
    while i < plain.len()
        invariant
            key@.len() > 0,
            i <= plain@.len(),
            out@.len() == i,
            forall|j: int|
                0 <= j < i ==> out@[j] == encrypt_byte(suite, keystream_byte(key@, j), plain@[j]),
        decreases plain@.len() - i,
    {
        let k = key[i % key.len()];
        let p = plain[i];
        let c = match suite {
            CipherSuite::StreamXor => p ^ k,
            CipherSuite::StreamAdd => (((p as u16) + (k as u16)) % 256) as u8,
        };
        out.push(c);
        i += 1;
    }
    assert(out@ =~= spec_encrypt(suite, key@, plain@));
    out
}

/// Decrypts `cipher` under `key` with `suite`.
pub fn decrypt(suite: CipherSuite, key: &Vec<u8>, cipher: &Vec<u8>) -> (p: Vec<u8>)
    requires
        key@.len() > 0,
    ensures
        p@ == spec_decrypt(suite, key@, cipher@),
{
    let mut out: Vec<u8> = Vec::new();
    let mut i: usize = 0;
    while i < cipher.len()
        invariant
            key@.len() > 0,
            i <= cipher@.len(),
            out@.len() == i,
            forall|j: int|
                0 <= j < i ==> out@[j] == decrypt_byte(suite, keystream_byte(key@, j), cipher@[j]),
        decreases cipher@.len() - i,
    {
        let k = key[i % key.len()];
        let c = cipher[i];
        let p = match suite {
            CipherSuite::StreamXor => c ^ k,
            CipherSuite::StreamAdd => (((c as u16) + 256 - (k as u16)) % 256) as u8,
        };
        out.push(p);
        i += 1;
    }
    assert(out@ =~= spec_decrypt(suite, key@, cipher@));
    out
}

/// One step of the keyed message-authentication fold.
pub open spec fn mac_step(h: u64, b: u8) -> u64 {
    ((h as int * 31 + b as int) % 0x1_0000_0000_0000_0000) as u64
}

/// The authenticator of the first `n` bytes of `msg` under `key`.
pub open spec fn spec_mac_prefix(key: u64, msg: Seq<u8>, n: int) -> u64
    recommends
        0 <= n <= msg.len(),
    decreases n,
{
    if n <= 0 {
        key
    } else {
        mac_step(spec_mac_prefix(key, msg, n - 1), msg[n - 1])
    }
}

/// The keyed authenticator of `msg` under `key`: a fold of `mac_step` over
/// the message bytes, starting from the key.
pub open spec fn spec_mac(key: u64, msg: Seq<u8>) -> u64 {
    spec_mac_prefix(key, msg, msg.len() as int)
}

/// Computes the keyed authenticator of `msg` under `key`.
pub fn mac_bytes(key: u64, msg: &Vec<u8>) -> (t: u64)
    ensures
        t == spec_mac(key, msg@),
{
    let mut h = key;
    let mut i: usize = 0;
    while i < msg.len()
        invariant
            i <= msg@.len(),
            h == spec_mac_prefix(key, msg@, i as int),
        decreases msg@.len() - i,
    {
        let prod: u128 = (h as u128) * 31 + (msg[i] as u128);
        h = (prod % 0x1_0000_0000_0000_0000u128) as u64;
        i += 1;
    }
    h
}

} // verus!
