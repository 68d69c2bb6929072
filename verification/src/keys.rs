//! Key generation and address derivation.
//!
//! Every attempt draws a fresh random key pair from an OS-backed source and
//! derives the mainnet pay-to-witness-public-key-hash address of its public
//! key. Keys are carried as their plain byte encodings: 32 secret-key bytes
//! and the 33 bytes of the compressed public-key encoding. Derivation and
//! wallet-import-format encoding are pure functions of those bytes; the hex
//! encoding of the public key is computed and proved here.

use vstd::prelude::*;
use vstd::string::StringExecFns;
use crate::text::digit_char;

verus! {

/// The textual mainnet p2wpkh address that the bitcoin crate derives from a
/// 33-byte compressed public-key encoding: a pure function of those bytes.
pub uninterp spec fn address_of(pk: Seq<u8>) -> Seq<char>;

/// The wallet-import-format string that the bitcoin crate gives to 32
/// mainnet secret-key bytes with the compressed flag set: a pure function of
/// those bytes.
pub uninterp spec fn wif_of(sk: Seq<u8>) -> Seq<char>;

/// The lowercase form of a string: a pure function of its characters.
pub uninterp spec fn lower_of(s: Seq<char>) -> Seq<char>;

/// Whether the bitcoin crate derives an address from these public-key
/// bytes. Deterministic in the bytes: exactly the 33-byte valid compressed
/// point encodings are accepted, everything else is refused.
pub uninterp spec fn derive_ok(pk: Seq<u8>) -> bool;

/// Whether the bitcoin crate encodes these secret-key bytes in
/// wallet-import format. Deterministic in the bytes: exactly the 32-byte
/// nonzero scalars below the curve order are accepted.
pub uninterp spec fn wif_ok(sk: Seq<u8>) -> bool;

/// Relies on secp256k1's Secp256k1::generate_keypair drawing from OsRng,
/// with SecretKey::secret_bytes and PublicKey::serialize turning the pair
/// into plain bytes. The values depend on the entropy drawn, so nothing is
/// promised of them beyond their lengths, which the return types fix, and
/// their validity: generate_keypair returns only in-range keys, serialize
/// yields the valid compressed encoding of the point, so the two codecs
/// named by `wif_ok` and `derive_ok` accept every generated pair.
#[verifier::external_body]
fn generate_keypair_bytes() -> (r: (Vec<u8>, Vec<u8>))
    ensures
        r.0@.len() == 32,
        r.1@.len() == 33,
        wif_ok(r.0@),
        derive_ok(r.1@),
{
    let secp = secp256k1::Secp256k1::new();
    let (sk, pk) = secp.generate_keypair(&mut secp256k1::rand::rngs::OsRng);
    (sk.secret_bytes().to_vec(), pk.serialize().to_vec())
}

/// Relies on bitcoin's PublicKey::from_slice and Address::p2wpkh on the
/// Bitcoin network, the address rendered by its Display form: for given
/// public-key bytes the derived address is always the same string, named
/// `address_of`. Whether the bytes are accepted is just as deterministic,
/// named `derive_ok`: from_slice refuses anything but a valid point
/// encoding of 33 or 65 bytes, and p2wpkh then refuses the uncompressed
/// ones.
#[verifier::external_body]
fn derive_p2wpkh(pk: &Vec<u8>) -> (r: Option<String>)
    ensures
        r is Some <==> derive_ok(pk@),
        r matches Some(s) ==> s@ == address_of(pk@),
{
    let key = match bitcoin::PublicKey::from_slice(pk.as_slice()) {
        Ok(k) => k,
        Err(_) => return None,
    };
    match bitcoin::Address::p2wpkh(&key, bitcoin::Network::Bitcoin) {
        Ok(a) => Some(a.to_string()),
        Err(_) => None,
    }
}

/// Relies on bitcoin's PrivateKey::from_slice and PrivateKey::to_wif on the
/// Bitcoin network: for given secret-key bytes the wallet-import-format
/// string is always the same, named `wif_of`. Whether the bytes are
/// accepted is just as deterministic, named `wif_ok`: from_slice refuses
/// anything but a 32-byte nonzero in-range scalar, and to_wif itself never
/// fails.
#[verifier::external_body]
fn encode_wif_bytes(sk: &Vec<u8>) -> (r: Option<String>)
    ensures
        r is Some <==> wif_ok(sk@),
        r matches Some(s) ==> s@ == wif_of(sk@),
{
    match bitcoin::PrivateKey::from_slice(sk.as_slice(), bitcoin::Network::Bitcoin) {
        Ok(k) => Some(k.to_wif()),
        Err(_) => None,
    }
}

/// Relies on str::to_lowercase: the result depends on the characters alone,
/// named `lower_of`; an empty string stays empty.
#[verifier::external_body]
pub(crate) fn lowercase(s: &str) -> (r: String)
    ensures
        r@ == lower_of(s@),
        s@.len() == 0 ==> r@.len() == 0,
{
    s.to_lowercase()
}

/// The character for one hex digit, lowercase.
pub open spec fn hex_digit_char(d: nat) -> char {
    if d < 10 {
        digit_char(d)
    } else if d == 10 {
        'a'
    } else if d == 11 {
        'b'
    } else if d == 12 {
        'c'
    } else if d == 13 {
        'd'
    } else if d == 14 {
        'e'
    } else {
        'f'
    }
}

/// The lowercase hex encoding of a byte sequence, two digits per byte.
pub open spec fn spec_hex(bytes: Seq<u8>) -> Seq<char>
    decreases bytes.len(),
{
    if bytes.len() == 0 {
        Seq::<char>::empty()
    } else {
        spec_hex(bytes.drop_last()) + seq![
            hex_digit_char((bytes.last() / 16) as nat),
            hex_digit_char((bytes.last() % 16) as nat),
        ]
    }
}

fn hex_digit_str(d: u8) -> (r: &'static str)
    requires
        d < 16,
    ensures
        r@ == seq![hex_digit_char(d as nat)],
{
    if d < 10 {
        crate::text::digit_str(d as u64)
    } else if d == 10 {
        proof {
            reveal_strlit("a");
            assert("a"@ =~= seq![hex_digit_char(10nat)]);
        }
        "a"
    } else if d == 11 {
        proof {
            reveal_strlit("b");
            assert("b"@ =~= seq![hex_digit_char(11nat)]);
        }
        "b"
    } else if d == 12 {
        proof {
            reveal_strlit("c");
            assert("c"@ =~= seq![hex_digit_char(12nat)]);
        }
        "c"
    } else if d == 13 {
        proof {
            reveal_strlit("d");
            assert("d"@ =~= seq![hex_digit_char(13nat)]);
        }
        "d"
    } else if d == 14 {
        proof {
            reveal_strlit("e");
            assert("e"@ =~= seq![hex_digit_char(14nat)]);
        }
        "e"
    } else {
        proof {
            reveal_strlit("f");
            assert("f"@ =~= seq![hex_digit_char(15nat)]);
        }
        "f"
    }
}

/// Lowercase hex encoding of a byte vector, two digits per byte.
pub fn hex_string(bytes: &Vec<u8>) -> (r: String)
    ensures
        r@ == spec_hex(bytes@),
{
    let mut r = String::new();
    let mut i: usize = 0;
    proof {
        assert(bytes@.subrange(0, 0) =~= Seq::<u8>::empty());
    }
    while i < bytes.len()
        invariant
            i <= bytes@.len(),
            r@ == spec_hex(bytes@.subrange(0, i as int)),
        decreases bytes@.len() - i,
    {
        let b = bytes[i];
        let hi = b / 16;
        let lo = b % 16;
        r.append(hex_digit_str(hi));
        r.append(hex_digit_str(lo));
        i += 1;
        proof {
            let cur = bytes@.subrange(0, i as int);
            assert(cur.drop_last() =~= bytes@.subrange(0, i - 1));
            assert(cur.last() == b);
            assert(r@ =~= spec_hex(cur));
        }
    }
    proof {
        assert(bytes@.subrange(0, bytes@.len() as int) =~= bytes@);
    }
    r
}

/// One candidate of the search: a fresh key pair and the address derived
/// from its public key.
pub struct Candidate {
    pub secret_key: Vec<u8>,
    pub public_key: Vec<u8>,
    pub address: String,
}

impl Candidate {
    /// A candidate is well formed when its address is the one derived from
    /// its 33 public-key bytes and its secret key has its 32 bytes.
    pub open spec fn wf(&self) -> bool {
        &&& self.secret_key@.len() == 32
        &&& self.public_key@.len() == 33
        &&& self.address@ == address_of(self.public_key@)
    }
}

/// Derives the mainnet p2wpkh address of a compressed public-key encoding.
/// Deterministic in the bytes alone: succeeds exactly on the encodings the
/// deriver accepts (`derive_ok`), and then the result is `address_of`.
pub fn derive_address(pk: &Vec<u8>) -> (r: Option<String>)
    ensures
        r is Some <==> derive_ok(pk@),
        r matches Some(s) ==> s@ == address_of(pk@),
{
    derive_p2wpkh(pk)
}

/// Encodes secret-key bytes in wallet-import format for the Bitcoin
/// network. Deterministic in the bytes alone: succeeds exactly on the keys
/// the encoder accepts (`wif_ok`), and then the result is `wif_of`.
pub fn encode_wif(sk: &Vec<u8>) -> (r: Option<String>)
    ensures
        r is Some <==> wif_ok(sk@),
        r matches Some(s) ==> s@ == wif_of(sk@),
{
    encode_wif_bytes(sk)
}

/// One attempt's candidate: a fresh random key pair with its derived
/// address. Generated keys are always accepted by the deriver and the
/// wallet-import-format encoder, so this cannot fail.
pub fn fresh_candidate() -> (c: Candidate)
    ensures
        c.wf(),
        wif_ok(c.secret_key@),
{
    let (secret_key, public_key) = generate_keypair_bytes();
    match derive_p2wpkh(&public_key) {
        Some(address) => Candidate { secret_key, public_key, address },
        None => vstd::pervasive::unreached(),
    }
}

/// Address derivation is deterministic: two derivations from the same
/// public-key bytes give identical address strings.
pub proof fn lemma_derivation_deterministic(pk: Seq<u8>, r1: Seq<char>, r2: Seq<char>)
    requires
        r1 == address_of(pk),
        r2 == address_of(pk),
    ensures
        r1 == r2,
{
}

} // verus!
