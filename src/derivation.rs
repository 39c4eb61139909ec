use crate::document::KeyDocument;
use crate::error::KeystoreError;
use deep_space::error::PrivateKeyError;
use deep_space::CosmosPrivateKey;
use vstd::prelude::*;

verus! {

#[verifier::external_type_specification]
#[verifier::external_body]
pub struct ExEvmPrivateKey(clarity::PrivateKey);

#[verifier::external_type_specification]
#[verifier::external_body]
pub struct ExEvmKeyError(clarity::Error);

#[verifier::external_type_specification]
#[verifier::external_body]
pub struct ExCosmosPrivateKey(CosmosPrivateKey);

#[verifier::external_type_specification]
#[verifier::external_body]
pub struct ExCosmosKeyError(PrivateKeyError);

/// The lowercase hexadecimal digit for `n`, which is below 16.
pub open spec fn hex_digit(n: int) -> char {
    if n == 0 { '0' }
    else if n == 1 { '1' }
    else if n == 2 { '2' }
    else if n == 3 { '3' }
    else if n == 4 { '4' }
    else if n == 5 { '5' }
    else if n == 6 { '6' }
    else if n == 7 { '7' }
    else if n == 8 { '8' }
    else if n == 9 { '9' }
    else if n == 10 { 'a' }
    else if n == 11 { 'b' }
    else if n == 12 { 'c' }
    else if n == 13 { 'd' }
    else if n == 14 { 'e' }
    else { 'f' }
}

/// A lowercase hexadecimal digit.
pub open spec fn is_lower_hex_digit(c: char) -> bool {
    ('0' <= c && c <= '9') || ('a' <= c && c <= 'f')
}

/// A text of 64 lowercase hexadecimal digits, as a 32-byte key is written.
pub open spec fn is_key_hex(s: Seq<char>) -> bool {
    &&& s.len() == 64
    &&& forall|i: int| 0 <= i < s.len() ==> is_lower_hex_digit(#[trigger] s[i])
}

/// Two lowercase hexadecimal digits for each byte, the high half first.
pub open spec fn lower_hex(b: Seq<u8>) -> Seq<char> {
    Seq::new(
        2 * b.len(),
        |i: int|
            if i % 2 == 0 {
                hex_digit(b[i / 2] as int / 16)
            } else {
                hex_digit(b[i / 2] as int % 16)
            },
    )
}

/// The 32-byte big-endian secp256k1 scalar that k256 reads from a PKCS#8
/// PEM text, if it reads one.
pub uninterp spec fn secp256k1_scalar_of_pem(pem: Seq<char>) -> Option<Seq<u8>>;

/// Relies on k256's `FromStr for SecretKey`, which decodes a PKCS#8 PEM
/// document holding a secp256k1 key, and on `SecretKey::to_bytes`, which
/// gives its scalar as 32 big-endian bytes. The result depends on the text
/// alone.
#[verifier::external_body]
fn secp256k1_scalar(pem: &str) -> (r: Option<[u8; 32]>)
    ensures
        match r {
            Some(b) => secp256k1_scalar_of_pem(pem@) == Some(b@),
            None => secp256k1_scalar_of_pem(pem@) is None,
        },
{
    match pem.parse::<k256::SecretKey>() {
        Ok(k) => Some(k.to_bytes().into()),
        Err(_) => None,
    }
}

/// The 32 bytes that an EVM private key holds.
pub uninterp spec fn evm_key_bytes(k: clarity::PrivateKey) -> Seq<u8>;

/// The 32 bytes that a Cosmos private key holds.
pub uninterp spec fn cosmos_key_bytes(k: CosmosPrivateKey) -> Seq<u8>;

/// Relies on clarity::PrivateKey::from_slice, which accepts exactly the
/// slices of 32 bytes and copies the slice into the key.
pub assume_specification[ clarity::PrivateKey::from_slice ](slice: &[u8]) -> (r: Result<
    clarity::PrivateKey,
    clarity::Error,
>)
    ensures
        r is Ok <==> slice@.len() == 32,
        r matches Ok(k) ==> evm_key_bytes(k) == slice@,
;

/// Relies on clarity::PrivateKey::to_bytes, which returns the bytes the key
/// holds.
pub assume_specification[ clarity::PrivateKey::to_bytes ](k: clarity::PrivateKey) -> (r: [u8; 32])
    ensures
        r@ == evm_key_bytes(k),
;

/// Relies on deep_space::utils::bytes_to_hex_str, which writes each byte as
/// two lowercase hexadecimal digits, zero-padded, in order.
pub assume_specification[ deep_space::utils::bytes_to_hex_str ](bytes: &[u8]) -> (r: String)
    ensures
        r@ == lower_hex(bytes@),
;

/// Relies on `FromStr for deep_space::CosmosPrivateKey`, which decodes a
/// text of 64 hexadecimal digits, two per byte, into the bytes of a 32-byte
/// key.
#[verifier::external_body]
fn parse_cosmos_key(s: &str) -> (r: Result<CosmosPrivateKey, PrivateKeyError>)
    ensures
        is_key_hex(s@) ==> r is Ok,
        r matches Ok(k) ==> (is_key_hex(s@) ==> lower_hex(cosmos_key_bytes(k)) == s@),
{
    s.parse::<CosmosPrivateKey>()
}

/// Reads the secp256k1 scalar out of a key document, as 32 big-endian
/// bytes.
pub fn secret_scalar(doc: &KeyDocument) -> (r: Result<[u8; 32], KeystoreError>)
    ensures
        match r {
            Ok(b) => secp256k1_scalar_of_pem(doc@) == Some(b@),
            Err(e) => secp256k1_scalar_of_pem(doc@) is None && e == KeystoreError::KeyFormat,
        },
{
    match secp256k1_scalar(doc.pem()) {
        Some(b) => Ok(b),
        None => Err(KeystoreError::KeyFormat),
    }
}

/// The EVM chain's private key for a document: its scalar bytes taken as the
/// chain's 32-byte key.
pub fn evm_key(doc: &KeyDocument) -> (r: Result<clarity::PrivateKey, KeystoreError>)
    ensures
        r is Ok <==> secp256k1_scalar_of_pem(doc@) is Some,
        r matches Ok(k) ==> secp256k1_scalar_of_pem(doc@) == Some(evm_key_bytes(k)),
        r matches Err(e) ==> e == KeystoreError::KeyFormat,
{
    let scalar = secret_scalar(doc)?;
    match clarity::PrivateKey::from_slice(scalar.as_slice()) {
        Ok(k) => Ok(k),
        Err(_) => Err(KeystoreError::KeyFormat),
    }
}

/// The text from which the Cosmos chain's key is read: the document's scalar
/// in lowercase hexadecimal.
pub fn cosmos_key_hex(doc: &KeyDocument) -> (r: Result<String, KeystoreError>)
    ensures
        match r {
            Ok(h) => secp256k1_scalar_of_pem(doc@) matches Some(s) && s.len() == 32 && h@ == lower_hex(s),
            Err(e) => secp256k1_scalar_of_pem(doc@) is None && e == KeystoreError::KeyFormat,
        },
{
    let scalar = secret_scalar(doc)?;
    Ok(deep_space::utils::bytes_to_hex_str(scalar.as_slice()))
}

/// The Cosmos chain's private key for a document, parsed from its scalar's
/// hexadecimal text.
pub fn cosmos_key(doc: &KeyDocument) -> (r: Result<CosmosPrivateKey, KeystoreError>)
    ensures
        r is Ok <==> secp256k1_scalar_of_pem(doc@) is Some,
        r matches Ok(k) ==> secp256k1_scalar_of_pem(doc@) == Some(cosmos_key_bytes(k)),
        r matches Err(e) ==> e == KeystoreError::KeyFormat,
{
    let hex = cosmos_key_hex(doc)?;
    proof {
        let s = secp256k1_scalar_of_pem(doc@)->Some_0;
        lemma_lower_hex_digits(s);
    }
    match parse_cosmos_key(hex.as_str()) {
        Ok(k) => {
            proof {
                let s = secp256k1_scalar_of_pem(doc@)->Some_0;
                lemma_lower_hex_injective(cosmos_key_bytes(k), s);
            }
            Ok(k)
        },
        Err(_) => Err(KeystoreError::KeyFormat),
    }
}

/// The raw bytes of an EVM private key.
pub fn evm_key_raw_bytes(k: clarity::PrivateKey) -> (r: [u8; 32])
    ensures
        r@ == evm_key_bytes(k),
{
    k.to_bytes()
}

/// Every character of a byte string's hexadecimal text is a lowercase digit.
pub proof fn lemma_lower_hex_digits(b: Seq<u8>)
    ensures
        lower_hex(b).len() == 2 * b.len(),
        forall|i: int| 0 <= i < lower_hex(b).len() ==> is_lower_hex_digit(#[trigger] lower_hex(b)[i]),
{
}

/// Distinct values below 16 have distinct digits.
proof fn lemma_hex_digit_injective(x: int, y: int)
    requires
        0 <= x < 16,
        0 <= y < 16,
        hex_digit(x) == hex_digit(y),
    ensures
        x == y,
{
}

/// The hexadecimal text of a byte string determines the bytes: reading the
/// Cosmos key's text back gives exactly the scalar it was written from.
pub proof fn lemma_lower_hex_injective(x: Seq<u8>, y: Seq<u8>)
    requires
        lower_hex(x) == lower_hex(y),
    ensures
        x == y,
{
    assert(lower_hex(x).len() == 2 * x.len());
    assert(lower_hex(y).len() == 2 * y.len());
    assert(x.len() == y.len());
    assert forall|j: int| 0 <= j < x.len() implies x[j] == y[j] by {
        let hi = 2 * j;
        let lo = 2 * j + 1;
        assert(hi / 2 == j && hi % 2 == 0);
        assert(lo / 2 == j && lo % 2 == 1);
        assert(lower_hex(x)[hi] == hex_digit(x[j] as int / 16));
        assert(lower_hex(y)[hi] == hex_digit(y[j] as int / 16));
        assert(lower_hex(x)[lo] == hex_digit(x[j] as int % 16));
        assert(lower_hex(y)[lo] == hex_digit(y[j] as int % 16));
        lemma_hex_digit_injective(x[j] as int / 16, y[j] as int / 16);
        lemma_hex_digit_injective(x[j] as int % 16, y[j] as int % 16);
    }
    assert(x =~= y);
}

/// Deriving the keys twice from one document gives the same keys both
/// times, and the EVM key and the Cosmos key hold the same bytes: the
/// document's scalar.
pub proof fn lemma_derivation_deterministic(
    pem: Seq<char>,
    evm_first: clarity::PrivateKey,
    evm_second: clarity::PrivateKey,
    cosmos_first: CosmosPrivateKey,
    cosmos_second: CosmosPrivateKey,
)
    requires
        secp256k1_scalar_of_pem(pem) == Some(evm_key_bytes(evm_first)),
        secp256k1_scalar_of_pem(pem) == Some(evm_key_bytes(evm_second)),
        secp256k1_scalar_of_pem(pem) == Some(cosmos_key_bytes(cosmos_first)),
        secp256k1_scalar_of_pem(pem) == Some(cosmos_key_bytes(cosmos_second)),
    ensures
        evm_key_bytes(evm_first) == evm_key_bytes(evm_second),
        cosmos_key_bytes(cosmos_first) == cosmos_key_bytes(cosmos_second),
        evm_key_bytes(evm_first) == cosmos_key_bytes(cosmos_first),
{
}

} // verus!
