use crate::error::KeystoreError;
use crate::name::KeyName;
use pkcs8::PrivateKeyDocument;
use vstd::prelude::*;

verus! {

#[verifier::external_type_specification]
#[verifier::external_body]
pub struct ExPrivateKeyDocument(PrivateKeyDocument);

#[verifier::external_type_specification]
#[verifier::external_body]
pub struct ExPkcs8Error(pkcs8::Error);

/// The DER bytes of the PKCS#8 document that pkcs8 decodes from a PEM text,
/// if it decodes one.
pub uninterp spec fn pkcs8_der_of_pem(pem: Seq<char>) -> Option<Seq<u8>>;

/// The PEM text, with LF line endings, that pkcs8 writes for a PKCS#8
/// document's DER bytes.
pub uninterp spec fn pkcs8_pem_of_der(der: Seq<u8>) -> Seq<char>;

/// The DER bytes that a pkcs8 private key document holds.
pub uninterp spec fn pkcs8_document_der(d: PrivateKeyDocument) -> Seq<u8>;

/// Relies on pkcs8::PrivateKeyDocument::from_pem: it decodes a PEM
/// `PRIVATE KEY` block into the document holding the block's DER bytes, and
/// fails on any other text.
pub assume_specification[ PrivateKeyDocument::from_pem ](s: &str) -> (r: Result<
    PrivateKeyDocument,
    pkcs8::Error,
>)
    ensures
        match r {
            Ok(d) => pkcs8_der_of_pem(s@) == Some(pkcs8_document_der(d)),
            Err(_) => pkcs8_der_of_pem(s@) is None,
        },
;

/// Relies on pkcs8::PrivateKeyDocument::to_pem: it writes the document's DER
/// bytes as a PEM `PRIVATE KEY` block, which `from_pem` reads back as the
/// same bytes.
#[verifier::external_body]
fn document_pem(d: &PrivateKeyDocument) -> (r: String)
    ensures
        r@ == pkcs8_pem_of_der(pkcs8_document_der(*d)),
        pkcs8_der_of_pem(r@) == Some(pkcs8_document_der(*d)),
{
    d.to_pem().as_str().to_owned()
}

/// Relies on `AsRef<[u8]> for pkcs8::PrivateKeyDocument`: the document's DER
/// bytes.
#[verifier::external_body]
fn document_der(d: &PrivateKeyDocument) -> (r: Vec<u8>)
    ensures
        r@ == pkcs8_document_der(*d),
{
    d.as_ref().to_vec()
}

/// A PKCS#8 private key document, held in its canonical PEM text and its DER
/// bytes. Each form determines the other: the text is what pkcs8 writes for
/// the bytes, and it reads back as the same bytes.
pub struct KeyDocument {
    der: Vec<u8>,
    pem: String,
}

impl View for KeyDocument {
    type V = Seq<char>;

    /// The canonical PEM text.
    closed spec fn view(&self) -> Seq<char> {
        self.pem@
    }
}

/// A canonical PEM text: the text pkcs8 writes for some DER bytes, which
/// reads back as those bytes.
pub open spec fn is_canonical_pem(pem: Seq<char>, der: Seq<u8>) -> bool {
    &&& pem == pkcs8_pem_of_der(der)
    &&& pkcs8_der_of_pem(pem) == Some(der)
}

impl KeyDocument {
    #[verifier::type_invariant]
    spec fn inv(&self) -> bool {
        is_canonical_pem(self.pem@, self.der@)
    }

    /// Decodes a PEM-armoured PKCS#8 private key and keeps it in canonical
    /// form; any other text is reported as corrupt key material.
    pub fn from_pem(pem: &str) -> (r: Result<KeyDocument, KeystoreError>)
        ensures
            r is Ok <==> pkcs8_der_of_pem(pem@) is Some,
            r matches Ok(d) ==> pkcs8_der_of_pem(pem@) matches Some(der) && d@
                == pkcs8_pem_of_der(der),
            r matches Err(e) ==> e == KeystoreError::Corrupt,
    {
        match PrivateKeyDocument::from_pem(pem) {
            Ok(doc) => {
                let text = document_pem(&doc);
                let der = document_der(&doc);
                Ok(KeyDocument { der, pem: text })
            },
            Err(_) => Err(KeystoreError::Corrupt),
        }
    }

    /// The document's canonical PEM text.
    pub fn to_pem(&self) -> (r: String)
        ensures
            r@ == self@,
            pkcs8_der_of_pem(r@) is Some,
    {
        proof {
            use_type_invariant(self);
        }
        self.pem.clone()
    }

    /// Borrows the document's canonical PEM text.
    pub fn pem(&self) -> (r: &str)
        ensures
            r@ == self@,
            pkcs8_der_of_pem(r@) is Some,
    {
        proof {
            use_type_invariant(self);
        }
        self.pem.as_str()
    }

    /// The document's DER bytes, which its PEM text encodes.
    pub fn to_der(&self) -> (r: Vec<u8>)
        ensures
            is_canonical_pem(self@, r@),
    {
        proof {
            use_type_invariant(self);
        }
        self.der.clone()
    }
}

impl Clone for KeyDocument {
    fn clone(&self) -> (r: KeyDocument)
        ensures
            r@ == self@,
    {
        proof {
            use_type_invariant(self);
        }
        KeyDocument { der: self.der.clone(), pem: self.pem.clone() }
    }
}

/// Metadata about a stored key; it never holds key material.
pub struct KeyInfo {
    /// The key's name.
    pub name: KeyName,
    /// The key's algorithm, where the backend recognised it.
    pub algorithm: Option<String>,
    /// Whether the key is stored encrypted under a password.
    pub encrypted: bool,
}

} // verus!
