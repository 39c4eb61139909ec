use vstd::prelude::*;
use vstd::string::StrSliceExecFns;

verus! {

/// The longest name that the remote secret service accepts.
pub const MAX_KEY_NAME_LEN: usize = 512;

/// A character that the local file store accepts in a key name.
pub open spec fn is_name_char(c: char) -> bool {
    ||| ('a' <= c && c <= 'z')
    ||| ('A' <= c && c <= 'Z')
    ||| ('0' <= c && c <= '9')
    ||| c == '-'
    ||| c == '_'
}

/// The local file store's rule: every character is a letter, a digit, `-` or `_`.
pub open spec fn file_store_name_ok(s: Seq<char>) -> bool {
    forall|i: int| 0 <= i < s.len() ==> is_name_char(#[trigger] s[i])
}

/// A key name usable on both backends: the file store's characters, which the
/// secret service also accepts, and a length from 1 to the service's limit.
pub open spec fn valid_key_name(s: Seq<char>) -> bool {
    &&& file_store_name_ok(s)
    &&& 1 <= s.len() <= MAX_KEY_NAME_LEN
}

/// Relies on signatory::KeyName::new, which accepts exactly the names whose
/// bytes are ASCII letters, digits, `-` and `_`.
#[verifier::external_body]
fn file_store_accepts(s: &str) -> (r: bool)
    ensures
        r == file_store_name_ok(s@),
{
    signatory::KeyName::new(s).is_ok()
}

/// A validated key name.
pub struct KeyName {
    name: String,
}

impl View for KeyName {
    type V = Seq<char>;

    closed spec fn view(&self) -> Seq<char> {
        self.name@
    }
}

impl KeyName {
    #[verifier::type_invariant]
    spec fn inv(&self) -> bool {
        valid_key_name(self.name@)
    }

    /// Checks `s` against the naming rules of both backends.
    pub fn new(s: &str) -> (r: Result<KeyName, crate::error::KeystoreError>)
        ensures
            r is Ok <==> valid_key_name(s@),
            r matches Ok(n) ==> n@ == s@,
            r matches Err(e) ==> e == crate::error::KeystoreError::InvalidName,
    {
        if !file_store_accepts(s) {
            return Err(crate::error::KeystoreError::InvalidName);
        }
        let n = s.unicode_len();
        if n == 0 || n > MAX_KEY_NAME_LEN {
            return Err(crate::error::KeystoreError::InvalidName);
        }
        Ok(KeyName { name: s.to_owned() })
    }

    /// The name's text.
    pub fn as_str(&self) -> (r: &str)
        ensures
            r@ == self@,
            valid_key_name(r@),
    {
        proof {
            use_type_invariant(self);
        }
        self.name.as_str()
    }

}

impl Clone for KeyName {
    fn clone(&self) -> (r: KeyName)
        ensures
            r@ == self@,
    {
        proof {
            use_type_invariant(self);
        }
        KeyName { name: self.name.clone() }
    }
}

} // verus!
