//! Account identifiers.
//!
//! An identity on the host ledger is a short ASCII name: 2 to 64 bytes, each
//! a lowercase letter, a digit, or one of the separators `-`, `_` and `.`,
//! where no separator starts the name, ends it, or follows another separator.
//! `.` is the separator reserved for hierarchical addressing: the factory
//! derives a child identity by prefixing a name part to its own identity.

use vstd::prelude::*;

verus! {

/// `-`, `.` or `_`: the bytes that separate name parts.
pub open spec fn is_separator_byte(c: u8) -> bool {
    c == 45u8 || c == 46u8 || c == 95u8
}

/// A lowercase ASCII letter or a digit.
pub open spec fn is_name_byte(c: u8) -> bool {
    (97u8 <= c && c <= 122u8) || (48u8 <= c && c <= 57u8)
}

pub open spec fn is_account_byte(c: u8) -> bool {
    is_name_byte(c) || is_separator_byte(c)
}

/// The whole grammar of a valid account identifier.
pub open spec fn valid_account_seq(s: Seq<u8>) -> bool {
    &&& 2 <= s.len() <= 64
    &&& forall|i: int| 0 <= i < s.len() ==> is_account_byte(#[trigger] s[i])
    &&& !is_separator_byte(s[0])
    &&& !is_separator_byte(s[s.len() - 1])
    &&& forall|i: int|
        0 < i < s.len() ==> !(is_separator_byte(#[trigger] s[i]) && is_separator_byte(s[i - 1]))
}

/// Decides [`valid_account_seq`] on concrete bytes.
pub fn is_valid_account_id(s: &Vec<u8>) -> (r: bool)
    ensures
        r == valid_account_seq(s@),
{
    let n = s.len();
    if n < 2 || n > 64 {
        return false;
    }
    let mut last_sep: bool = true;
    let mut i: usize = 0;
    while i < n
        invariant
            0 <= i <= n,
            n == s@.len(),
            2 <= n <= 64,
            forall|j: int| 0 <= j < i ==> is_account_byte(#[trigger] s@[j]),
            i == 0 ==> last_sep,
            i > 0 ==> last_sep == is_separator_byte(s@[i - 1]),
            i > 0 ==> !is_separator_byte(s@[0]),
            forall|j: int|
                0 < j < i ==> !(is_separator_byte(#[trigger] s@[j]) && is_separator_byte(
                    s@[j - 1],
                )),
        decreases n - i,
    {
        let c = s[i];
        let name = (97 <= c && c <= 122) || (48 <= c && c <= 57);
        let sep = c == 45 || c == 46 || c == 95;
        if !name && !sep {
            return false;
        }
        if sep && last_sep {
            return false;
        }
        last_sep = sep;
        i = i + 1;
    }
    !last_sep
}

/// Copies a byte vector.
pub fn clone_bytes(v: &Vec<u8>) -> (r: Vec<u8>)
    ensures
        r@ == v@,
{
    let r = v.clone();
    proof {
        assert(r@ =~= v@);
    }
    r
}

/// Compares two byte vectors for equality.
pub fn bytes_eq(a: &Vec<u8>, b: &Vec<u8>) -> (r: bool)
    ensures
        r == (a@ == b@),
{
    if a.len() != b.len() {
        return false;
    }
    let n = a.len();
    let mut i: usize = 0;
    while i < n
        invariant
            0 <= i <= n,
            n == a@.len(),
            n == b@.len(),
            forall|j: int| 0 <= j < i ==> a@[j] == b@[j],
        decreases n - i,
    {
        if a[i] != b[i] {
            return false;
        }
        i = i + 1;
    }
    proof {
        assert(a@ =~= b@);
    }
    true
}

/// A validated account identifier. A value of this type always holds bytes
/// that satisfy [`valid_account_seq`]; construction checks them.
#[derive(Debug)]
pub struct AccountId {
    bytes: Vec<u8>,
}

impl View for AccountId {
    type V = Seq<u8>;

    closed spec fn view(&self) -> Seq<u8> {
        self.bytes@
    }
}

impl AccountId {
    #[verifier::type_invariant]
    spec fn type_inv(self) -> bool {
        valid_account_seq(self.bytes@)
    }

    /// Validates `bytes` and wraps them; rejects exactly the byte strings
    /// outside the account grammar.
    pub fn new(bytes: Vec<u8>) -> (r: Option<AccountId>)
        ensures
            r is Some <==> valid_account_seq(bytes@),
            r is Some ==> r.unwrap()@ == bytes@,
    {
        if is_valid_account_id(&bytes) {
            Some(AccountId { bytes })
        } else {
            None
        }
    }

    /// The raw bytes of the identifier.
    pub fn as_bytes(&self) -> (r: &Vec<u8>)
        ensures
            r@ == self@,
    {
        &self.bytes
    }

    /// Unwraps the identifier into its bytes.
    pub fn into_bytes(self) -> (r: Vec<u8>)
        ensures
            r@ == self@,
    {
        self.bytes
    }
}

impl Clone for AccountId {
    fn clone(&self) -> (r: Self)
        ensures
            r@ == self@,
    {
        proof {
            use_type_invariant(self);
        }
        AccountId { bytes: clone_bytes(&self.bytes) }
    }
}

impl PartialEq for AccountId {
    fn eq(&self, other: &Self) -> (r: bool) {
        bytes_eq(&self.bytes, &other.bytes)
    }
}

impl vstd::std_specs::cmp::PartialEqSpecImpl for AccountId {
    open spec fn obeys_eq_spec() -> bool {
        true
    }

    open spec fn eq_spec(&self, other: &AccountId) -> bool {
        self@ == other@
    }
}

impl Eq for AccountId {}

} // verus!
