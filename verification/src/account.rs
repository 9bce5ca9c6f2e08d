//! Account identifiers, validated by `near_sdk`.

use vstd::prelude::*;

verus! {

/// Whether `c` is a lower-case letter or a digit.
pub open spec fn is_name_char(c: char) -> bool {
    ('a' <= c && c <= 'z') || ('0' <= c && c <= '9')
}

/// Whether `c` separates the parts of an account name.
pub open spec fn is_separator(c: char) -> bool {
    c == '-' || c == '_' || c == '.'
}

/// Whether `name` is an account name as `near_sdk` accepts them: 2 to 64
/// characters, each a lower-case letter, a digit or a separator, with no
/// separator at either end and no two separators in a row.
pub open spec fn valid_account_name(name: Seq<char>) -> bool {
    &&& 2 <= name.len() <= 64
    &&& forall|i: int|
        0 <= i < name.len() ==> is_name_char(#[trigger] name[i]) || is_separator(name[i])
    &&& !is_separator(name[0])
    &&& !is_separator(name[name.len() - 1])
    &&& forall|i: int|
        0 <= i < name.len() - 1 ==> !(is_separator(#[trigger] name[i]) && is_separator(
            name[i + 1],
        ))
}

/// The name of a principal on the ledger. Every value holds a name that
/// `near_sdk` accepts.
#[derive(Debug, PartialEq, Eq)]
pub struct AccountId {
    name: String,
}

impl View for AccountId {
    type V = Seq<char>;

    closed spec fn view(&self) -> Seq<char> {
        self.name@
    }
}

impl Clone for AccountId {
    fn clone(&self) -> (r: Self)
        ensures
            r == *self,
    {
        proof {
            use_type_invariant(self);
        }
        AccountId { name: self.name.clone() }
    }
}

impl AccountId {
    #[verifier::type_invariant]
    closed spec fn holds_valid_name(&self) -> bool {
        valid_account_name(self.name@)
    }

    /// Makes an account identifier from `name`, or `None` where `near_sdk`
    /// rejects the name.
    pub fn parse(name: &str) -> (r: Option<AccountId>)
        ensures
            r is Some <==> valid_account_name(name@),
            r matches Some(a) ==> a@ == name@,
    {
        if parses_as_account_id(name) {
            Some(AccountId { name: name.to_owned() })
        } else {
            None
        }
    }

    /// The account's name, which is a valid one.
    pub fn as_str(&self) -> (s: &str)
        ensures
            s@ == self@,
            valid_account_name(s@),
    {
        proof {
            use_type_invariant(self);
        }
        self.name.as_str()
    }

    /// Whether `self` and `other` name the same principal.
    pub fn same_as(&self, other: &AccountId) -> (b: bool)
        ensures
            b == (self@ == other@),
    {
        self.name == other.name
    }
}

/// Calls `<near_sdk::AccountId as FromStr>::from_str` and reports whether it
/// returned `Ok`. Believed, not proved: it returns `Ok` exactly for the
/// names that `valid_account_name` describes, which restates the test in
/// `near_sdk::env::is_valid_account_id` (a name with a character outside
/// the alphabet is refused whatever its length in bytes; all others have
/// one byte for each character).
#[verifier::external_body]
fn parses_as_account_id(name: &str) -> (ok: bool)
    ensures
        ok == valid_account_name(name@),
{
    name.parse::<near_sdk::AccountId>().is_ok()
}

} // verus!
