//! Identifiers, as pliron accepts them.

use pliron::identifier::Identifier;
use vstd::prelude::*;

verus! {

/// A character that may begin an identifier.
pub open spec fn identifier_start(c: char) -> bool {
    ('a' <= c <= 'z') || ('A' <= c <= 'Z') || c == '_'
}

/// A character that may follow in an identifier.
pub open spec fn identifier_part(c: char) -> bool {
    identifier_start(c) || ('0' <= c <= '9')
}

/// A text of the form `[a-zA-Z_][a-zA-Z0-9_]*`.
pub open spec fn is_identifier(s: Seq<char>) -> bool {
    &&& s.len() > 0
    &&& identifier_start(s[0])
    &&& forall|i: int| 0 <= i < s.len() ==> identifier_part(#[trigger] s[i])
}

/// `Identifier::try_from(String)`: accepts exactly the texts of the form
/// `[a-zA-Z_][a-zA-Z0-9_]*` and keeps them as they are.
#[verifier::external_body]
pub(crate) fn try_identifier(name: String) -> (r: Option<String>)
    ensures
        r is Some <==> is_identifier(name@),
        r matches Some(s) ==> s@ == name@,
{
    match Identifier::try_from(name) {
        Ok(identifier) => Some(String::from(identifier)),
        Err(_) => None,
    }
}

}
