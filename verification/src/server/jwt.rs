//! The bearer token of a request.

use vstd::prelude::*;

use crate::text::{remove_all, without};

verus! {

/// The proof that a request carried a valid token.
#[derive(Debug)]
pub struct Token(());

/// The key to check for a request with the given `Authorization` headers: there
/// has to be exactly one header, and the key is what is left of it once every
/// `Bearer ` is taken out.
pub open spec fn presented_key(headers: Seq<String>) -> Option<Seq<char>> {
    if headers.len() == 1 {
        Some(without(headers[0]@, "Bearer "@))
    } else {
        None
    }
}

/// The key to check for a request with the given `Authorization` headers.
pub fn bearer_key(headers: &Vec<String>) -> (key: Option<String>)
    ensures
        match key {
            Some(key) => presented_key(headers@) == Some(key@),
            None => presented_key(headers@) is None,
        },
{
    if headers.len() != 1 {
        return None;
    }
    proof {
        reveal_strlit("Bearer ");
    }
    Some(remove_all(headers[0].as_str(), "Bearer "))
}

impl Token {
    /// The token for a request whose key was found valid; none for any other.
    pub fn grant(valid: bool) -> (token: Option<Token>)
        ensures
            token is Some <==> valid,
    {
        if valid {
            Some(Token(()))
        } else {
            None
        }
    }
}

/// The answer to a request that carries a valid token.
pub fn validate(_token: Token) -> (valid: bool)
    ensures
        valid,
{
    true
}

} // verus!
