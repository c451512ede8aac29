use vstd::prelude::*;

verus! {

/// Small input checks and string helpers shared by the operations.
pub struct Utils;

impl Utils {
    /// A string argument is well formed when it is not empty.
    pub fn is_valid_string(s: &String) -> (r: bool)
        ensures
            r == (s@.len() > 0),
    {
        !s.as_str().is_empty()
    }

    /// Ids start at 1; 0 never names a token.
    pub fn is_valid_token_id(token_id: u64) -> (r: bool)
        ensures
            r == (token_id > 0),
    {
        token_id > 0
    }

    /// The URI a client is given for a token. Joining it with the collection's base is URI
    /// formatting, which is left to the client: the token's own URI is handed back as it is.
    pub fn combine_uri(base_uri: &String, token_uri: &String) -> (r: String)
        ensures
            r@ == token_uri@,
    {
        token_uri.clone()
    }
}

} // verus!
