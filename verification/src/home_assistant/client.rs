//! The client of the `home_assistant_rest` crate, as far as the sink
//! decides with it: whether one can be made for the configured address.

use vstd::prelude::*;

verus! {

/// The crate's `Client`, carried to the caller that makes the requests.
#[verifier::external_type_specification]
#[verifier::external_body]
pub struct ExClient(home_assistant_rest::Client);

/// What `Client::new` makes of an address and a token: the client, or,
/// where the address is no URL, the description that the crate's error
/// prints. No connection is opened for it.
pub uninterp spec fn client_for(url: Seq<char>, token: Seq<char>) -> Result<
    home_assistant_rest::Client,
    Seq<char>,
>;

/// A client or the description of an error, the description as a sequence
/// of characters.
pub open spec fn made_view(made: Result<home_assistant_rest::Client, String>) -> Result<
    home_assistant_rest::Client,
    Seq<char>,
> {
    match made {
        Ok(client) => Ok(client),
        Err(description) => Err(description@),
    }
}

/// Calls `Client::new`; an error is handed on as its description.
#[verifier::external_body]
pub(crate) fn new_client(url: &str, token: &str) -> (made: Result<home_assistant_rest::Client, String>)
    ensures
        made_view(made) == client_for(url@, token@),
{
    match home_assistant_rest::Client::new(url, token) {
        Ok(client) => Ok(client),
        Err(error) => Err(error.to_string()),
    }
}

} // verus!
