//! Resolving a player's name to the identifier that the statistics go by.

use vstd::prelude::*;

verus! {

/// What the profile service answers for a name. Either field may be missing.
#[derive(Debug, PartialEq, Eq)]
pub struct User {
    pub id: Option<String>,
    pub error_message: Option<String>,
}

/// Why a name was not resolved.
#[derive(Debug, PartialEq, Eq)]
pub enum LookupError {
    /// The service knows no such player, for the reason given. Such a
    /// player plays under a disguise.
    NotFound(String),
    /// The service could not be reached, or its answer not be read.
    Provider(String),
}

impl LookupError {
    /// The reason, as text.
    pub open spec fn reason(self) -> Seq<char> {
        match self {
            LookupError::NotFound(reason) => reason@,
            LookupError::Provider(reason) => reason@,
        }
    }

    /// The reason, as text.
    pub fn message(&self) -> (text: String)
        ensures
            text@ == self.reason(),
    {
        match self {
            LookupError::NotFound(reason) => reason.clone(),
            LookupError::Provider(reason) => reason.clone(),
        }
    }
}

/// The address at which the profile of `ign` is asked for.
pub open spec fn profile_address(ign: Seq<char>) -> Seq<char> {
    "https://api.mojang.com/users/profiles/minecraft/"@ + ign
}

/// The address at which the profile of `ign` is asked for.
pub fn profile_url(ign: &str) -> (url: String)
    ensures
        url@ == profile_address(ign@),
{
    let mut url = String::from_str("https://api.mojang.com/users/profiles/minecraft/");
    url.append(ign);
    url
}

/// The identifier of a player, from what the attempt to ask the profile
/// service gave: its answer, or the reason why there is none.
///
/// An answer that carries an error message names no player, whatever else
/// it carries, and neither does one that carries no identifier.
pub fn get_uuid(reply: Result<User, String>) -> (uuid: Result<String, LookupError>)
    ensures
        match uuid {
            Ok(id) => reply matches Ok(user) && user.error_message is None && user.id == Some(id),
            Err(LookupError::NotFound(reason)) => reply matches Ok(user) && match user.error_message {
                Some(message) => reason == message,
                None => user.id is None && reason@ == "No player data found"@,
            },
            Err(LookupError::Provider(reason)) => reply == Err::<User, String>(reason),
        },
{
    match reply {
        Err(cause) => Err(LookupError::Provider(cause)),
        Ok(user) => {
            if let Some(message) = user.error_message {
                return Err(LookupError::NotFound(message));
            }
            if let Some(id) = user.id {
                Ok(id)
            } else {
                Err(LookupError::NotFound(String::from_str("No player data found")))
            }
        },
    }
}

} // verus!
