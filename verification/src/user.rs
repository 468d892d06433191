//! Looking one user up by id.

use crate::auth::{bot_authorization, header_text};
use crate::json::Json;
use crate::model::{user_of, FetchedUser, RawUser, RawUserView};
use crate::text::JsonText;
use crate::trusted::json_parse;
use vstd::prelude::*;

verus! {

/// The user that a lookup yields: the token must be fit for a header, the
/// request must have been answered, the answer must be JSON, and the JSON
/// must describe a user.
pub open spec fn user_by_reply(discord_token: Seq<char>, reply: Option<Seq<char>>) -> Option<
    RawUserView,
> {
    if header_text(discord_token) && reply is Some && json_parse(reply.unwrap()) is Some {
        user_of(json_parse(reply.unwrap()).unwrap())
    } else {
        None
    }
}

/// Without an answer, and with an answer that is not JSON, there is no user.
pub proof fn lemma_no_document_gives_no_user(discord_token: Seq<char>, reply: Option<Seq<char>>)
    requires
        reply is None || json_parse(reply.unwrap()) is None,
    ensures
        user_by_reply(discord_token, reply) is None,
{
}

/// An answer that describes a user gives that user, to a token that is fit
/// for a header.
pub proof fn lemma_user_document_gives_the_user(discord_token: Seq<char>, reply: Seq<char>)
    requires
        header_text(discord_token),
        json_parse(reply) is Some,
        user_of(json_parse(reply).unwrap()) is Some,
    ensures
        user_by_reply(discord_token, Some(reply)) == user_of(json_parse(reply).unwrap()),
        user_by_reply(discord_token, Some(reply)) is Some,
{
}

/// Looking a user up twice, with the same reply each time, gives the same
/// user, and so the same JSON text.
pub proof fn lemma_repeated_lookup_gives_the_same_text(
    discord_token: Seq<char>,
    reply: Option<Seq<char>>,
    first: FetchedUser,
    second: FetchedUser,
)
    requires
        user_by_reply(discord_token, reply) == Some(first@),
        user_by_reply(discord_token, reply) == Some(second@),
    ensures
        first@ == second@,
        first.json_text() == second.json_text(),
{
}

/// Reads the user from the reply to the request for them. `reply` is the body
/// of the answer, or `None` where the request failed.
pub fn fetch_single_user(discord_token: &str, reply: Option<&str>) -> (user: Option<FetchedUser>)
    ensures
        match user {
            Some(u) => user_by_reply(discord_token@, reply.deep_view()) == Some(u@),
            None => user_by_reply(discord_token@, reply.deep_view()) is None,
        },
{
    if bot_authorization(discord_token).is_none() {
        return None;
    }
    let body = reply?;
    let tree = Json::parse(body)?;
    RawUser::from_json(&tree)
}

} // verus!
