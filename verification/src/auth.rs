//! The `Authorization` header of a request.
//!
//! A header value is its scheme, a space and the token. A token with a
//! character that cannot stand in a header value gives no header, and the
//! request it was meant for is not made.

use crate::trusted::{header_char, header_value_accepts};
use vstd::prelude::*;
use vstd::string::StringExecFns;

verus! {

/// Whether a text can be a header value.
pub open spec fn header_text(text: Seq<char>) -> bool {
    forall|i: int| 0 <= i < text.len() ==> header_char(#[trigger] text[i])
}

/// The header value that identifies a user.
pub open spec fn bearer_value(token: Seq<char>) -> Seq<char> {
    "Bearer "@ + token
}

/// The header value that identifies a bot.
pub open spec fn bot_value(token: Seq<char>) -> Seq<char> {
    "Bot "@ + token
}

/// A header value is acceptable exactly when both of its parts are.
pub proof fn lemma_header_text_concat(a: Seq<char>, b: Seq<char>)
    ensures
        header_text(a + b) <==> header_text(a) && header_text(b),
{
    let whole = a + b;
    if header_text(whole) {
        assert forall|i: int| 0 <= i < a.len() implies header_char(#[trigger] a[i]) by {
            assert(whole[i] == a[i]);
        }
        assert forall|i: int| 0 <= i < b.len() implies header_char(#[trigger] b[i]) by {
            assert(whole[a.len() + i] == b[i]);
        }
    }
}

fn authorization(scheme: &str, token: &str) -> (header: Option<String>)
    ensures
        header is Some <==> header_text(scheme@ + token@),
        header matches Some(h) ==> h@ == scheme@ + token@,
{
    let value = String::from_str(scheme).concat(token);
    if header_value_accepts(value.as_str()) {
        Some(value)
    } else {
        None
    }
}

/// The header value `Bearer <token>`, where the token can stand in a header.
pub fn bearer_authorization(discord_token: &str) -> (header: Option<String>)
    ensures
        header is Some <==> header_text(discord_token@),
        header matches Some(h) ==> h@ == bearer_value(discord_token@),
{
    proof {
        reveal_strlit("Bearer ");
        lemma_header_text_concat("Bearer "@, discord_token@);
    }
    authorization("Bearer ", discord_token)
}

/// The header value `Bot <token>`, where the token can stand in a header.
pub fn bot_authorization(discord_token: &str) -> (header: Option<String>)
    ensures
        header is Some <==> header_text(discord_token@),
        header matches Some(h) ==> h@ == bot_value(discord_token@),
{
    proof {
        reveal_strlit("Bot ");
        lemma_header_text_concat("Bot "@, discord_token@);
    }
    authorization("Bot ", discord_token)
}

} // verus!
