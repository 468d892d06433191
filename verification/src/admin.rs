//! Deciding from the list of a user's guilds whether they administer one.

use crate::auth::{bearer_authorization, header_text};
use crate::json::{Json, JsonView};
use crate::trusted::json_parse;
use vstd::prelude::*;

verus! {

/// The permission value of a member who holds every permission.
pub const ADMIN_PERMISSIONS: i64 = 2147483647;

/// The guild id of an entry of the list: its `id` where that is a string,
/// else `"0"`.
pub open spec fn entry_id(entry: JsonView) -> Seq<char> {
    match entry.field("id"@).as_text() {
        Some(id) => id,
        None => "0"@,
    }
}

/// Whether an entry names the guild and carries exactly the full permission
/// value, as an integer. A value with other bits set, or the same digits in a
/// string, does not count.
pub open spec fn grants_admin(entry: JsonView, guild_id: Seq<char>) -> bool {
    entry_id(entry) == guild_id && entry.field("permissions"@).as_signed() == Some(
        ADMIN_PERMISSIONS,
    )
}

/// Whether some entry of the list grants administration of the guild. A
/// document that is no array has no entries.
pub open spec fn admin_among(guilds: JsonView, guild_id: Seq<char>) -> bool {
    exists|i: int| 0 <= i < guilds.items().len() && grants_admin(#[trigger] guilds.items()[i], guild_id)
}

/// The outcome of the whole check: the token must be fit for a header, the
/// request must have been answered, the answer must be JSON, and an entry of
/// it must grant administration.
pub open spec fn admin_by_reply(
    discord_token: Seq<char>,
    guild_id: Seq<char>,
    reply: Option<Seq<char>>,
) -> bool {
    &&& header_text(discord_token)
    &&& reply is Some
    &&& json_parse(reply.unwrap()) is Some
    &&& admin_among(json_parse(reply.unwrap()).unwrap(), guild_id)
}

/// A list with an entry that names the guild and carries the full permission
/// value as an integer makes an administrator.
pub proof fn lemma_exact_entry_makes_admin(guilds: JsonView, i: int, guild_id: Seq<char>)
    requires
        0 <= i < guilds.items().len(),
        guilds.items()[i].get("id"@) == Some(JsonView::Text(guild_id)),
        guilds.items()[i].get("permissions"@) == Some(JsonView::Unsigned(2147483647)),
    ensures
        admin_among(guilds, guild_id),
{
}

/// A list in which no entry for the guild carries exactly the full permission
/// value makes no administrator, whatever other values the entries carry.
pub proof fn lemma_other_values_make_no_admin(guilds: JsonView, guild_id: Seq<char>)
    requires
        forall|i: int|
            0 <= i < guilds.items().len() && entry_id(#[trigger] guilds.items()[i]) == guild_id
                ==> guilds.items()[i].field("permissions"@).as_signed() != Some(ADMIN_PERMISSIONS),
    ensures
        !admin_among(guilds, guild_id),
{
}

/// Without an answer, and with an answer that is not JSON, there is no
/// administrator.
pub proof fn lemma_no_list_makes_no_admin(
    discord_token: Seq<char>,
    guild_id: Seq<char>,
    reply: Option<Seq<char>>,
)
    requires
        reply is None || json_parse(reply.unwrap()) is None,
    ensures
        !admin_by_reply(discord_token, guild_id, reply),
{
}

fn entry_grants_admin(entry: &Json, guild_id: &String) -> (granted: bool)
    ensures
        granted == grants_admin(entry@, guild_id@),
{
    let named = match entry.get("id") {
        Some(Json::Text(id)) => *id == *guild_id,
        _ => {
            let zero: String = "0".to_owned();
            zero == *guild_id
        },
    };
    let permitted = match entry.get("permissions") {
        Some(value) => match value.as_signed() {
            Some(permissions) => permissions == ADMIN_PERMISSIONS,
            None => false,
        },
        None => false,
    };
    named && permitted
}

/// Searches a parsed list of guilds for an entry that grants administration
/// of `guild_id`.
pub fn is_admin_among(guilds: &Json, guild_id: &str) -> (admin: bool)
    ensures
        admin == admin_among(guilds@, guild_id@),
{
    let wanted: String = guild_id.to_owned();
    let n = guilds.count();
    let mut i: usize = 0;
    while i < n
        invariant
            i <= n,
            n == guilds@.items().len(),
            wanted@ == guild_id@,
            forall|k: int| 0 <= k < i ==> !grants_admin(#[trigger] guilds@.items()[k], guild_id@),
        decreases n - i,
    {
        if entry_grants_admin(guilds.item(i), &wanted) {
            return true;
        }
        i = i + 1;
    }
    false
}

/// Decides whether the owner of `discord_token` administers `guild_id`, from
/// the reply to the request for their guilds. `reply` is the body of the
/// answer, or `None` where the request failed.
pub fn admin_check(discord_token: &str, guild_id: &str, reply: Option<&str>) -> (admin: bool)
    ensures
        admin == admin_by_reply(discord_token@, guild_id@, reply.deep_view()),
{
    if bearer_authorization(discord_token).is_none() {
        return false;
    }
    let body = match reply {
        Some(body) => body,
        None => {
            return false;
        },
    };
    match Json::parse(body) {
        Some(guilds) => is_admin_among(&guilds, guild_id),
        None => false,
    }
}

} // verus!
