//! The addresses of the three endpoints.

use vstd::prelude::*;
use vstd::string::StringExecFns;

verus! {

/// The most members that one page of the member list holds.
pub const PAGE_LIMIT: usize = 1000;

/// The cursor of the first page of a member list.
pub open spec fn first_cursor() -> Seq<char> {
    "0"@
}

/// The address of the list of the token owner's guilds.
pub open spec fn guilds_address() -> Seq<char> {
    "https://discord.com/api/users/@me/guilds"@
}

/// The address of a page of a guild's members.
pub open spec fn members_address(guild_id: Seq<char>, after: Seq<char>) -> Seq<char> {
    "https://discord.com/api/guilds/"@ + guild_id + "/members?limit=1000&after="@ + after
}

/// The address of a user.
pub open spec fn user_address(user_id: Seq<char>) -> Seq<char> {
    "https://discord.com/api/users/"@ + user_id
}

/// The address that lists the guilds of the token's owner.
pub fn guilds_url() -> (url: String)
    ensures
        url@ == guilds_address(),
{
    String::from_str("https://discord.com/api/users/@me/guilds")
}

/// The address of the page of a guild's members that follows the member
/// `after`.
pub fn members_url(guild_id: &str, after: &str) -> (url: String)
    ensures
        url@ == members_address(guild_id@, after@),
{
    String::from_str("https://discord.com/api/guilds/").concat(guild_id).concat(
        "/members?limit=1000&after=",
    ).concat(after)
}

/// The address of one user.
pub fn user_url(user_id: &str) -> (url: String)
    ensures
        url@ == user_address(user_id@),
{
    String::from_str("https://discord.com/api/users/").concat(user_id)
}

} // verus!
