//! Listing the members of a guild, page by page.
//!
//! The list comes in pages of at most [`PAGE_LIMIT`] members. Each request
//! names the member after which its page starts: `"0"` for the first, then the
//! id of the last member of the page before. A page that is not full is the
//! last one. [`MemberFetch`] holds what has been gathered and decides, after
//! each reply, what to ask next; the caller makes the requests.

use crate::auth::{bot_authorization, header_text};
use crate::json::{Json, JsonView};
use crate::model::{
    member_of, member_or_placeholder, placeholder_member, RawGuildUser, RawGuildUserView,
};
use crate::routes::{first_cursor, members_address, members_url, PAGE_LIMIT};
use crate::text::JsonText;
use crate::trusted::json_parse;
use vstd::prelude::*;
use vstd::string::StringExecFns;

verus! {

/// The progress of one listing.
pub struct MemberFetch {
    after: String,
    users: Vec<RawGuildUser>,
    done: bool,
}

/// The mathematical value of a [`MemberFetch`].
pub struct MemberFetchView {
    /// The cursor of the next request.
    pub after: Seq<char>,
    /// The members gathered so far, in the order in which they came.
    pub users: Seq<RawGuildUserView>,
    /// Whether the listing has ended.
    pub done: bool,
}

/// The values of a sequence of members.
pub open spec fn member_views(users: Seq<RawGuildUser>) -> Seq<RawGuildUserView> {
    Seq::new(users.len(), |i: int| users[i]@)
}

impl View for MemberFetch {
    type V = MemberFetchView;

    closed spec fn view(&self) -> MemberFetchView {
        MemberFetchView { after: self.after@, users: member_views(self.users@), done: self.done }
    }
}

/// A listing before its first request.
pub open spec fn fresh() -> MemberFetchView {
    MemberFetchView { after: first_cursor(), users: Seq::empty(), done: false }
}

/// The members of a page: one for each record, in order.
pub open spec fn page_members(page: JsonView) -> Seq<RawGuildUserView> {
    Seq::new(page.items().len(), |i: int| member_or_placeholder(page.items()[i]))
}

/// The cursor that a page with at least one record hands on: the id of its
/// last record's user where that is a string, else `"0"`.
pub open spec fn page_cursor(page: JsonView) -> Seq<char> {
    match page.items().last().field("user"@).field("id"@).as_text() {
        Some(id) => id,
        None => "0"@,
    }
}

/// The listing after a page has come in. A document that is no array counts
/// as a page without records, which ends the listing and leaves the cursor.
pub open spec fn after_page(state: MemberFetchView, page: JsonView) -> MemberFetchView {
    MemberFetchView {
        after: if page.items().len() > 0 {
            page_cursor(page)
        } else {
            state.after
        },
        users: state.users + page_members(page),
        done: page.items().len() < PAGE_LIMIT,
    }
}

/// The listing after a request has been answered, or has failed (`None`). A
/// failed request, and a body that is not JSON, end the listing with what was
/// gathered before.
pub open spec fn after_reply(state: MemberFetchView, reply: Option<Seq<char>>) -> MemberFetchView {
    if reply is Some && json_parse(reply.unwrap()) is Some {
        after_page(state, json_parse(reply.unwrap()).unwrap())
    } else {
        MemberFetchView { done: true, ..state }
    }
}

/// The listing after its requests have been answered by `replies`, one after
/// the other, until it ended or the replies ran out.
pub open spec fn after_replies(
    state: MemberFetchView,
    replies: Seq<Option<Seq<char>>>,
) -> MemberFetchView
    decreases replies.len(),
{
    if state.done || replies.len() == 0 {
        state
    } else {
        after_replies(after_reply(state, replies[0]), replies.drop_first())
    }
}

/// The address of the request that a listing makes next; none once it has
/// ended.
pub open spec fn next_address(state: MemberFetchView, guild_id: Seq<char>) -> Option<Seq<char>> {
    if state.done {
        None
    } else {
        Some(members_address(guild_id, state.after))
    }
}

/// How many requests a listing makes while `replies` answer them.
pub open spec fn requests_made(state: MemberFetchView, replies: Seq<Option<Seq<char>>>) -> nat
    decreases replies.len(),
{
    if state.done || replies.len() == 0 {
        0
    } else {
        1 + requests_made(after_reply(state, replies[0]), replies.drop_first())
    }
}

/// The members that a whole listing yields. A token that is not fit for a
/// header yields none, as no request is made with it.
pub open spec fn users_by_replies(
    discord_token: Seq<char>,
    replies: Seq<Option<Seq<char>>>,
) -> Seq<RawGuildUserView> {
    if header_text(discord_token) {
        after_replies(fresh(), replies).users
    } else {
        Seq::empty()
    }
}

fn cursor_of(record: &Json) -> (cursor: String)
    ensures
        cursor@ == match record@.field("user"@).field("id"@).as_text() {
            Some(id) => id,
            None => "0"@,
        },
{
    match record.get("user") {
        Some(user) => match user.get("id") {
            Some(Json::Text(id)) => id.clone(),
            _ => String::from_str("0"),
        },
        None => String::from_str("0"),
    }
}

impl MemberFetch {
    /// A listing before its first request.
    pub fn new() -> (fetch: MemberFetch)
        ensures
            fetch@ == fresh(),
    {
        let fetch = MemberFetch { after: String::from_str("0"), users: Vec::new(), done: false };
        assert(fetch@.users =~= Seq::empty());
        fetch
    }

    /// Whether the listing has ended: no further request is to be made.
    pub fn is_done(&self) -> (done: bool)
        ensures
            done == self@.done,
    {
        self.done
    }

    /// The cursor of the next request.
    pub fn cursor(&self) -> (after: &String)
        ensures
            after@ == self@.after,
    {
        &self.after
    }

    /// The address of the request to make next, or `None` once the listing
    /// has ended.
    pub fn next_request(&self, guild_id: &str) -> (url: Option<String>)
        ensures
            url.deep_view() == next_address(self@, guild_id@),
    {
        if self.done {
            None
        } else {
            Some(members_url(guild_id, self.after.as_str()))
        }
    }

    /// Takes in a parsed page.
    pub fn accept_page(&mut self, page: &Json)
        ensures
            final(self)@ == after_page(old(self)@, page@),
    {
        let n = page.count();
        if n > 0 {
            self.after = cursor_of(page.item(n - 1));
        }
        let ghost before = self.users@;
        let mut i: usize = 0;
        while i < n
            invariant
                i <= n,
                n == page@.items().len(),
                self.users@.len() == before.len() + i,
                forall|k: int| 0 <= k < before.len() ==> self.users@[k] == before[k],
                forall|k: int|
                    before.len() <= k < before.len() + i ==> (#[trigger] self.users@[k])@
                        == member_or_placeholder(page@.items()[k - before.len()]),
                n > 0 ==> self.after@ == page_cursor(page@),
                n == 0 ==> self.after == old(self).after,
            decreases n - i,
        {
            self.users.push(RawGuildUser::from_record(page.item(i)));
            i = i + 1;
        }
        self.done = n < PAGE_LIMIT;
        assert(self@.users =~= member_views(before) + page_members(page@));
    }

    /// Takes in the reply to the request last made: the body of the answer,
    /// or `None` where the request failed.
    pub fn accept(&mut self, reply: Option<&str>)
        ensures
            final(self)@ == after_reply(old(self)@, reply.deep_view()),
    {
        let parsed = match reply {
            Some(body) => Json::parse(body),
            None => None,
        };
        match parsed {
            Some(page) => {
                self.accept_page(&page);
            },
            None => {
                self.done = true;
            },
        }
    }

    /// The members gathered.
    pub fn into_users(self) -> (users: Vec<RawGuildUser>)
        ensures
            member_views(users@) == self@.users,
    {
        self.users
    }
}

/// Lists that hold the same members are written as the same JSON text.
pub proof fn lemma_same_members_same_text(first: Vec<RawGuildUser>, second: Vec<RawGuildUser>)
    requires
        member_views(first@) == member_views(second@),
    ensures
        first.json_text() == second.json_text(),
{
    assert(second@.len() == member_views(second@).len());
    assert forall|i: int| 0 <= i < first@.len() implies first@[i].json_text()
        == second@[i].json_text() by {
        assert(member_views(second@)[i] == second@[i]@);
    }
    assert(Seq::new(first@.len(), |i: int| first@[i].json_text()) =~= Seq::new(
        second@.len(),
        |i: int| second@[i].json_text(),
    ));
}

/// Listing twice with the same replies gives the same members, and so the
/// same JSON text.
pub proof fn lemma_repeated_listing_gives_the_same_text(
    discord_token: Seq<char>,
    replies: Seq<Option<Seq<char>>>,
    first: Vec<RawGuildUser>,
    second: Vec<RawGuildUser>,
)
    requires
        member_views(first@) == users_by_replies(discord_token, replies),
        member_views(second@) == users_by_replies(discord_token, replies),
    ensures
        member_views(first@) == member_views(second@),
        first.json_text() == second.json_text(),
{
    lemma_same_members_same_text(first, second);
}

/// A page that is not full ends the listing: no request follows it, whatever
/// further replies there might be.
pub proof fn lemma_short_page_ends_the_listing(
    state: MemberFetchView,
    reply: Seq<char>,
    later: Seq<Option<Seq<char>>>,
)
    requires
        !state.done,
        json_parse(reply) is Some,
        json_parse(reply).unwrap().items().len() < PAGE_LIMIT,
    ensures
        after_reply(state, Some(reply)).done,
        forall|guild_id: Seq<char>|
            (#[trigger] next_address(after_reply(state, Some(reply)), guild_id)) is None,
        requests_made(state, seq![Some(reply)] + later) == 1,
        after_replies(state, seq![Some(reply)] + later) == after_reply(state, Some(reply)),
{
    let replies = seq![Some(reply)] + later;
    let ended = after_reply(state, Some(reply));
    assert(after_replies(ended, replies.drop_first()) == ended);
    assert(requests_made(ended, replies.drop_first()) == 0);
}

/// A full page is followed by a request, whose cursor is the id of the user
/// of the page's last record and whose address carries that cursor.
pub proof fn lemma_full_page_hands_on_its_last_id(
    state: MemberFetchView,
    reply: Seq<char>,
    guild_id: Seq<char>,
)
    requires
        json_parse(reply) is Some,
        json_parse(reply).unwrap().items().len() == PAGE_LIMIT,
    ensures
        !after_reply(state, Some(reply)).done,
        after_reply(state, Some(reply)).after == page_cursor(json_parse(reply).unwrap()),
        next_address(after_reply(state, Some(reply)), guild_id) == Some(
            members_address(guild_id, page_cursor(json_parse(reply).unwrap())),
        ),
{
}

/// A full page and then one that is not full make a listing of two requests:
/// the second reply is the last that is read.
pub proof fn lemma_full_then_short_takes_two_requests(
    first: Seq<char>,
    second: Seq<char>,
    later: Seq<Option<Seq<char>>>,
)
    requires
        json_parse(first) is Some,
        json_parse(first).unwrap().items().len() == PAGE_LIMIT,
        json_parse(second) is Some,
        json_parse(second).unwrap().items().len() < PAGE_LIMIT,
    ensures
        requests_made(fresh(), seq![Some(first), Some(second)] + later) == 2,
        after_replies(fresh(), seq![Some(first), Some(second)] + later) == after_reply(
            after_reply(fresh(), Some(first)),
            Some(second),
        ),
        after_replies(fresh(), seq![Some(first), Some(second)] + later).done,
{
    let replies = seq![Some(first), Some(second)] + later;
    let rest = seq![Some(second)] + later;
    assert(replies.drop_first() =~= rest);
    lemma_short_page_ends_the_listing(after_reply(fresh(), Some(first)), second, later);
}

/// Every record of a page gives one member, at its place behind those
/// gathered before; a record that cannot be read gives the placeholder.
pub proof fn lemma_each_record_gives_a_member(state: MemberFetchView, page: JsonView, i: int)
    requires
        0 <= i < page.items().len(),
    ensures
        after_page(state, page).users.len() == state.users.len() + page.items().len(),
        after_page(state, page).users[state.users.len() + i] == member_or_placeholder(
            page.items()[i],
        ),
        member_of(page.items()[i]) is None ==> after_page(state, page).users[state.users.len() + i]
            == placeholder_member(),
        forall|k: int| 0 <= k < state.users.len() ==> after_page(state, page).users[k] == state.users[k],
{
}

/// A failed request and a body that is not JSON end the listing and leave
/// what was gathered.
pub proof fn lemma_failure_keeps_what_was_gathered(state: MemberFetchView, reply: Option<Seq<char>>)
    requires
        reply is None || json_parse(reply.unwrap()) is None,
    ensures
        after_reply(state, reply).done,
        after_reply(state, reply).users == state.users,
        after_reply(state, reply).after == state.after,
{
}

/// Lists the members of a guild from the replies to the successive requests
/// for its pages. Replies beyond the one that ends the listing are not read.
pub fn get_users(discord_token: &str, replies: &Vec<Option<String>>) -> (users: Vec<RawGuildUser>)
    ensures
        member_views(users@) == users_by_replies(discord_token@, replies.deep_view()),
{
    if bot_authorization(discord_token).is_none() {
        let none: Vec<RawGuildUser> = Vec::new();
        return none;
    }
    let ghost all = replies.deep_view();
    let mut fetch = MemberFetch::new();
    let mut i: usize = 0;
    assert(all.skip(0) == all);
    while i < replies.len() && !fetch.is_done()
        invariant
            i <= replies.len(),
            all == replies.deep_view(),
            after_replies(fetch@, all.skip(i as int)) == after_replies(fresh(), all),
        decreases replies.len() - i,
    {
        let ghost rest = all.skip(i as int);
        assert(rest.drop_first() == all.skip(i as int + 1));
        let reply = match &replies[i] {
            Some(body) => Some(body.as_str()),
            None => None,
        };
        fetch.accept(reply);
        i = i + 1;
    }
    fetch.into_users()
}

} // verus!
