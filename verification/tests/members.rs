use discord_client::json::Json;
use discord_client::members::MemberFetch;
use discord_client::{get_users, RawGuildUser, RawUser};

fn member(id: u64) -> RawGuildUser {
    RawGuildUser {
        avatar: None,
        communication_disabled_until: None,
        deaf: false,
        flags: 0,
        joined_at: "2015-04-26T06:26:56.936000+00:00".to_string(),
        mute: false,
        nick: None,
        pending: false,
        premium_since: None,
        roles: vec!["7".to_string()],
        user: RawUser {
            accent_color: None,
            avatar: None,
            avatar_decoration: None,
            banner: None,
            banner_color: None,
            bot: None,
            discriminator: "0".to_string(),
            display_name: None,
            flags: 0,
            global_name: None,
            id: id.to_string(),
            public_flags: 0,
            username: format!("user{}", id),
        },
    }
}

fn record(id: u64) -> String {
    format!(
        "{{\"user\":{{\"id\":\"{}\",\"username\":\"user{}\",\"discriminator\":\"0\",\"flags\":0,\"public_flags\":0}},\"nick\":null,\"roles\":[\"7\"],\"joined_at\":\"2015-04-26T06:26:56.936000+00:00\",\"deaf\":false,\"mute\":false,\"flags\":0,\"pending\":false}}",
        id, id
    )
}

fn page(first: u64, count: u64) -> String {
    let mut records: Vec<String> = Vec::new();
    let mut id = first;
    while id < first + count {
        records.push(record(id));
        id += 1;
    }
    format!("[{}]", records.join(","))
}

fn members(first: u64, count: u64) -> Vec<RawGuildUser> {
    let mut all: Vec<RawGuildUser> = Vec::new();
    let mut id = first;
    while id < first + count {
        all.push(member(id));
        id += 1;
    }
    all
}

#[test]
fn a_new_listing_asks_for_the_page_after_zero() {
    let fetch = MemberFetch::new();
    assert!(!fetch.is_done());
    assert_eq!(fetch.cursor(), "0");
    assert_eq!(
        fetch.next_request("41771983423143937"),
        Some("https://discord.com/api/guilds/41771983423143937/members?limit=1000&after=0".to_string())
    );
    assert_eq!(fetch.into_users(), vec![]);
}

#[test]
fn a_page_that_is_not_full_ends_the_listing_after_one_request() {
    let mut fetch = MemberFetch::new();
    fetch.accept(Some(&page(1, 3)));
    assert!(fetch.is_done());
    assert_eq!(fetch.next_request("9"), None);
    assert_eq!(fetch.cursor(), "3");
    assert_eq!(fetch.into_users(), members(1, 3));
}

#[test]
fn a_page_of_999_ends_the_listing() {
    let mut fetch = MemberFetch::new();
    fetch.accept(Some(&page(1, 999)));
    assert!(fetch.is_done());
    assert_eq!(fetch.into_users().len(), 999);
}

#[test]
fn a_full_page_is_followed_by_a_request_after_its_last_member() {
    let mut fetch = MemberFetch::new();
    fetch.accept(Some(&page(1, 1000)));
    assert!(!fetch.is_done());
    assert_eq!(fetch.cursor(), "1000");
    assert_eq!(
        fetch.next_request("9"),
        Some("https://discord.com/api/guilds/9/members?limit=1000&after=1000".to_string())
    );
    fetch.accept(Some("[]"));
    assert!(fetch.is_done());
    assert_eq!(fetch.next_request("9"), None);
    assert_eq!(fetch.cursor(), "1000");
    assert_eq!(fetch.into_users(), members(1, 1000));
}

#[test]
fn a_full_page_and_a_short_one_take_two_requests() {
    let mut requests: Vec<String> = Vec::new();
    let mut fetch = MemberFetch::new();
    let replies = vec![page(1, 1000), page(1001, 2), page(5000, 1)];
    while let Some(url) = fetch.next_request("9") {
        fetch.accept(Some(&replies[requests.len()]));
        requests.push(url);
    }
    assert_eq!(
        requests,
        vec![
            "https://discord.com/api/guilds/9/members?limit=1000&after=0".to_string(),
            "https://discord.com/api/guilds/9/members?limit=1000&after=1000".to_string(),
        ]
    );
    assert_eq!(fetch.cursor(), "1002");
    assert_eq!(fetch.into_users(), members(1, 1002));
}

#[test]
fn an_empty_first_page_ends_the_listing_with_no_members() {
    let mut fetch = MemberFetch::new();
    fetch.accept(Some("[]"));
    assert!(fetch.is_done());
    assert_eq!(fetch.cursor(), "0");
    assert_eq!(fetch.into_users(), vec![]);
}

#[test]
fn a_record_that_cannot_be_read_becomes_the_placeholder() {
    let body = format!("[{},{{\"user\":\"nobody\"}},17,{}]", record(1), record(4));
    let mut fetch = MemberFetch::new();
    fetch.accept(Some(&body));
    assert!(fetch.is_done());
    assert_eq!(fetch.cursor(), "4");
    assert_eq!(
        fetch.into_users(),
        vec![member(1), RawGuildUser::placeholder(), RawGuildUser::placeholder(), member(4)]
    );
}

#[test]
fn the_placeholder_has_empty_strings_and_zeros() {
    let expected = RawGuildUser {
        avatar: Some("".to_string()),
        communication_disabled_until: Some("".to_string()),
        deaf: false,
        flags: 0,
        joined_at: "".to_string(),
        mute: false,
        nick: Some("".to_string()),
        pending: false,
        premium_since: Some("".to_string()),
        roles: vec![],
        user: RawUser {
            accent_color: Some(0),
            avatar: Some("".to_string()),
            avatar_decoration: Some("".to_string()),
            banner: Some("".to_string()),
            banner_color: Some(0),
            bot: Some(false),
            discriminator: "".to_string(),
            display_name: Some("".to_string()),
            flags: 0,
            global_name: Some("".to_string()),
            id: "".to_string(),
            public_flags: 0,
            username: "".to_string(),
        },
    };
    assert_eq!(RawGuildUser::placeholder(), expected);
    assert_eq!(RawGuildUser::from_record(&Json::Null), expected);
}

#[test]
fn the_cursor_is_zero_where_the_last_record_has_no_user_id() {
    let mut fetch = MemberFetch::new();
    fetch.accept(Some(&format!("[{},{{\"user\":{{\"id\":12}}}}]", record(1))));
    assert_eq!(fetch.cursor(), "0");
    let mut fetch = MemberFetch::new();
    fetch.accept(Some(&format!("[{},null]", record(1))));
    assert_eq!(fetch.cursor(), "0");
    assert_eq!(fetch.into_users(), vec![member(1), RawGuildUser::placeholder()]);
}

#[test]
fn the_cursor_comes_from_the_last_record_even_where_it_cannot_be_read() {
    let mut fetch = MemberFetch::new();
    fetch.accept(Some(&format!("[{},{{\"user\":{{\"id\":\"77\"}}}}]", record(1))));
    assert_eq!(fetch.cursor(), "77");
    assert_eq!(fetch.into_users(), vec![member(1), RawGuildUser::placeholder()]);
}

#[test]
fn a_failed_request_ends_the_listing_with_what_was_gathered() {
    let mut fetch = MemberFetch::new();
    fetch.accept(Some(&page(1, 1000)));
    fetch.accept(None);
    assert!(fetch.is_done());
    assert_eq!(fetch.cursor(), "1000");
    assert_eq!(fetch.into_users(), members(1, 1000));
}

#[test]
fn a_body_that_is_not_json_ends_the_listing_with_what_was_gathered() {
    let mut fetch = MemberFetch::new();
    fetch.accept(Some(&page(1, 1000)));
    fetch.accept(Some("<html>"));
    assert!(fetch.is_done());
    assert_eq!(fetch.into_users(), members(1, 1000));
}

#[test]
fn a_body_that_is_no_array_ends_the_listing() {
    let mut fetch = MemberFetch::new();
    fetch.accept(Some("{\"message\":\"Missing Access\",\"code\":50001}"));
    assert!(fetch.is_done());
    assert_eq!(fetch.cursor(), "0");
    assert_eq!(fetch.into_users(), vec![]);
}

#[test]
fn accept_page_takes_a_tree() {
    let mut fetch = MemberFetch::new();
    let tree = Json::Array(vec![
        Json::Bool(true),
        Json::Object(vec![(
            "user".to_string(),
            Json::Object(vec![("id".to_string(), Json::Text("31".to_string()))]),
        )]),
    ]);
    fetch.accept_page(&tree);
    assert!(fetch.is_done());
    assert_eq!(fetch.cursor(), "31");
    assert_eq!(
        fetch.into_users(),
        vec![RawGuildUser::placeholder(), RawGuildUser::placeholder()]
    );
}

#[test]
fn get_users_reads_the_replies_until_the_listing_ends() {
    let replies = vec![Some(page(1, 1000)), Some(page(1001, 1000)), Some(page(2001, 5)), Some(page(1, 7))];
    assert_eq!(get_users("token", &replies), members(1, 2005));
}

#[test]
fn get_users_stops_at_a_failed_request() {
    let replies = vec![Some(page(1, 1000)), None, Some(page(1001, 5))];
    assert_eq!(get_users("token", &replies), members(1, 1000));
    let replies = vec![None, Some(page(1, 5))];
    assert_eq!(get_users("token", &replies), vec![]);
}

#[test]
fn get_users_gives_what_was_gathered_where_the_replies_run_out() {
    let replies = vec![Some(page(1, 1000))];
    assert_eq!(get_users("token", &replies), members(1, 1000));
    assert_eq!(get_users("token", &vec![]), vec![]);
}

#[test]
fn get_users_gives_nothing_for_a_token_that_cannot_stand_in_a_header() {
    let replies = vec![Some(page(1, 3))];
    assert_eq!(get_users("to\nken", &replies), vec![]);
    assert_eq!(get_users("token", &replies), members(1, 3));
}

#[test]
fn listing_twice_gives_the_same_members() {
    let replies = vec![Some(page(1, 4))];
    assert_eq!(get_users("token", &replies), get_users("token", &replies));
}
