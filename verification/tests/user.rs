use discord_client::json::Json;
use discord_client::{fetch_single_user, get_json_string, FetchedUser, RawUser};

const NELLY: &str = "{\"id\":\"80351110224678912\",\"username\":\"Nelly\",\"discriminator\":\"1337\",\"avatar\":\"8342729096ea3675442027381ff50dfe\",\"verified\":true,\"email\":\"nelly@discord.com\",\"flags\":64,\"banner\":\"06c16474723fe537c283b8efa61a30c8\",\"accent_color\":16711680,\"premium_type\":1,\"public_flags\":64,\"global_name\":null}";

fn nelly() -> FetchedUser {
    RawUser {
        accent_color: Some(16711680),
        avatar: Some("8342729096ea3675442027381ff50dfe".to_string()),
        avatar_decoration: None,
        banner: Some("06c16474723fe537c283b8efa61a30c8".to_string()),
        banner_color: None,
        bot: None,
        discriminator: "1337".to_string(),
        display_name: None,
        flags: 64,
        global_name: None,
        id: "80351110224678912".to_string(),
        public_flags: 64,
        username: "Nelly".to_string(),
    }
}

#[test]
fn a_user_object_gives_the_user_with_its_fields() {
    assert_eq!(fetch_single_user("token", Some(NELLY)), Some(nelly()));
}

#[test]
fn every_field_is_read_where_it_is_present() {
    let body = "{\"accent_color\":1,\"avatar\":\"a\",\"avatar_decoration\":\"b\",\"banner\":\"c\",\"banner_color\":2,\"bot\":true,\"discriminator\":\"d\",\"display_name\":\"e\",\"flags\":3,\"global_name\":\"f\",\"id\":\"g\",\"public_flags\":4,\"username\":\"h\"}";
    let expected = RawUser {
        accent_color: Some(1),
        avatar: Some("a".to_string()),
        avatar_decoration: Some("b".to_string()),
        banner: Some("c".to_string()),
        banner_color: Some(2),
        bot: Some(true),
        discriminator: "d".to_string(),
        display_name: Some("e".to_string()),
        flags: 3,
        global_name: Some("f".to_string()),
        id: "g".to_string(),
        public_flags: 4,
        username: "h".to_string(),
    };
    assert_eq!(fetch_single_user("token", Some(body)), Some(expected));
}

#[test]
fn a_body_that_is_not_json_gives_no_user() {
    assert_eq!(fetch_single_user("token", Some("{\"id\":")), None);
    assert_eq!(fetch_single_user("token", Some("")), None);
}

#[test]
fn a_failed_request_gives_no_user() {
    assert_eq!(fetch_single_user("token", None), None);
}

#[test]
fn a_token_that_cannot_stand_in_a_header_gives_no_user() {
    assert_eq!(fetch_single_user("tok\r\nen", Some(NELLY)), None);
}

#[test]
fn an_error_body_gives_no_user() {
    assert_eq!(fetch_single_user("token", Some("{\"message\":\"Unknown User\",\"code\":10013}")), None);
}

#[test]
fn a_missing_required_field_gives_no_user() {
    let without_id = "{\"username\":\"Nelly\",\"discriminator\":\"1337\",\"flags\":64,\"public_flags\":64}";
    assert_eq!(fetch_single_user("token", Some(without_id)), None);
    let without_flags = "{\"id\":\"1\",\"username\":\"Nelly\",\"discriminator\":\"1337\",\"public_flags\":64}";
    assert_eq!(fetch_single_user("token", Some(without_flags)), None);
    let complete = "{\"id\":\"1\",\"username\":\"Nelly\",\"discriminator\":\"1337\",\"flags\":64,\"public_flags\":64}";
    assert!(fetch_single_user("token", Some(complete)).is_some());
}

#[test]
fn a_field_of_the_wrong_kind_gives_no_user() {
    let id_number = "{\"id\":1,\"username\":\"Nelly\",\"discriminator\":\"1337\",\"flags\":64,\"public_flags\":64}";
    assert_eq!(fetch_single_user("token", Some(id_number)), None);
    let flags_negative = "{\"id\":\"1\",\"username\":\"Nelly\",\"discriminator\":\"1337\",\"flags\":-1,\"public_flags\":64}";
    assert_eq!(fetch_single_user("token", Some(flags_negative)), None);
    let flags_fraction = "{\"id\":\"1\",\"username\":\"Nelly\",\"discriminator\":\"1337\",\"flags\":1.5,\"public_flags\":64}";
    assert_eq!(fetch_single_user("token", Some(flags_fraction)), None);
    let bot_text = "{\"id\":\"1\",\"username\":\"Nelly\",\"discriminator\":\"1337\",\"flags\":64,\"public_flags\":64,\"bot\":\"yes\"}";
    assert_eq!(fetch_single_user("token", Some(bot_text)), None);
    let avatar_number = "{\"id\":\"1\",\"username\":\"Nelly\",\"discriminator\":\"1337\",\"flags\":64,\"public_flags\":64,\"avatar\":7}";
    assert_eq!(fetch_single_user("token", Some(avatar_number)), None);
    let required_null = "{\"id\":\"1\",\"username\":null,\"discriminator\":\"1337\",\"flags\":64,\"public_flags\":64}";
    assert_eq!(fetch_single_user("token", Some(required_null)), None);
}

#[test]
fn a_body_that_is_no_object_gives_no_user() {
    assert_eq!(fetch_single_user("token", Some("[]")), None);
    assert_eq!(fetch_single_user("token", Some("null")), None);
    assert_eq!(fetch_single_user("token", Some("\"80351110224678912\"")), None);
    let listed = format!("[{}]", NELLY);
    assert_eq!(fetch_single_user("token", Some(&listed)), None);
}

#[test]
fn from_json_reads_a_tree() {
    let tree = Json::Object(vec![
        ("discriminator".to_string(), Json::Text("0".to_string())),
        ("flags".to_string(), Json::Unsigned(0)),
        ("id".to_string(), Json::Text("5".to_string())),
        ("public_flags".to_string(), Json::Unsigned(18446744073709551615)),
        ("username".to_string(), Json::Text("five".to_string())),
        ("bot".to_string(), Json::Null),
        ("theme".to_string(), Json::Real),
    ]);
    let expected = RawUser {
        accent_color: None,
        avatar: None,
        avatar_decoration: None,
        banner: None,
        banner_color: None,
        bot: None,
        discriminator: "0".to_string(),
        display_name: None,
        flags: 0,
        global_name: None,
        id: "5".to_string(),
        public_flags: 18446744073709551615,
        username: "five".to_string(),
    };
    assert_eq!(RawUser::from_json(&tree), Some(expected));
    assert_eq!(RawUser::from_json(&Json::Object(vec![])), None);
    assert_eq!(RawUser::from_json(&Json::Null), None);
}

#[test]
fn fetching_twice_gives_the_same_text() {
    let first = fetch_single_user("token", Some(NELLY)).unwrap();
    let second = fetch_single_user("token", Some(NELLY)).unwrap();
    assert_eq!(first, second);
    let text = get_json_string(first);
    assert_eq!(text, get_json_string(second));
    assert_eq!(
        text,
        "{\"accent_color\":16711680,\"avatar\":\"8342729096ea3675442027381ff50dfe\",\"avatar_decoration\":\"\",\"banner\":\"06c16474723fe537c283b8efa61a30c8\",\"banner_color\":0,\"bot\":false,\"discriminator\":\"1337\",\"display_name\":\"\",\"flags\":64,\"global_name\":\"\",\"id\":\"80351110224678912\",\"public_flags\":64,\"username\":\"Nelly\"}"
    );
}
