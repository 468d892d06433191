//! Writing values as JSON text.
//!
//! The text is compact: no space between tokens. An object lists its fields
//! in the order of their declaration. An optional field without a value is
//! written as the empty value of its type (`""`, `0` or `false`), never as
//! `null` and never left out. Strings are quoted and escaped by `serde_json`;
//! should it report an error for one, the whole text is `None`, and
//! [`get_json_string`] falls back to `[]`.

use crate::model::{RawGuildUser, RawGuildUserView, RawUser, RawUserView};
use crate::trusted::{json_string_literal, quote};
use vstd::prelude::*;
use vstd::string::StringExecFns;

verus! {

/// The character of a decimal digit.
pub open spec fn digit(d: nat) -> char {
    if d == 0 {
        '0'
    } else if d == 1 {
        '1'
    } else if d == 2 {
        '2'
    } else if d == 3 {
        '3'
    } else if d == 4 {
        '4'
    } else if d == 5 {
        '5'
    } else if d == 6 {
        '6'
    } else if d == 7 {
        '7'
    } else if d == 8 {
        '8'
    } else {
        '9'
    }
}

/// A number in decimal digits, without leading zeros.
pub open spec fn decimal(n: nat) -> Seq<char>
    decreases n,
{
    if n < 10 {
        seq![digit(n)]
    } else {
        decimal(n / 10).push(digit(n % 10))
    }
}

/// Pieces of text with a comma between each two. Without one of its pieces
/// there is no text.
pub open spec fn joined(pieces: Seq<Option<Seq<char>>>) -> Option<Seq<char>>
    decreases pieces.len(),
{
    if pieces.len() == 0 {
        Some(Seq::empty())
    } else {
        match (joined(pieces.drop_last()), pieces.last()) {
            (Some(before), Some(piece)) => Some(
                if pieces.len() == 1 {
                    piece
                } else {
                    before + ","@ + piece
                },
            ),
            _ => None,
        }
    }
}

/// Where one piece is missing, the joined text is missing.
pub proof fn lemma_joined_needs_its_pieces(pieces: Seq<Option<Seq<char>>>, i: int)
    requires
        0 <= i < pieces.len(),
        pieces[i] is None,
    ensures
        joined(pieces) is None,
    decreases pieces.len(),
{
    if i < pieces.len() - 1 {
        lemma_joined_needs_its_pieces(pieces.drop_last(), i);
    }
}

/// Pieces between an opening and a closing bracket.
pub open spec fn enclosed(open: Seq<char>, pieces: Seq<Option<Seq<char>>>, close: Seq<char>) -> Option<
    Seq<char>,
> {
    match joined(pieces) {
        Some(inner) => Some(open + inner + close),
        None => None,
    }
}

/// A field of an object: its name in quotes, a colon and its value.
pub open spec fn field_json(field: (Seq<char>, Option<Seq<char>>)) -> Option<Seq<char>> {
    match field.1 {
        Some(value) => Some("\""@ + field.0 + "\":"@ + value),
        None => None,
    }
}

/// An object with the given fields, each a name and the text of its value.
pub open spec fn object_json(fields: Seq<(Seq<char>, Option<Seq<char>>)>) -> Option<Seq<char>> {
    enclosed("{"@, Seq::new(fields.len(), |i: int| field_json(fields[i])), "}"@)
}

/// An array with the given elements.
pub open spec fn array_json(elements: Seq<Option<Seq<char>>>) -> Option<Seq<char>> {
    enclosed("["@, elements, "]"@)
}

/// The string of an optional field; the empty string where it has none.
pub open spec fn text_or_empty(text: Option<Seq<char>>) -> Seq<char> {
    match text {
        Some(t) => t,
        None => Seq::empty(),
    }
}

/// The number of an optional field; zero where it has none.
pub open spec fn number_or_zero(n: Option<u64>) -> u64 {
    match n {
        Some(n) => n,
        None => 0,
    }
}

/// The flag of an optional field; `false` where it has none.
pub open spec fn flag_or_false(flag: Option<bool>) -> bool {
    match flag {
        Some(f) => f,
        None => false,
    }
}

/// A string, quoted and escaped.
pub open spec fn text_json(text: Seq<char>) -> Option<Seq<char>> {
    json_string_literal(text)
}

/// An optional string; the empty string where there is none.
pub open spec fn optional_text_json(text: Option<Seq<char>>) -> Option<Seq<char>> {
    text_json(text_or_empty(text))
}

/// A number, in decimal digits.
pub open spec fn number_json(n: u64) -> Option<Seq<char>> {
    Some(decimal(n as nat))
}

/// An optional number; zero where there is none.
pub open spec fn optional_number_json(n: Option<u64>) -> Option<Seq<char>> {
    number_json(number_or_zero(n))
}

/// A flag, as `true` or `false`.
pub open spec fn flag_json(flag: bool) -> Option<Seq<char>> {
    if flag {
        Some("true"@)
    } else {
        Some("false"@)
    }
}

/// An optional flag; `false` where there is none.
pub open spec fn optional_flag_json(flag: Option<bool>) -> Option<Seq<char>> {
    flag_json(flag_or_false(flag))
}

/// The fields of a user, in the order in which they are written.
pub open spec fn user_fields(user: RawUserView) -> Seq<(Seq<char>, Option<Seq<char>>)> {
    seq![
        ("accent_color"@, optional_number_json(user.accent_color)),
        ("avatar"@, optional_text_json(user.avatar)),
        ("avatar_decoration"@, optional_text_json(user.avatar_decoration)),
        ("banner"@, optional_text_json(user.banner)),
        ("banner_color"@, optional_number_json(user.banner_color)),
        ("bot"@, optional_flag_json(user.bot)),
        ("discriminator"@, text_json(user.discriminator)),
        ("display_name"@, optional_text_json(user.display_name)),
        ("flags"@, number_json(user.flags)),
        ("global_name"@, optional_text_json(user.global_name)),
        ("id"@, text_json(user.id)),
        ("public_flags"@, number_json(user.public_flags)),
        ("username"@, text_json(user.username)),
    ]
}

/// The JSON text of a user.
pub open spec fn user_json(user: RawUserView) -> Option<Seq<char>> {
    object_json(user_fields(user))
}

/// A user with every optional field present: each one that had no value
/// holds the empty value of its type.
pub open spec fn filled_user(user: RawUserView) -> RawUserView {
    RawUserView {
        accent_color: Some(number_or_zero(user.accent_color)),
        avatar: Some(text_or_empty(user.avatar)),
        avatar_decoration: Some(text_or_empty(user.avatar_decoration)),
        banner: Some(text_or_empty(user.banner)),
        banner_color: Some(number_or_zero(user.banner_color)),
        bot: Some(flag_or_false(user.bot)),
        display_name: Some(text_or_empty(user.display_name)),
        global_name: Some(text_or_empty(user.global_name)),
        ..user
    }
}

/// The JSON text of a list of strings.
pub open spec fn texts_json(texts: Seq<Seq<char>>) -> Option<Seq<char>> {
    array_json(Seq::new(texts.len(), |i: int| text_json(texts[i])))
}

/// The fields of a member, in the order in which they are written.
pub open spec fn member_fields(member: RawGuildUserView) -> Seq<(Seq<char>, Option<Seq<char>>)> {
    seq![
        ("avatar"@, optional_text_json(member.avatar)),
        ("communication_disabled_until"@, optional_text_json(member.communication_disabled_until)),
        ("deaf"@, flag_json(member.deaf)),
        ("flags"@, number_json(member.flags)),
        ("joined_at"@, text_json(member.joined_at)),
        ("mute"@, flag_json(member.mute)),
        ("nick"@, optional_text_json(member.nick)),
        ("pending"@, flag_json(member.pending)),
        ("premium_since"@, optional_text_json(member.premium_since)),
        ("roles"@, texts_json(member.roles)),
        ("user"@, user_json(member.user)),
    ]
}

/// The JSON text of a member.
pub open spec fn member_json(member: RawGuildUserView) -> Option<Seq<char>> {
    object_json(member_fields(member))
}

/// A member with every optional field present, its user's too.
pub open spec fn filled_member(member: RawGuildUserView) -> RawGuildUserView {
    RawGuildUserView {
        avatar: Some(text_or_empty(member.avatar)),
        communication_disabled_until: Some(text_or_empty(member.communication_disabled_until)),
        nick: Some(text_or_empty(member.nick)),
        premium_since: Some(text_or_empty(member.premium_since)),
        user: filled_user(member.user),
        ..member
    }
}

/// An optional field without a value is written as the empty value of its
/// type: the text of a user is that of the user with every such field filled.
pub proof fn lemma_absent_is_written_as_empty(user: RawUserView)
    ensures
        user_json(user) == user_json(filled_user(user)),
{
}

/// The same of a member, and of the user in it.
pub proof fn lemma_absent_is_written_as_empty_in_a_member(member: RawGuildUserView)
    ensures
        member_json(member) == member_json(filled_member(member)),
{
    lemma_absent_is_written_as_empty(member.user);
}

/// A value that can be written as JSON text.
pub trait JsonText {
    /// The JSON text of the value, or `None` where it cannot be written.
    spec fn json_text(&self) -> Option<Seq<char>>;

    /// Writes the value as JSON text.
    fn to_json(&self) -> (text: Option<String>)
        ensures
            text.deep_view() == self.json_text(),
    ;
}

fn digit_text(d: u64) -> (text: &'static str)
    requires
        d < 10,
    ensures
        text@ == seq![digit(d as nat)],
{
    proof {
        reveal_strlit("0");
        reveal_strlit("1");
        reveal_strlit("2");
        reveal_strlit("3");
        reveal_strlit("4");
        reveal_strlit("5");
        reveal_strlit("6");
        reveal_strlit("7");
        reveal_strlit("8");
        reveal_strlit("9");
    }
    if d == 0 {
        "0"
    } else if d == 1 {
        "1"
    } else if d == 2 {
        "2"
    } else if d == 3 {
        "3"
    } else if d == 4 {
        "4"
    } else if d == 5 {
        "5"
    } else if d == 6 {
        "6"
    } else if d == 7 {
        "7"
    } else if d == 8 {
        "8"
    } else {
        "9"
    }
}

/// Writes a number in decimal digits.
pub fn decimal_text(n: u64) -> (text: String)
    ensures
        text@ == decimal(n as nat),
    decreases n,
{
    if n < 10 {
        String::from_str(digit_text(n))
    } else {
        decimal_text(n / 10).concat(digit_text(n % 10))
    }
}

fn text_piece(text: &str) -> (piece: Option<String>)
    ensures
        piece.deep_view() == text_json(text@),
{
    quote(text)
}

fn optional_text_piece(text: &Option<String>) -> (piece: Option<String>)
    ensures
        piece.deep_view() == optional_text_json(text.deep_view()),
{
    match text {
        Some(t) => quote(t.as_str()),
        None => {
            proof {
                reveal_strlit("");
            }
            assert(""@ =~= Seq::<char>::empty());
            quote("")
        },
    }
}

fn number_piece(n: u64) -> (piece: Option<String>)
    ensures
        piece.deep_view() == number_json(n),
{
    Some(decimal_text(n))
}

fn optional_number_piece(n: Option<u64>) -> (piece: Option<String>)
    ensures
        piece.deep_view() == optional_number_json(n),
{
    match n {
        Some(n) => number_piece(n),
        None => number_piece(0),
    }
}

fn flag_piece(flag: bool) -> (piece: Option<String>)
    ensures
        piece.deep_view() == flag_json(flag),
{
    if flag {
        Some(String::from_str("true"))
    } else {
        Some(String::from_str("false"))
    }
}

fn optional_flag_piece(flag: Option<bool>) -> (piece: Option<String>)
    ensures
        piece.deep_view() == optional_flag_json(flag),
{
    match flag {
        Some(f) => flag_piece(f),
        None => flag_piece(false),
    }
}

/// Writes pieces with a comma between each two, between an opening and a
/// closing bracket. A piece that is `None` makes the whole text `None`.
pub fn write_enclosed(open: &str, pieces: &Vec<Option<String>>, close: &str) -> (text: Option<
    String,
>)
    ensures
        text.deep_view() == enclosed(open@, pieces.deep_view(), close@),
{
    let ghost all = pieces.deep_view();
    let mut inner = String::new();
    let mut i: usize = 0;
    while i < pieces.len()
        invariant
            i <= pieces.len(),
            all == pieces.deep_view(),
            joined(all.take(i as int)) == Some(inner@),
        decreases pieces.len() - i,
    {
        assert(all.take(i as int + 1).drop_last() =~= all.take(i as int));
        match &pieces[i] {
            Some(piece) => {
                if i > 0 {
                    inner.append(",");
                }
                inner.append(piece.as_str());
            },
            None => {
                proof {
                    lemma_joined_needs_its_pieces(all, i as int);
                }
                return None;
            },
        }
        i = i + 1;
    }
    assert(all.take(i as int) =~= all);
    Some(String::from_str(open).concat(inner.as_str()).concat(close))
}

/// Writes an array from the texts of its elements.
pub fn write_array(elements: &Vec<Option<String>>) -> (text: Option<String>)
    ensures
        text.deep_view() == array_json(elements.deep_view()),
{
    write_enclosed("[", elements, "]")
}

/// Writes an object from its fields, each a name and the text of its value.
pub fn write_object(fields: &Vec<(&str, Option<String>)>) -> (text: Option<String>)
    ensures
        text.deep_view() == object_json(fields.deep_view()),
{
    let mut pieces: Vec<Option<String>> = Vec::new();
    let mut i: usize = 0;
    while i < fields.len()
        invariant
            i <= fields.len(),
            pieces.len() == i,
            forall|k: int|
                0 <= k < i ==> (#[trigger] pieces[k]).deep_view() == field_json(
                    fields.deep_view()[k],
                ),
        decreases fields.len() - i,
    {
        let piece = match &fields[i].1 {
            Some(value) => Some(
                String::from_str("\"").concat(fields[i].0).concat("\":").concat(value.as_str()),
            ),
            None => None,
        };
        pieces.push(piece);
        i = i + 1;
    }
    assert(pieces.deep_view() =~= Seq::new(
        fields.deep_view().len(),
        |k: int| field_json(fields.deep_view()[k]),
    ));
    write_enclosed("{", &pieces, "}")
}

impl JsonText for String {
    open spec fn json_text(&self) -> Option<Seq<char>> {
        text_json(self@)
    }

    fn to_json(&self) -> (text: Option<String>) {
        text_piece(self.as_str())
    }
}

impl JsonText for RawUser {
    open spec fn json_text(&self) -> Option<Seq<char>> {
        user_json(self@)
    }

    fn to_json(&self) -> (text: Option<String>) {
        let mut fields: Vec<(&str, Option<String>)> = Vec::new();
        fields.push(("accent_color", optional_number_piece(self.accent_color)));
        fields.push(("avatar", optional_text_piece(&self.avatar)));
        fields.push(("avatar_decoration", optional_text_piece(&self.avatar_decoration)));
        fields.push(("banner", optional_text_piece(&self.banner)));
        fields.push(("banner_color", optional_number_piece(self.banner_color)));
        fields.push(("bot", optional_flag_piece(self.bot)));
        fields.push(("discriminator", text_piece(self.discriminator.as_str())));
        fields.push(("display_name", optional_text_piece(&self.display_name)));
        fields.push(("flags", number_piece(self.flags)));
        fields.push(("global_name", optional_text_piece(&self.global_name)));
        fields.push(("id", text_piece(self.id.as_str())));
        fields.push(("public_flags", number_piece(self.public_flags)));
        fields.push(("username", text_piece(self.username.as_str())));
        assert(fields.deep_view() =~= user_fields(self@));
        write_object(&fields)
    }
}

impl<T: JsonText> JsonText for Vec<T> {
    open spec fn json_text(&self) -> Option<Seq<char>> {
        array_json(Seq::new(self@.len(), |i: int| self@[i].json_text()))
    }

    fn to_json(&self) -> (text: Option<String>) {
        let mut elements: Vec<Option<String>> = Vec::new();
        let mut i: usize = 0;
        while i < self.len()
            invariant
                i <= self.len(),
                elements.len() == i,
                forall|k: int|
                    0 <= k < i ==> (#[trigger] elements[k]).deep_view() == self@[k].json_text(),
            decreases self.len() - i,
        {
            elements.push(self[i].to_json());
            i = i + 1;
        }
        assert(elements.deep_view() =~= Seq::new(self@.len(), |k: int| self@[k].json_text()));
        write_array(&elements)
    }
}

impl JsonText for RawGuildUser {
    open spec fn json_text(&self) -> Option<Seq<char>> {
        member_json(self@)
    }

    fn to_json(&self) -> (text: Option<String>) {
        let roles = self.roles.to_json();
        assert(self.roles.json_text() == texts_json(self@.roles)) by {
            assert(Seq::new(self.roles@.len(), |i: int| self.roles@[i].json_text()) =~= Seq::new(
                self@.roles.len(),
                |i: int| text_json(self@.roles[i]),
            ));
        }
        let mut fields: Vec<(&str, Option<String>)> = Vec::new();
        fields.push(("avatar", optional_text_piece(&self.avatar)));
        fields.push(
            ("communication_disabled_until", optional_text_piece(&self.communication_disabled_until)),
        );
        fields.push(("deaf", flag_piece(self.deaf)));
        fields.push(("flags", number_piece(self.flags)));
        fields.push(("joined_at", text_piece(self.joined_at.as_str())));
        fields.push(("mute", flag_piece(self.mute)));
        fields.push(("nick", optional_text_piece(&self.nick)));
        fields.push(("pending", flag_piece(self.pending)));
        fields.push(("premium_since", optional_text_piece(&self.premium_since)));
        fields.push(("roles", roles));
        fields.push(("user", self.user.to_json()));
        assert(fields.deep_view() =~= member_fields(self@));
        write_object(&fields)
    }
}

/// The text that stands for a value that could not be written.
pub open spec fn fallback_text() -> Seq<char> {
    "[]"@
}

/// The JSON text of a value, or `[]` where the value cannot be written.
pub fn get_json_string<T: JsonText>(return_type: T) -> (text: String)
    ensures
        text@ == match return_type.json_text() {
            Some(t) => t,
            None => fallback_text(),
        },
{
    match return_type.to_json() {
        Some(text) => text,
        None => String::from_str("[]"),
    }
}

} // verus!
