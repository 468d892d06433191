//! The records that Discord returns: a user, and a member of a guild.

use crate::json::{Json, JsonView};
use vstd::prelude::*;

verus! {

/// A user, as the user and member endpoints describe one.
#[derive(Debug, Clone, PartialEq, Eq)]
pub struct RawUser {
    pub accent_color: Option<u64>,
    pub avatar: Option<String>,
    pub avatar_decoration: Option<String>,
    pub banner: Option<String>,
    pub banner_color: Option<u64>,
    pub bot: Option<bool>,
    pub discriminator: String,
    pub display_name: Option<String>,
    pub flags: u64,
    pub global_name: Option<String>,
    pub id: String,
    pub public_flags: u64,
    pub username: String,
}

/// The result of looking a user up by id. It has the shape of [`RawUser`].
pub type FetchedUser = RawUser;

/// A member of a guild: a user and what the guild knows of them.
#[derive(Debug, Clone, PartialEq, Eq)]
pub struct RawGuildUser {
    pub avatar: Option<String>,
    pub communication_disabled_until: Option<String>,
    pub deaf: bool,
    pub flags: u64,
    pub joined_at: String,
    pub mute: bool,
    pub nick: Option<String>,
    pub pending: bool,
    pub premium_since: Option<String>,
    pub roles: Vec<String>,
    pub user: RawUser,
}

/// The mathematical value of a [`RawUser`].
pub struct RawUserView {
    pub accent_color: Option<u64>,
    pub avatar: Option<Seq<char>>,
    pub avatar_decoration: Option<Seq<char>>,
    pub banner: Option<Seq<char>>,
    pub banner_color: Option<u64>,
    pub bot: Option<bool>,
    pub discriminator: Seq<char>,
    pub display_name: Option<Seq<char>>,
    pub flags: u64,
    pub global_name: Option<Seq<char>>,
    pub id: Seq<char>,
    pub public_flags: u64,
    pub username: Seq<char>,
}

/// The mathematical value of a [`RawGuildUser`].
pub struct RawGuildUserView {
    pub avatar: Option<Seq<char>>,
    pub communication_disabled_until: Option<Seq<char>>,
    pub deaf: bool,
    pub flags: u64,
    pub joined_at: Seq<char>,
    pub mute: bool,
    pub nick: Option<Seq<char>>,
    pub pending: bool,
    pub premium_since: Option<Seq<char>>,
    pub roles: Seq<Seq<char>>,
    pub user: RawUserView,
}

impl View for RawUser {
    type V = RawUserView;

    open spec fn view(&self) -> RawUserView {
        RawUserView {
            accent_color: self.accent_color,
            avatar: self.avatar.deep_view(),
            avatar_decoration: self.avatar_decoration.deep_view(),
            banner: self.banner.deep_view(),
            banner_color: self.banner_color,
            bot: self.bot,
            discriminator: self.discriminator@,
            display_name: self.display_name.deep_view(),
            flags: self.flags,
            global_name: self.global_name.deep_view(),
            id: self.id@,
            public_flags: self.public_flags,
            username: self.username@,
        }
    }
}

impl View for RawGuildUser {
    type V = RawGuildUserView;

    open spec fn view(&self) -> RawGuildUserView {
        RawGuildUserView {
            avatar: self.avatar.deep_view(),
            communication_disabled_until: self.communication_disabled_until.deep_view(),
            deaf: self.deaf,
            flags: self.flags,
            joined_at: self.joined_at@,
            mute: self.mute,
            nick: self.nick.deep_view(),
            pending: self.pending,
            premium_since: self.premium_since.deep_view(),
            roles: self.roles.deep_view(),
            user: self.user@,
        }
    }
}

/// The user that a JSON document describes: an object in which each required
/// field is present and each field that is present has the kind of its type.
/// Members with other names are not read.
pub open spec fn user_of(tree: JsonView) -> Option<RawUserView> {
    if tree is Object
        && tree.optional_number("accent_color"@) is Some
        && tree.optional_text("avatar"@) is Some
        && tree.optional_text("avatar_decoration"@) is Some
        && tree.optional_text("banner"@) is Some
        && tree.optional_number("banner_color"@) is Some
        && tree.optional_flag("bot"@) is Some
        && tree.required_text("discriminator"@) is Some
        && tree.optional_text("display_name"@) is Some
        && tree.required_number("flags"@) is Some
        && tree.optional_text("global_name"@) is Some
        && tree.required_text("id"@) is Some
        && tree.required_number("public_flags"@) is Some
        && tree.required_text("username"@) is Some
    {
        Some(
            RawUserView {
                accent_color: tree.optional_number("accent_color"@).unwrap(),
                avatar: tree.optional_text("avatar"@).unwrap(),
                avatar_decoration: tree.optional_text("avatar_decoration"@).unwrap(),
                banner: tree.optional_text("banner"@).unwrap(),
                banner_color: tree.optional_number("banner_color"@).unwrap(),
                bot: tree.optional_flag("bot"@).unwrap(),
                discriminator: tree.required_text("discriminator"@).unwrap(),
                display_name: tree.optional_text("display_name"@).unwrap(),
                flags: tree.required_number("flags"@).unwrap(),
                global_name: tree.optional_text("global_name"@).unwrap(),
                id: tree.required_text("id"@).unwrap(),
                public_flags: tree.required_number("public_flags"@).unwrap(),
                username: tree.required_text("username"@).unwrap(),
            },
        )
    } else {
        None
    }
}

/// Whether an optional string was read from this member of an object: the
/// string itself, or nothing from a member that is absent or `null`.
pub open spec fn read_as_text(member: Option<JsonView>, field: Option<Seq<char>>) -> bool {
    match field {
        Some(s) => member == Some(JsonView::Text(s)),
        None => member is None || member == Some(JsonView::Null),
    }
}

/// Whether an optional number was read from this member of an object.
pub open spec fn read_as_number(member: Option<JsonView>, field: Option<u64>) -> bool {
    match field {
        Some(n) => member == Some(JsonView::Unsigned(n)),
        None => member is None || member == Some(JsonView::Null),
    }
}

/// Whether an optional flag was read from this member of an object.
pub open spec fn read_as_flag(member: Option<JsonView>, field: Option<bool>) -> bool {
    match field {
        Some(b) => member == Some(JsonView::Bool(b)),
        None => member is None || member == Some(JsonView::Null),
    }
}

/// Every field of a user that was read is the member of its name in the
/// document.
pub proof fn lemma_user_fields_equal_the_document(tree: JsonView)
    requires
        user_of(tree) is Some,
    ensures
        ({
            let user = user_of(tree).unwrap();
            &&& read_as_number(tree.get("accent_color"@), user.accent_color)
            &&& read_as_text(tree.get("avatar"@), user.avatar)
            &&& read_as_text(tree.get("avatar_decoration"@), user.avatar_decoration)
            &&& read_as_text(tree.get("banner"@), user.banner)
            &&& read_as_number(tree.get("banner_color"@), user.banner_color)
            &&& read_as_flag(tree.get("bot"@), user.bot)
            &&& tree.get("discriminator"@) == Some(JsonView::Text(user.discriminator))
            &&& read_as_text(tree.get("display_name"@), user.display_name)
            &&& tree.get("flags"@) == Some(JsonView::Unsigned(user.flags))
            &&& read_as_text(tree.get("global_name"@), user.global_name)
            &&& tree.get("id"@) == Some(JsonView::Text(user.id))
            &&& tree.get("public_flags"@) == Some(JsonView::Unsigned(user.public_flags))
            &&& tree.get("username"@) == Some(JsonView::Text(user.username))
        }),
{
}

/// The member that a JSON document describes, read as [`user_of`] reads a
/// user. The member's own user is required.
pub open spec fn member_of(tree: JsonView) -> Option<RawGuildUserView> {
    if tree is Object
        && tree.optional_text("avatar"@) is Some
        && tree.optional_text("communication_disabled_until"@) is Some
        && tree.required_flag("deaf"@) is Some
        && tree.required_number("flags"@) is Some
        && tree.required_text("joined_at"@) is Some
        && tree.required_flag("mute"@) is Some
        && tree.optional_text("nick"@) is Some
        && tree.required_flag("pending"@) is Some
        && tree.optional_text("premium_since"@) is Some
        && tree.required_texts("roles"@) is Some
        && tree.get("user"@) is Some
        && user_of(tree.get("user"@).unwrap()) is Some
    {
        Some(
            RawGuildUserView {
                avatar: tree.optional_text("avatar"@).unwrap(),
                communication_disabled_until: tree.optional_text(
                    "communication_disabled_until"@,
                ).unwrap(),
                deaf: tree.required_flag("deaf"@).unwrap(),
                flags: tree.required_number("flags"@).unwrap(),
                joined_at: tree.required_text("joined_at"@).unwrap(),
                mute: tree.required_flag("mute"@).unwrap(),
                nick: tree.optional_text("nick"@).unwrap(),
                pending: tree.required_flag("pending"@).unwrap(),
                premium_since: tree.optional_text("premium_since"@).unwrap(),
                roles: tree.required_texts("roles"@).unwrap(),
                user: user_of(tree.get("user"@).unwrap()).unwrap(),
            },
        )
    } else {
        None
    }
}

/// The member that stands in for a record that could not be read: every
/// string empty, every optional field present and empty or zero, every number
/// zero, every flag false, no roles.
pub open spec fn placeholder_member() -> RawGuildUserView {
    RawGuildUserView {
        avatar: Some(Seq::empty()),
        communication_disabled_until: Some(Seq::empty()),
        deaf: false,
        flags: 0,
        joined_at: Seq::empty(),
        mute: false,
        nick: Some(Seq::empty()),
        pending: false,
        premium_since: Some(Seq::empty()),
        roles: Seq::empty(),
        user: RawUserView {
            accent_color: Some(0),
            avatar: Some(Seq::empty()),
            avatar_decoration: Some(Seq::empty()),
            banner: Some(Seq::empty()),
            banner_color: Some(0),
            bot: Some(false),
            discriminator: Seq::empty(),
            display_name: Some(Seq::empty()),
            flags: 0,
            global_name: Some(Seq::empty()),
            id: Seq::empty(),
            public_flags: 0,
            username: Seq::empty(),
        },
    }
}

/// The member that a record of a page stands for: the one it describes, or
/// the placeholder.
pub open spec fn member_or_placeholder(tree: JsonView) -> RawGuildUserView {
    match member_of(tree) {
        Some(member) => member,
        None => placeholder_member(),
    }
}

impl RawUser {
    /// Reads a user from a JSON document.
    pub fn from_json(tree: &Json) -> (user: Option<RawUser>)
        ensures
            match user {
                Some(u) => user_of(tree@) == Some(u@),
                None => user_of(tree@) is None,
            },
    {
        match tree {
            Json::Object(_) => {},
            _ => {
                return None;
            },
        }
        let accent_color = tree.optional_number("accent_color")?;
        let avatar = tree.optional_text("avatar")?;
        let avatar_decoration = tree.optional_text("avatar_decoration")?;
        let banner = tree.optional_text("banner")?;
        let banner_color = tree.optional_number("banner_color")?;
        let bot = tree.optional_flag("bot")?;
        let discriminator = tree.required_text("discriminator")?;
        let display_name = tree.optional_text("display_name")?;
        let flags = tree.required_number("flags")?;
        let global_name = tree.optional_text("global_name")?;
        let id = tree.required_text("id")?;
        let public_flags = tree.required_number("public_flags")?;
        let username = tree.required_text("username")?;
        Some(
            RawUser {
                accent_color,
                avatar,
                avatar_decoration,
                banner,
                banner_color,
                bot,
                discriminator,
                display_name,
                flags,
                global_name,
                id,
                public_flags,
                username,
            },
        )
    }
}

impl RawGuildUser {
    /// Reads a member from a JSON document.
    pub fn from_json(tree: &Json) -> (member: Option<RawGuildUser>)
        ensures
            match member {
                Some(m) => member_of(tree@) == Some(m@),
                None => member_of(tree@) is None,
            },
    {
        match tree {
            Json::Object(_) => {},
            _ => {
                return None;
            },
        }
        let avatar = tree.optional_text("avatar")?;
        let communication_disabled_until = tree.optional_text("communication_disabled_until")?;
        let deaf = tree.required_flag("deaf")?;
        let flags = tree.required_number("flags")?;
        let joined_at = tree.required_text("joined_at")?;
        let mute = tree.required_flag("mute")?;
        let nick = tree.optional_text("nick")?;
        let pending = tree.required_flag("pending")?;
        let premium_since = tree.optional_text("premium_since")?;
        let roles = tree.required_texts("roles")?;
        let user = RawUser::from_json(tree.get("user")?)?;
        Some(
            RawGuildUser {
                avatar,
                communication_disabled_until,
                deaf,
                flags,
                joined_at,
                mute,
                nick,
                pending,
                premium_since,
                roles,
                user,
            },
        )
    }

    /// The member that stands in for a record that could not be read.
    pub fn placeholder() -> (member: RawGuildUser)
        ensures
            member@ == placeholder_member(),
    {
        let member = RawGuildUser {
            avatar: Some(String::new()),
            communication_disabled_until: Some(String::new()),
            deaf: false,
            flags: 0,
            joined_at: String::new(),
            mute: false,
            nick: Some(String::new()),
            pending: false,
            premium_since: Some(String::new()),
            roles: Vec::new(),
            user: RawUser {
                accent_color: Some(0),
                avatar: Some(String::new()),
                avatar_decoration: Some(String::new()),
                banner: Some(String::new()),
                banner_color: Some(0),
                bot: Some(false),
                discriminator: String::new(),
                display_name: Some(String::new()),
                flags: 0,
                global_name: Some(String::new()),
                id: String::new(),
                public_flags: 0,
                username: String::new(),
            },
        };
        assert(member.roles.deep_view() =~= Seq::<Seq<char>>::empty());
        member
    }

    /// Reads a record of a page, with the placeholder for one that cannot be
    /// read.
    pub fn from_record(tree: &Json) -> (member: RawGuildUser)
        ensures
            member@ == member_or_placeholder(tree@),
    {
        match RawGuildUser::from_json(tree) {
            Some(member) => member,
            None => RawGuildUser::placeholder(),
        }
    }
}

} // verus!
