//! Users: the record, its creation and patch shapes, and the operations on
//! the table that holds them.

use crate::error::MapperError;
use crate::mapper::{found, is_not_found, is_revision};
use crate::query::{keys_ascend, lookup, without};
use crate::record::{number_cell, number_of, text_cell, text_of, time_cell, Cell, CellView, Record};
use crate::table::{is_table_state, Table};
use crate::time::{get_e8_time, Timestamp};
use vstd::prelude::*;
use vstd::string::StringExecFns;

verus! {

/// A user as the storage holds it.
#[derive(Debug, PartialEq, Eq)]
pub struct User {
    user_id: i32,
    username: String,
    role_id: Option<i32>,
    created_at: Option<Timestamp>,
    email: Option<String>,
    password: String,
    full_name: Option<String>,
    avatar_url: Option<String>,
    bio: Option<String>,
    updated_at: Option<Timestamp>,
    mobile_phone: String,
}

/// A user as mathematics sees it.
pub struct UserView {
    pub user_id: int,
    pub username: Seq<char>,
    pub role_id: Option<int>,
    pub created_at: Option<Timestamp>,
    pub email: Option<Seq<char>>,
    pub password: Seq<char>,
    pub full_name: Option<Seq<char>>,
    pub avatar_url: Option<Seq<char>>,
    pub bio: Option<Seq<char>>,
    pub updated_at: Option<Timestamp>,
    pub mobile_phone: Seq<char>,
}

impl View for User {
    type V = UserView;

    closed spec fn view(&self) -> UserView {
        UserView {
            user_id: self.user_id as int,
            username: self.username@,
            role_id: number_of(self.role_id),
            created_at: self.created_at,
            email: text_of(self.email),
            password: self.password@,
            full_name: text_of(self.full_name),
            avatar_url: text_of(self.avatar_url),
            bio: text_of(self.bio),
            updated_at: self.updated_at,
            mobile_phone: self.mobile_phone@,
        }
    }
}

impl User {
    pub fn new(
        user_id: i32,
        username: String,
        role_id: Option<i32>,
        created_at: Option<Timestamp>,
        email: Option<String>,
        password: String,
        full_name: Option<String>,
        avatar_url: Option<String>,
        bio: Option<String>,
        updated_at: Option<Timestamp>,
        mobile_phone: String,
    ) -> (r: Self)
        ensures
            r@ == (UserView {
                user_id: user_id as int,
                username: username@,
                role_id: number_of(role_id),
                created_at,
                email: text_of(email),
                password: password@,
                full_name: text_of(full_name),
                avatar_url: text_of(avatar_url),
                bio: text_of(bio),
                updated_at,
                mobile_phone: mobile_phone@,
            }),
    {
        User {
            user_id,
            username,
            role_id,
            created_at,
            email,
            password,
            full_name,
            avatar_url,
            bio,
            updated_at,
            mobile_phone,
        }
    }

    pub fn user_id(&self) -> (r: i32)
        ensures
            r == self@.user_id,
    {
        self.user_id
    }

    pub fn username(&self) -> (r: &str)
        ensures
            r@ == self@.username,
    {
        self.username.as_str()
    }

    pub fn role(&self) -> (r: &Option<i32>)
        ensures
            number_of(*r) == self@.role_id,
    {
        &self.role_id
    }

    pub fn created_at(&self) -> (r: Option<Timestamp>)
        ensures
            r == self@.created_at,
    {
        self.created_at
    }

    pub fn email(&self) -> (r: &Option<String>)
        ensures
            text_of(*r) == self@.email,
    {
        &self.email
    }

    pub fn password(&self) -> (r: &str)
        ensures
            r@ == self@.password,
    {
        self.password.as_str()
    }

    pub fn full_name(&self) -> (r: &Option<String>)
        ensures
            text_of(*r) == self@.full_name,
    {
        &self.full_name
    }

    pub fn avatar_url(&self) -> (r: &Option<String>)
        ensures
            text_of(*r) == self@.avatar_url,
    {
        &self.avatar_url
    }

    pub fn bio(&self) -> (r: &Option<String>)
        ensures
            text_of(*r) == self@.bio,
    {
        &self.bio
    }

    pub fn updated_at(&self) -> (r: Option<Timestamp>)
        ensures
            r == self@.updated_at,
    {
        self.updated_at
    }

    pub fn mobile_phone(&self) -> (r: &str)
        ensures
            r@ == self@.mobile_phone,
    {
        self.mobile_phone.as_str()
    }

    pub fn set_user_id(&mut self, user_id: i32)
        ensures
            final(self)@ == (UserView { user_id: user_id as int, ..old(self)@ }),
    {
        self.user_id = user_id;
    }

    pub fn set_username(&mut self, username: String)
        ensures
            final(self)@ == (UserView { username: username@, ..old(self)@ }),
    {
        self.username = username;
    }

    pub fn set_role_id(&mut self, role: Option<i32>)
        ensures
            final(self)@ == (UserView { role_id: number_of(role), ..old(self)@ }),
    {
        self.role_id = role;
    }

    pub fn set_created_at(&mut self, created_at: Option<Timestamp>)
        ensures
            final(self)@ == (UserView { created_at: created_at, ..old(self)@ }),
    {
        self.created_at = created_at;
    }

    pub fn set_email(&mut self, email: Option<String>)
        ensures
            final(self)@ == (UserView { email: text_of(email), ..old(self)@ }),
    {
        self.email = email;
    }

    pub fn set_password(&mut self, password: String)
        ensures
            final(self)@ == (UserView { password: password@, ..old(self)@ }),
    {
        self.password = password;
    }

    pub fn set_full_name(&mut self, full_name: Option<String>)
        ensures
            final(self)@ == (UserView { full_name: text_of(full_name), ..old(self)@ }),
    {
        self.full_name = full_name;
    }

    pub fn set_avatar_url(&mut self, avatar_url: Option<String>)
        ensures
            final(self)@ == (UserView { avatar_url: text_of(avatar_url), ..old(self)@ }),
    {
        self.avatar_url = avatar_url;
    }

    pub fn set_bio(&mut self, bio: Option<String>)
        ensures
            final(self)@ == (UserView { bio: text_of(bio), ..old(self)@ }),
    {
        self.bio = bio;
    }

    pub fn set_updated_at(&mut self, updated_at: Option<Timestamp>)
        ensures
            final(self)@ == (UserView { updated_at: updated_at, ..old(self)@ }),
    {
        self.updated_at = updated_at;
    }

    pub fn set_mobile_phone(&mut self, mobile_phone: String)
        ensures
            final(self)@ == (UserView { mobile_phone: mobile_phone@, ..old(self)@ }),
    {
        self.mobile_phone = mobile_phone;
    }
}

impl Clone for User {
    fn clone(&self) -> (r: Self)
        ensures
            r == *self,
    {
        User {
            user_id: self.user_id,
            username: self.username.clone(),
            role_id: self.role_id,
            created_at: self.created_at,
            email: self.email.clone(),
            password: self.password.clone(),
            full_name: self.full_name.clone(),
            avatar_url: self.avatar_url.clone(),
            bio: self.bio.clone(),
            updated_at: self.updated_at,
            mobile_phone: self.mobile_phone.clone(),
        }
    }
}

impl Default for User {
    fn default() -> (r: Self)
        ensures
            r@ == (UserView {
                user_id: 0,
                username: Seq::empty(),
                role_id: None,
                created_at: None,
                email: None,
                password: Seq::empty(),
                full_name: None,
                avatar_url: None,
                bio: None,
                updated_at: None,
                mobile_phone: Seq::empty(),
            }),
    {
        User {
            user_id: 0,
            username: String::new(),
            role_id: None,
            created_at: None,
            email: None,
            password: String::new(),
            full_name: None,
            avatar_url: None,
            bio: None,
            updated_at: None,
            mobile_phone: String::new(),
        }
    }
}

/// What a creation brings: a user without an identifier.
#[derive(Debug, PartialEq, Eq)]
pub struct PostUser {
    username: String,
    role_id: Option<i32>,
    created_at: Option<Timestamp>,
    email: Option<String>,
    password: String,
    full_name: Option<String>,
    avatar_url: Option<String>,
    bio: Option<String>,
    updated_at: Option<Timestamp>,
    mobile_phone: String,
}

/// A user yet to be stored, as mathematics sees it.
pub struct PostUserView {
    pub username: Seq<char>,
    pub role_id: Option<int>,
    pub created_at: Option<Timestamp>,
    pub email: Option<Seq<char>>,
    pub password: Seq<char>,
    pub full_name: Option<Seq<char>>,
    pub avatar_url: Option<Seq<char>>,
    pub bio: Option<Seq<char>>,
    pub updated_at: Option<Timestamp>,
    pub mobile_phone: Seq<char>,
}

impl View for PostUser {
    type V = PostUserView;

    closed spec fn view(&self) -> PostUserView {
        PostUserView {
            username: self.username@,
            role_id: number_of(self.role_id),
            created_at: self.created_at,
            email: text_of(self.email),
            password: self.password@,
            full_name: text_of(self.full_name),
            avatar_url: text_of(self.avatar_url),
            bio: text_of(self.bio),
            updated_at: self.updated_at,
            mobile_phone: self.mobile_phone@,
        }
    }
}

impl PostUser {
    pub fn new(
        username: String,
        role_id: Option<i32>,
        created_at: Option<Timestamp>,
        email: Option<String>,
        password: String,
        full_name: Option<String>,
        avatar_url: Option<String>,
        bio: Option<String>,
        updated_at: Option<Timestamp>,
        mobile_phone: String,
    ) -> (r: Self)
        ensures
            r@ == (PostUserView {
                username: username@,
                role_id: number_of(role_id),
                created_at,
                email: text_of(email),
                password: password@,
                full_name: text_of(full_name),
                avatar_url: text_of(avatar_url),
                bio: text_of(bio),
                updated_at,
                mobile_phone: mobile_phone@,
            }),
    {
        PostUser {
            username,
            role_id,
            created_at,
            email,
            password,
            full_name,
            avatar_url,
            bio,
            updated_at,
            mobile_phone,
        }
    }

    pub fn username(&self) -> (r: &str)
        ensures
            r@ == self@.username,
    {
        self.username.as_str()
    }

    pub fn role_id(&self) -> (r: &Option<i32>)
        ensures
            number_of(*r) == self@.role_id,
    {
        &self.role_id
    }

    pub fn created_at(&self) -> (r: Option<Timestamp>)
        ensures
            r == self@.created_at,
    {
        self.created_at
    }

    pub fn email(&self) -> (r: &Option<String>)
        ensures
            text_of(*r) == self@.email,
    {
        &self.email
    }

    pub fn password(&self) -> (r: &str)
        ensures
            r@ == self@.password,
    {
        self.password.as_str()
    }

    pub fn full_name(&self) -> (r: &Option<String>)
        ensures
            text_of(*r) == self@.full_name,
    {
        &self.full_name
    }

    pub fn avatar_url(&self) -> (r: &Option<String>)
        ensures
            text_of(*r) == self@.avatar_url,
    {
        &self.avatar_url
    }

    pub fn bio(&self) -> (r: &Option<String>)
        ensures
            text_of(*r) == self@.bio,
    {
        &self.bio
    }

    pub fn updated_at(&self) -> (r: Option<Timestamp>)
        ensures
            r == self@.updated_at,
    {
        self.updated_at
    }

    pub fn mobile_phone(&self) -> (r: &str)
        ensures
            r@ == self@.mobile_phone,
    {
        self.mobile_phone.as_str()
    }

    pub fn set_username(&mut self, username: String)
        ensures
            final(self)@ == (PostUserView { username: username@, ..old(self)@ }),
    {
        self.username = username;
    }

    pub fn set_role_id(&mut self, role: Option<i32>)
        ensures
            final(self)@ == (PostUserView { role_id: number_of(role), ..old(self)@ }),
    {
        self.role_id = role;
    }

    pub fn set_created_at(&mut self, created_at: Option<Timestamp>)
        ensures
            final(self)@ == (PostUserView { created_at: created_at, ..old(self)@ }),
    {
        self.created_at = created_at;
    }

    pub fn set_email(&mut self, email: Option<String>)
        ensures
            final(self)@ == (PostUserView { email: text_of(email), ..old(self)@ }),
    {
        self.email = email;
    }

    pub fn set_password(&mut self, password: String)
        ensures
            final(self)@ == (PostUserView { password: password@, ..old(self)@ }),
    {
        self.password = password;
    }

    pub fn set_full_name(&mut self, full_name: Option<String>)
        ensures
            final(self)@ == (PostUserView { full_name: text_of(full_name), ..old(self)@ }),
    {
        self.full_name = full_name;
    }

    pub fn set_avatar_url(&mut self, avatar_url: Option<String>)
        ensures
            final(self)@ == (PostUserView { avatar_url: text_of(avatar_url), ..old(self)@ }),
    {
        self.avatar_url = avatar_url;
    }

    pub fn set_bio(&mut self, bio: Option<String>)
        ensures
            final(self)@ == (PostUserView { bio: text_of(bio), ..old(self)@ }),
    {
        self.bio = bio;
    }

    pub fn set_updated_at(&mut self, updated_at: Option<Timestamp>)
        ensures
            final(self)@ == (PostUserView { updated_at: updated_at, ..old(self)@ }),
    {
        self.updated_at = updated_at;
    }

    pub fn set_mobile_phone(&mut self, mobile_phone: String)
        ensures
            final(self)@ == (PostUserView { mobile_phone: mobile_phone@, ..old(self)@ }),
    {
        self.mobile_phone = mobile_phone;
    }
}

impl Clone for PostUser {
    fn clone(&self) -> (r: Self)
        ensures
            r == *self,
    {
        PostUser {
            username: self.username.clone(),
            role_id: self.role_id,
            created_at: self.created_at,
            email: self.email.clone(),
            password: self.password.clone(),
            full_name: self.full_name.clone(),
            avatar_url: self.avatar_url.clone(),
            bio: self.bio.clone(),
            updated_at: self.updated_at,
            mobile_phone: self.mobile_phone.clone(),
        }
    }
}

impl Default for PostUser {
    fn default() -> (r: Self)
        ensures
            r@ == (PostUserView {
                username: Seq::empty(),
                role_id: None,
                created_at: None,
                email: None,
                password: Seq::empty(),
                full_name: None,
                avatar_url: None,
                bio: None,
                updated_at: None,
                mobile_phone: Seq::empty(),
            }),
    {
        PostUser {
            username: String::new(),
            role_id: None,
            created_at: None,
            email: None,
            password: String::new(),
            full_name: None,
            avatar_url: None,
            bio: None,
            updated_at: None,
            mobile_phone: String::new(),
        }
    }
}

/// What an update brings: every field of a user but the identifier.
#[derive(Debug, PartialEq, Eq)]
pub struct PatchUser {
    username: String,
    role_id: Option<i32>,
    created_at: Option<Timestamp>,
    email: Option<String>,
    password: String,
    full_name: Option<String>,
    avatar_url: Option<String>,
    bio: Option<String>,
    updated_at: Option<Timestamp>,
    mobile_phone: String,
}

/// The patch of a user as mathematics sees it.
pub struct PatchUserView {
    pub username: Seq<char>,
    pub role_id: Option<int>,
    pub created_at: Option<Timestamp>,
    pub email: Option<Seq<char>>,
    pub password: Seq<char>,
    pub full_name: Option<Seq<char>>,
    pub avatar_url: Option<Seq<char>>,
    pub bio: Option<Seq<char>>,
    pub updated_at: Option<Timestamp>,
    pub mobile_phone: Seq<char>,
}

impl View for PatchUser {
    type V = PatchUserView;

    closed spec fn view(&self) -> PatchUserView {
        PatchUserView {
            username: self.username@,
            role_id: number_of(self.role_id),
            created_at: self.created_at,
            email: text_of(self.email),
            password: self.password@,
            full_name: text_of(self.full_name),
            avatar_url: text_of(self.avatar_url),
            bio: text_of(self.bio),
            updated_at: self.updated_at,
            mobile_phone: self.mobile_phone@,
        }
    }
}

impl PatchUser {
    pub fn new(
        username: String,
        role_id: Option<i32>,
        created_at: Option<Timestamp>,
        email: Option<String>,
        password: String,
        full_name: Option<String>,
        avatar_url: Option<String>,
        bio: Option<String>,
        updated_at: Option<Timestamp>,
        mobile_phone: String,
    ) -> (r: Self)
        ensures
            r@ == (PatchUserView {
                username: username@,
                role_id: number_of(role_id),
                created_at,
                email: text_of(email),
                password: password@,
                full_name: text_of(full_name),
                avatar_url: text_of(avatar_url),
                bio: text_of(bio),
                updated_at,
                mobile_phone: mobile_phone@,
            }),
    {
        PatchUser {
            username,
            role_id,
            created_at,
            email,
            password,
            full_name,
            avatar_url,
            bio,
            updated_at,
            mobile_phone,
        }
    }

    pub fn username(&self) -> (r: &str)
        ensures
            r@ == self@.username,
    {
        self.username.as_str()
    }

    pub fn role_id(&self) -> (r: &Option<i32>)
        ensures
            number_of(*r) == self@.role_id,
    {
        &self.role_id
    }

    pub fn created_at(&self) -> (r: Option<Timestamp>)
        ensures
            r == self@.created_at,
    {
        self.created_at
    }

    pub fn email(&self) -> (r: &Option<String>)
        ensures
            text_of(*r) == self@.email,
    {
        &self.email
    }

    pub fn password(&self) -> (r: &str)
        ensures
            r@ == self@.password,
    {
        self.password.as_str()
    }

    pub fn full_name(&self) -> (r: &Option<String>)
        ensures
            text_of(*r) == self@.full_name,
    {
        &self.full_name
    }

    pub fn avatar_url(&self) -> (r: &Option<String>)
        ensures
            text_of(*r) == self@.avatar_url,
    {
        &self.avatar_url
    }

    pub fn bio(&self) -> (r: &Option<String>)
        ensures
            text_of(*r) == self@.bio,
    {
        &self.bio
    }

    pub fn updated_at(&self) -> (r: Option<Timestamp>)
        ensures
            r == self@.updated_at,
    {
        self.updated_at
    }

    pub fn mobile_phone(&self) -> (r: &str)
        ensures
            r@ == self@.mobile_phone,
    {
        self.mobile_phone.as_str()
    }

    pub fn set_username(&mut self, username: String)
        ensures
            final(self)@ == (PatchUserView { username: username@, ..old(self)@ }),
    {
        self.username = username;
    }

    pub fn set_role_id(&mut self, role: Option<i32>)
        ensures
            final(self)@ == (PatchUserView { role_id: number_of(role), ..old(self)@ }),
    {
        self.role_id = role;
    }

    pub fn set_created_at(&mut self, created_at: Option<Timestamp>)
        ensures
            final(self)@ == (PatchUserView { created_at: created_at, ..old(self)@ }),
    {
        self.created_at = created_at;
    }

    pub fn set_email(&mut self, email: Option<String>)
        ensures
            final(self)@ == (PatchUserView { email: text_of(email), ..old(self)@ }),
    {
        self.email = email;
    }

    pub fn set_password(&mut self, password: String)
        ensures
            final(self)@ == (PatchUserView { password: password@, ..old(self)@ }),
    {
        self.password = password;
    }

    pub fn set_full_name(&mut self, full_name: Option<String>)
        ensures
            final(self)@ == (PatchUserView { full_name: text_of(full_name), ..old(self)@ }),
    {
        self.full_name = full_name;
    }

    pub fn set_avatar_url(&mut self, avatar_url: Option<String>)
        ensures
            final(self)@ == (PatchUserView { avatar_url: text_of(avatar_url), ..old(self)@ }),
    {
        self.avatar_url = avatar_url;
    }

    pub fn set_bio(&mut self, bio: Option<String>)
        ensures
            final(self)@ == (PatchUserView { bio: text_of(bio), ..old(self)@ }),
    {
        self.bio = bio;
    }

    pub fn set_updated_at(&mut self, updated_at: Option<Timestamp>)
        ensures
            final(self)@ == (PatchUserView { updated_at: updated_at, ..old(self)@ }),
    {
        self.updated_at = updated_at;
    }

    pub fn set_mobile_phone(&mut self, mobile_phone: String)
        ensures
            final(self)@ == (PatchUserView { mobile_phone: mobile_phone@, ..old(self)@ }),
    {
        self.mobile_phone = mobile_phone;
    }
}

impl Clone for PatchUser {
    fn clone(&self) -> (r: Self)
        ensures
            r == *self,
    {
        PatchUser {
            username: self.username.clone(),
            role_id: self.role_id,
            created_at: self.created_at,
            email: self.email.clone(),
            password: self.password.clone(),
            full_name: self.full_name.clone(),
            avatar_url: self.avatar_url.clone(),
            bio: self.bio.clone(),
            updated_at: self.updated_at,
            mobile_phone: self.mobile_phone.clone(),
        }
    }
}

impl Default for PatchUser {
    fn default() -> (r: Self)
        ensures
            r@ == (PatchUserView {
                username: Seq::empty(),
                role_id: None,
                created_at: None,
                email: None,
                password: Seq::empty(),
                full_name: None,
                avatar_url: None,
                bio: None,
                updated_at: None,
                mobile_phone: Seq::empty(),
            }),
    {
        PatchUser {
            username: String::new(),
            role_id: None,
            created_at: None,
            email: None,
            password: String::new(),
            full_name: None,
            avatar_url: None,
            bio: None,
            updated_at: None,
            mobile_phone: String::new(),
        }
    }
}

impl PostUserView {
    /// The sample user created at `created` and last changed at `updated`:
    /// every text field holds its own name, and the role is 1.
    pub open spec fn demo_at(created: Timestamp, updated: Timestamp) -> PostUserView {
        PostUserView {
            username: "username"@,
            role_id: Some(1),
            created_at: Some(created),
            email: Some("email"@),
            password: "password"@,
            full_name: Some("fullname"@),
            avatar_url: Some("avatar_url"@),
            bio: Some("bio"@),
            updated_at: Some(updated),
            mobile_phone: "mobile_phone"@,
        }
    }
}

impl PostUser {
    /// A sample user created at `created` and last changed at `updated`.
    pub fn demo_at(created: Timestamp, updated: Timestamp) -> (r: Self)
        ensures
            r@ == PostUserView::demo_at(created, updated),
    {
        PostUser {
            username: String::from_str("username"),
            role_id: Some(1),
            created_at: Some(created),
            email: Some(String::from_str("email")),
            password: String::from_str("password"),
            full_name: Some(String::from_str("fullname")),
            avatar_url: Some(String::from_str("avatar_url")),
            bio: Some(String::from_str("bio")),
            updated_at: Some(updated),
            mobile_phone: String::from_str("mobile_phone"),
        }
    }

    /// A sample user. The clock is read once for the time of creation and
    /// once more for the time of the last change.
    pub fn demo() -> (r: Self)
        ensures
            exists|created: Timestamp, updated: Timestamp|
                r@ == #[trigger] PostUserView::demo_at(created, updated),
    {
        let created = get_e8_time();
        let updated = get_e8_time();
        PostUser::demo_at(created, updated)
    }
}

/// What an update writes into the row of a user: a value for every column
/// that may change, and the time of the change.
#[derive(Debug, PartialEq, Eq)]
pub struct UserChanges {
    pub username: String,
    pub role_id: Option<i32>,
    pub email: Option<String>,
    pub password: String,
    pub full_name: Option<String>,
    pub avatar_url: Option<String>,
    pub bio: Option<String>,
    pub updated_at: Option<Timestamp>,
    pub mobile_phone: String,
}

/// What an update writes, as mathematics sees it.
pub struct UserChangesView {
    pub username: Seq<char>,
    pub role_id: Option<int>,
    pub email: Option<Seq<char>>,
    pub password: Seq<char>,
    pub full_name: Option<Seq<char>>,
    pub avatar_url: Option<Seq<char>>,
    pub bio: Option<Seq<char>>,
    pub updated_at: Option<Timestamp>,
    pub mobile_phone: Seq<char>,
}

impl View for UserChanges {
    type V = UserChangesView;

    open spec fn view(&self) -> UserChangesView {
        UserChangesView {
            username: self.username@,
            role_id: number_of(self.role_id),
            email: text_of(self.email),
            password: self.password@,
            full_name: text_of(self.full_name),
            avatar_url: text_of(self.avatar_url),
            bio: text_of(self.bio),
            updated_at: self.updated_at,
            mobile_phone: self.mobile_phone@,
        }
    }
}

impl PatchUserView {
    /// What an update with this patch writes at the time `now`: every field
    /// of the patch, whether it differs from the stored one or not, and `now`
    /// as the time of the last change.
    pub open spec fn changes(self, now: Timestamp) -> UserChangesView {
        UserChangesView {
            username: self.username,
            role_id: self.role_id,
            email: self.email,
            password: self.password,
            full_name: self.full_name,
            avatar_url: self.avatar_url,
            bio: self.bio,
            updated_at: Some(now),
            mobile_phone: self.mobile_phone,
        }
    }
}

impl PatchUser {
    /// What an update with this patch writes at the time `now`.
    pub fn changes(&self, now: Timestamp) -> (r: UserChanges)
        ensures
            r@ == self@.changes(now),
    {
        UserChanges {
            username: self.username.clone(),
            role_id: self.role_id,
            email: self.email.clone(),
            password: self.password.clone(),
            full_name: self.full_name.clone(),
            avatar_url: self.avatar_url.clone(),
            bio: self.bio.clone(),
            updated_at: Some(now),
            mobile_phone: self.mobile_phone.clone(),
        }
    }
}

/// The columns of the user table.
#[derive(Clone, Copy, Debug, PartialEq, Eq, Structural)]
pub enum UserColumn {
    UserId,
    Username,
    RoleId,
    CreatedAt,
    Email,
    Password,
    FullName,
    AvatarUrl,
    Bio,
    UpdatedAt,
    MobilePhone,
}

impl UserView {
    /// What the user holds in `column`.
    pub open spec fn cell_at(self, column: UserColumn) -> CellView {
        match column {
            UserColumn::UserId => CellView::Int(self.user_id),
            UserColumn::Username => CellView::Text(self.username),
            UserColumn::RoleId => number_cell(self.role_id),
            UserColumn::CreatedAt => time_cell(self.created_at),
            UserColumn::Email => text_cell(self.email),
            UserColumn::Password => CellView::Text(self.password),
            UserColumn::FullName => text_cell(self.full_name),
            UserColumn::AvatarUrl => text_cell(self.avatar_url),
            UserColumn::Bio => text_cell(self.bio),
            UserColumn::UpdatedAt => time_cell(self.updated_at),
            UserColumn::MobilePhone => CellView::Text(self.mobile_phone),
        }
    }

    /// The user that `post` makes under the identifier `id`: every field as
    /// the creation brings it.
    pub open spec fn created(post: PostUserView, id: int) -> UserView {
        UserView {
            user_id: id,
            username: post.username,
            role_id: post.role_id,
            created_at: post.created_at,
            email: post.email,
            password: post.password,
            full_name: post.full_name,
            avatar_url: post.avatar_url,
            bio: post.bio,
            updated_at: post.updated_at,
            mobile_phone: post.mobile_phone,
        }
    }

    /// The row after `changes` were written into it: the columns that the
    /// changes name take their values, the others stay.
    pub open spec fn changed(self, changes: UserChangesView) -> UserView {
        UserView {
            user_id: self.user_id,
            username: changes.username,
            role_id: changes.role_id,
            created_at: self.created_at,
            email: changes.email,
            password: changes.password,
            full_name: changes.full_name,
            avatar_url: changes.avatar_url,
            bio: changes.bio,
            updated_at: changes.updated_at,
            mobile_phone: changes.mobile_phone,
        }
    }

    /// The user after `patch` was applied at the time `now`: every field of
    /// the patch overwrites the stored one, but for the two time stamps. The
    /// time of the last change becomes `now`, whatever the patch says, and
    /// the identifier and the time of creation stay.
    pub open spec fn revised(self, patch: PatchUserView, now: Timestamp) -> UserView {
        self.changed(patch.changes(now))
    }
}

impl Record for User {
    type Column = UserColumn;

    open spec fn key(&self) -> int {
        self@.user_id
    }

    open spec fn touched(&self) -> Option<Timestamp> {
        self@.updated_at
    }

    open spec fn cell_at(&self, column: UserColumn) -> CellView {
        self@.cell_at(column)
    }

    fn record_id(&self) -> (r: i32) {
        self.user_id
    }

    fn last_touched(&self) -> (r: Option<Timestamp>) {
        self.updated_at
    }

    fn cell(&self, column: UserColumn) -> (r: Cell<'_>) {
        match column {
            UserColumn::UserId => Cell::Int(self.user_id),
            UserColumn::Username => Cell::Text(self.username.as_str()),
            UserColumn::RoleId => Cell::of_number(self.role_id),
            UserColumn::CreatedAt => Cell::of_time(self.created_at),
            UserColumn::Email => Cell::of_text(&self.email),
            UserColumn::Password => Cell::Text(self.password.as_str()),
            UserColumn::FullName => Cell::of_text(&self.full_name),
            UserColumn::AvatarUrl => Cell::of_text(&self.avatar_url),
            UserColumn::Bio => Cell::of_text(&self.bio),
            UserColumn::UpdatedAt => Cell::of_time(self.updated_at),
            UserColumn::MobilePhone => Cell::Text(self.mobile_phone.as_str()),
        }
    }

    fn duplicate(&self) -> (r: Self) {
        self.clone()
    }
}

impl User {
    /// The user that `post` makes under the identifier `id`.
    pub fn from_post(post: &PostUser, id: i32) -> (r: Self)
        ensures
            r@ == UserView::created(post@, id as int),
    {
        User {
            user_id: id,
            username: post.username.clone(),
            role_id: post.role_id,
            created_at: post.created_at,
            email: post.email.clone(),
            password: post.password.clone(),
            full_name: post.full_name.clone(),
            avatar_url: post.avatar_url.clone(),
            bio: post.bio.clone(),
            updated_at: post.updated_at,
            mobile_phone: post.mobile_phone.clone(),
        }
    }

    /// The user after `patch` was applied at the time `now`.
    pub fn patched(&self, patch: &PatchUser, now: Timestamp) -> (r: Self)
        ensures
            r@ == self@.revised(patch@, now),
    {
        let changes = patch.changes(now);
        User {
            user_id: self.user_id,
            username: changes.username,
            role_id: changes.role_id,
            created_at: self.created_at,
            email: changes.email,
            password: changes.password,
            full_name: changes.full_name,
            avatar_url: changes.avatar_url,
            bio: changes.bio,
            updated_at: changes.updated_at,
            mobile_phone: changes.mobile_phone,
        }
    }
}

/// Stores the user that `user` makes, under the next identifier, and hands
/// the stored row back. Where no identifier is left the table refuses the row
/// and stays as it was.
pub fn insert_user(conn: &mut Table<User>, user: &PostUser) -> (r: Result<User, MapperError>)
    ensures
        old(conn).last_id() < i32::MAX ==> r is Ok && r->Ok_0@ == UserView::created(
            user@,
            old(conn).last_id() + 1,
        ) && final(conn).rows() == old(conn).rows().push(r->Ok_0) && final(conn).last_id() == old(
            conn,
        ).last_id() + 1,
        old(conn).last_id() >= i32::MAX ==> r == Err::<User, MapperError>(
            MapperError::ConstraintViolation,
        ) && final(conn).rows() == old(conn).rows() && final(conn).last_id() == old(
            conn,
        ).last_id(),
        is_table_state(final(conn).rows(), final(conn).last_id()),
{
    match conn.next_id() {
        None => Err(MapperError::ConstraintViolation),
        Some(id) => {
            let row = User::from_post(user, id);
            let stored = row.clone();
            assert(row.key() == id);
            match conn.insert(row) {
                Ok(()) => Ok(stored),
                Err(e) => Err(e),
            }
        },
    }
}

/// Every user, in the order of the identifiers.
pub fn fetch_all_users(conn: &mut Table<User>) -> (r: Result<Vec<User>, MapperError>)
    ensures
        final(conn).rows() == old(conn).rows(),
        final(conn).last_id() == old(conn).last_id(),
        is_table_state(final(conn).rows(), final(conn).last_id()),
        r is Ok,
        r->Ok_0@ == old(conn).rows(),
        keys_ascend(r->Ok_0@),
{
    Ok(conn.all())
}

/// The user that carries the identifier `id`.
pub fn fetch_user_by_id(conn: &mut Table<User>, id: i32) -> (r: Result<User, MapperError>)
    ensures
        final(conn).rows() == old(conn).rows(),
        final(conn).last_id() == old(conn).last_id(),
        is_table_state(final(conn).rows(), final(conn).last_id()),
        r == found(lookup(old(conn).rows(), id as int)),
{
    match conn.find(id) {
        Some(row) => Ok(row),
        None => Err(MapperError::NotFound),
    }
}

/// Applies `user` to the user that carries the identifier `id`, at the time
/// `now`, and hands back the row as it stands afterwards.
pub fn update_user_by_id_at(conn: &mut Table<User>, id: i32, user: &PatchUser, now: Timestamp) -> (r:
    Result<User, MapperError>)
    ensures
        match lookup(old(conn).rows(), id as int) {
            Some(previous) => is_revision(r, previous, now, old(conn).rows(), final(conn).rows())
                && r->Ok_0@ == previous@.revised(user@, now),
            None => is_not_found(r, old(conn).rows(), final(conn).rows()),
        },
        final(conn).last_id() == old(conn).last_id(),
        is_table_state(final(conn).rows(), final(conn).last_id()),
{
    match conn.find(id) {
        None => Err(MapperError::NotFound),
        Some(previous) => {
            let row = previous.patched(user, now);
            let stored = row.clone();
            assert(row.key() == previous.key() && row.touched() == Some(now));
            conn.replace(row);
            Ok(stored)
        },
    }
}

/// Applies `user` to the user that carries the identifier `id`, stamped with
/// the time that the clock shows.
pub fn update_user_by_id(conn: &mut Table<User>, id: i32, user: &PatchUser) -> (r: Result<
    User,
    MapperError,
>)
    ensures
        match lookup(old(conn).rows(), id as int) {
            Some(previous) => exists|now: Timestamp| #[trigger]
                is_revision(r, previous, now, old(conn).rows(), final(conn).rows()) && r->Ok_0@
                    == previous@.revised(user@, now),
            None => is_not_found(r, old(conn).rows(), final(conn).rows()),
        },
        final(conn).last_id() == old(conn).last_id(),
        is_table_state(final(conn).rows(), final(conn).last_id()),
{
    let now = get_e8_time();
    update_user_by_id_at(conn, id, user, now)
}

/// Takes out the user that carries the identifier `id` and hands back what
/// it last held.
pub fn delete_user_by_id(conn: &mut Table<User>, id: i32) -> (r: Result<User, MapperError>)
    ensures
        r == found(lookup(old(conn).rows(), id as int)),
        final(conn).rows() == without(old(conn).rows(), id as int),
        final(conn).last_id() == old(conn).last_id(),
        is_table_state(final(conn).rows(), final(conn).last_id()),
{
    match conn.remove(id) {
        Some(row) => Ok(row),
        None => Err(MapperError::NotFound),
    }
}

} // verus!
