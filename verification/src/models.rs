//! The rows of the three tables, the forms that create them, and the session
//! of a signed-in user.
use vstd::prelude::*;
use crate::columns::UserColumn;
use crate::query::{eq, select_first, Filter, Value};
use crate::text::{parse_i32, parse_user_id};

verus! {

/// A row type whose values can be copied field by field.
pub trait Row: Sized {
    /// A copy equal to `self`.
    fn duplicate(&self) -> (r: Self)
        ensures
            r == *self,
    ;
}

/// A row of the `users` table.
#[derive(Clone, Debug, PartialEq, Eq)]
pub struct User {
    pub user_id: i32,
    pub user_name: String,
    pub passwd: String,
}

/// The sign-up and sign-in form: a name and a password.
#[derive(Clone, Debug, PartialEq, Eq)]
pub struct UserDto {
    pub user_name: String,
    pub passwd: String,
}

/// A row of the `wish` table.
#[derive(Clone, Debug, PartialEq, Eq)]
pub struct Wish {
    pub id: i32,
    pub wish_owner: i32,
    pub title: String,
    pub descr: String,
    pub access_level: i32,
}

/// A wish without its id: the form that creates or edits one, and the row
/// that is inserted.
#[derive(Clone, Debug, PartialEq, Eq)]
pub struct WishDto {
    pub wish_owner: i32,
    pub title: String,
    pub descr: String,
    pub access_level: i32,
}

/// A row of the `friendship` table.
#[derive(Clone, Debug, PartialEq, Eq)]
pub struct Friendship {
    pub id: i32,
    pub user1: i32,
    pub user2: i32,
    pub friend_status: i32,
}

/// A friendship without its id: the request form and the row that is
/// inserted.
#[derive(Clone, Debug, PartialEq, Eq)]
pub struct FriendshipDto {
    pub user1: i32,
    pub user2: i32,
    pub friend_status: i32,
}

impl Row for User {
    fn duplicate(&self) -> (r: Self) {
        User { user_id: self.user_id, user_name: self.user_name.clone(), passwd: self.passwd.clone() }
    }
}

impl Row for UserDto {
    fn duplicate(&self) -> (r: Self) {
        UserDto { user_name: self.user_name.clone(), passwd: self.passwd.clone() }
    }
}

impl Row for Wish {
    fn duplicate(&self) -> (r: Self) {
        Wish {
            id: self.id,
            wish_owner: self.wish_owner,
            title: self.title.clone(),
            descr: self.descr.clone(),
            access_level: self.access_level,
        }
    }
}

impl Row for WishDto {
    fn duplicate(&self) -> (r: Self) {
        WishDto {
            wish_owner: self.wish_owner,
            title: self.title.clone(),
            descr: self.descr.clone(),
            access_level: self.access_level,
        }
    }
}

impl Row for Friendship {
    fn duplicate(&self) -> (r: Self) {
        Friendship { id: self.id, user1: self.user1, user2: self.user2, friend_status: self.friend_status }
    }
}

impl Row for FriendshipDto {
    fn duplicate(&self) -> (r: Self) {
        FriendshipDto { user1: self.user1, user2: self.user2, friend_status: self.friend_status }
    }
}

/// The session of a signed-in user.
pub struct Session {
    pub user: User,
}

/// What a request handler acts in: the session it serves.
pub struct Context {
    session: Session,
}

impl Session {
    /// The context in which the handlers of this session run.
    pub fn into_context(self) -> (cx: Context)
        ensures
            cx.auth_user_spec() == self.user,
    {
        Context { session: self }
    }
}

/// The first user of `users` with id `id`, if any.
pub open spec fn user_with_id(users: Seq<User>, id: i32) -> Option<User> {
    let found = users.filter(|u: User| u.user_id == id);
    if found.len() > 0 {
        Some(found[0])
    } else {
        None
    }
}

/// The user a request acts for, given its `user_id` cookie: the cookie must
/// read as an `i32` id, and the user is the first with that id.
pub open spec fn cookie_user(cookie: Option<Seq<char>>, users: Seq<User>) -> Option<User> {
    match cookie {
        Some(text) => match parse_i32(text) {
            Some(id) => user_with_id(users, id),
            None => None,
        },
        None => None,
    }
}

impl Session {
    /// The session of a request, from its `user_id` cookie: `None`, and the
    /// request is refused as unauthorized, when there is no cookie, when it
    /// does not read as an `i32`, or when no user has that id.
    pub fn from_cookie(cookie: Option<&str>, users: &Vec<User>) -> (r: Option<Session>)
        ensures
            match r {
                Some(s) => cookie_user(
                    match cookie {
                        Some(c) => Some(c@),
                        None => None,
                    },
                    users@,
                ) == Some(s.user),
                None => cookie_user(
                    match cookie {
                        Some(c) => Some(c@),
                        None => None,
                    },
                    users@,
                ) is None,
            },
    {
        let text = match cookie {
            Some(c) => c,
            None => return None,
        };
        let user_id = match parse_user_id(text) {
            Some(id) => id,
            None => return None,
        };
        let query = eq(UserColumn::UserId, Value::Int(user_id));
        let user = select_first(users, &query);
        proof {
            assert((|r: User| query.spec_holds(r)) =~= (|u: User| u.user_id == user_id));
        }
        match user {
            Some(u) => Some(Session { user: u }),
            None => None,
        }
    }
}

impl Context {
    /// The user whom the context acts for.
    pub closed spec fn auth_user_spec(&self) -> User {
        self.session.user
    }

    /// The user whom the context acts for.
    pub fn auth_user(&self) -> (u: User)
        ensures
            u == self.auth_user_spec(),
    {
        self.session.user.duplicate()
    }
}

} // verus!
