//! The columns of the `users`, `wish` and `friendship` tables.
use vstd::prelude::*;
use crate::models::{Friendship, User, Wish};
use crate::query::{
    int_column_assign, int_column_eq, int_column_matches, int_column_set, text_column_assign,
    text_column_eq, text_column_matches, text_column_set, Columns, Value,
};

verus! {

/// A column of the `users` table.
pub enum UserColumn {
    UserId,
    UserName,
    Passwd,
}

/// A column of the `wish` table.
pub enum WishColumn {
    Id,
    WishOwner,
    Title,
    Descr,
    AccessLevel,
}

/// A column of the `friendship` table.
pub enum FriendshipColumn {
    Id,
    User1,
    User2,
    FriendStatus,
}

impl Columns<User> for UserColumn {
    open spec fn spec_column_eq(&self, row: User, v: Value) -> bool {
        match self {
            UserColumn::UserId => int_column_eq(row.user_id, v),
            UserColumn::UserName => text_column_eq(row.user_name, v),
            UserColumn::Passwd => text_column_eq(row.passwd, v),
        }
    }

    open spec fn spec_column_set(&self, before: User, v: Value, after: User) -> bool {
        match self {
            UserColumn::UserId => {
                &&& after.user_id == int_column_set(before.user_id, v)
                &&& after.user_name == before.user_name
                &&& after.passwd == before.passwd
            },
            UserColumn::UserName => {
                &&& after.user_id == before.user_id
                &&& text_column_set(after.user_name@, v)
                &&& after.passwd == before.passwd
            },
            UserColumn::Passwd => {
                &&& after.user_id == before.user_id
                &&& after.user_name == before.user_name
                &&& text_column_set(after.passwd@, v)
            },
        }
    }

    fn column_eq(&self, row: &User, v: &Value) -> (b: bool) {
        match self {
            UserColumn::UserId => int_column_matches(row.user_id, v),
            UserColumn::UserName => text_column_matches(&row.user_name, v),
            UserColumn::Passwd => text_column_matches(&row.passwd, v),
        }
    }

    fn column_set(&self, row: &User, v: &Value) -> (r: User) {
        match self {
            UserColumn::UserId => User {
                user_id: int_column_assign(row.user_id, v),
                user_name: row.user_name.clone(),
                passwd: row.passwd.clone(),
            },
            UserColumn::UserName => User {
                user_id: row.user_id,
                user_name: text_column_assign(v),
                passwd: row.passwd.clone(),
            },
            UserColumn::Passwd => User {
                user_id: row.user_id,
                user_name: row.user_name.clone(),
                passwd: text_column_assign(v),
            },
        }
    }
}

impl Columns<Wish> for WishColumn {
    open spec fn spec_column_eq(&self, row: Wish, v: Value) -> bool {
        match self {
            WishColumn::Id => int_column_eq(row.id, v),
            WishColumn::WishOwner => int_column_eq(row.wish_owner, v),
            WishColumn::Title => text_column_eq(row.title, v),
            WishColumn::Descr => text_column_eq(row.descr, v),
            WishColumn::AccessLevel => int_column_eq(row.access_level, v),
        }
    }

    open spec fn spec_column_set(&self, before: Wish, v: Value, after: Wish) -> bool {
        &&& after.id == (match self {
            WishColumn::Id => int_column_set(before.id, v),
            _ => before.id,
        })
        &&& after.wish_owner == (match self {
            WishColumn::WishOwner => int_column_set(before.wish_owner, v),
            _ => before.wish_owner,
        })
        &&& (match self {
            WishColumn::Title => text_column_set(after.title@, v),
            _ => after.title == before.title,
        })
        &&& (match self {
            WishColumn::Descr => text_column_set(after.descr@, v),
            _ => after.descr == before.descr,
        })
        &&& after.access_level == (match self {
            WishColumn::AccessLevel => int_column_set(before.access_level, v),
            _ => before.access_level,
        })
    }

    fn column_eq(&self, row: &Wish, v: &Value) -> (b: bool) {
        match self {
            WishColumn::Id => int_column_matches(row.id, v),
            WishColumn::WishOwner => int_column_matches(row.wish_owner, v),
            WishColumn::Title => text_column_matches(&row.title, v),
            WishColumn::Descr => text_column_matches(&row.descr, v),
            WishColumn::AccessLevel => int_column_matches(row.access_level, v),
        }
    }

    fn column_set(&self, row: &Wish, v: &Value) -> (r: Wish) {
        match self {
            WishColumn::Id => Wish {
                id: int_column_assign(row.id, v),
                wish_owner: row.wish_owner,
                title: row.title.clone(),
                descr: row.descr.clone(),
                access_level: row.access_level,
            },
            WishColumn::WishOwner => Wish {
                id: row.id,
                wish_owner: int_column_assign(row.wish_owner, v),
                title: row.title.clone(),
                descr: row.descr.clone(),
                access_level: row.access_level,
            },
            WishColumn::Title => Wish {
                id: row.id,
                wish_owner: row.wish_owner,
                title: text_column_assign(v),
                descr: row.descr.clone(),
                access_level: row.access_level,
            },
            WishColumn::Descr => Wish {
                id: row.id,
                wish_owner: row.wish_owner,
                title: row.title.clone(),
                descr: text_column_assign(v),
                access_level: row.access_level,
            },
            WishColumn::AccessLevel => Wish {
                id: row.id,
                wish_owner: row.wish_owner,
                title: row.title.clone(),
                descr: row.descr.clone(),
                access_level: int_column_assign(row.access_level, v),
            },
        }
    }
}

impl Columns<Friendship> for FriendshipColumn {
    open spec fn spec_column_eq(&self, row: Friendship, v: Value) -> bool {
        match self {
            FriendshipColumn::Id => int_column_eq(row.id, v),
            FriendshipColumn::User1 => int_column_eq(row.user1, v),
            FriendshipColumn::User2 => int_column_eq(row.user2, v),
            FriendshipColumn::FriendStatus => int_column_eq(row.friend_status, v),
        }
    }

    open spec fn spec_column_set(&self, before: Friendship, v: Value, after: Friendship) -> bool {
        after == (match self {
            FriendshipColumn::Id => Friendship { id: int_column_set(before.id, v), ..before },
            FriendshipColumn::User1 => Friendship { user1: int_column_set(before.user1, v), ..before },
            FriendshipColumn::User2 => Friendship { user2: int_column_set(before.user2, v), ..before },
            FriendshipColumn::FriendStatus => Friendship {
                friend_status: int_column_set(before.friend_status, v),
                ..before
            },
        })
    }

    fn column_eq(&self, row: &Friendship, v: &Value) -> (b: bool) {
        match self {
            FriendshipColumn::Id => int_column_matches(row.id, v),
            FriendshipColumn::User1 => int_column_matches(row.user1, v),
            FriendshipColumn::User2 => int_column_matches(row.user2, v),
            FriendshipColumn::FriendStatus => int_column_matches(row.friend_status, v),
        }
    }

    fn column_set(&self, row: &Friendship, v: &Value) -> (r: Friendship) {
        let mut r = Friendship {
            id: row.id,
            user1: row.user1,
            user2: row.user2,
            friend_status: row.friend_status,
        };
        match self {
            FriendshipColumn::Id => r.id = int_column_assign(row.id, v),
            FriendshipColumn::User1 => r.user1 = int_column_assign(row.user1, v),
            FriendshipColumn::User2 => r.user2 = int_column_assign(row.user2, v),
            FriendshipColumn::FriendStatus => r.friend_status = int_column_assign(
                row.friend_status,
                v,
            ),
        }
        r
    }
}

} // verus!
