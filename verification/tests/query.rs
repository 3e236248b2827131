use wishlist::columns::{FriendshipColumn, UserColumn, WishColumn};
use wishlist::models::{Friendship, User, Wish};
use wishlist::query::{and, eq, exists_row, or, select_first, select_list, select_related, update_where, Assign, Value};

fn wish(id: i32, owner: i32, title: &str, access_level: i32) -> Wish {
    Wish { id, wish_owner: owner, title: title.to_string(), descr: String::new(), access_level }
}

#[test]
fn select_by_text_of_int_column() {
    let rows = vec![wish(1, 5, "a", 0), wish(2, 6, "b", 0), wish(3, 5, "c", 1)];
    let found = select_list(&rows, &eq(WishColumn::WishOwner, Value::Text("5".to_string())));
    assert_eq!(found, vec![wish(1, 5, "a", 0), wish(3, 5, "c", 1)]);
    let none = select_list(&rows, &eq(WishColumn::WishOwner, Value::Text("05".to_string())));
    assert!(none.is_empty());
}

#[test]
fn select_on_text_column() {
    let rows = vec![wish(1, 5, "12", 0), wish(2, 6, "b", 0)];
    assert_eq!(select_list(&rows, &eq(WishColumn::Title, Value::Int(12))), vec![wish(1, 5, "12", 0)]);
    assert_eq!(select_list(&rows, &eq(WishColumn::Title, Value::Text("b".to_string()))), vec![wish(2, 6, "b", 0)]);
}

#[test]
fn select_first_and_exists() {
    let rows = vec![wish(1, 5, "a", 0), wish(2, 6, "b", 1), wish(3, 6, "c", 1)];
    let q = and(eq(WishColumn::WishOwner, Value::Int(6)), eq(WishColumn::AccessLevel, Value::Int(1)));
    assert_eq!(select_first(&rows, &q), Some(wish(2, 6, "b", 1)));
    assert!(exists_row(&rows, &q));
    let q2 = or(eq(WishColumn::Id, Value::Int(7)), eq(WishColumn::Id, Value::Int(8)));
    assert_eq!(select_first(&rows, &q2), None);
    assert!(!exists_row(&rows, &q2));
}

#[test]
fn select_related_depends_on_other_table() {
    let rows = vec![wish(1, 5, "a", 0), wish(2, 6, "b", 2)];
    let friends = vec![Friendship { id: 1, user1: 5, user2: 6, friend_status: 0 }];
    let shared = eq(WishColumn::AccessLevel, Value::Int(0));
    let with5 = eq(FriendshipColumn::User1, Value::Int(5));
    let with9 = eq(FriendshipColumn::User1, Value::Int(9));
    assert_eq!(select_related(&rows, &shared, &friends, &with5), vec![wish(1, 5, "a", 0)]);
    assert!(select_related(&rows, &shared, &friends, &with9).is_empty());
}

#[test]
fn update_with_unreadable_text_leaves_int_column() {
    let rows = vec![wish(1, 5, "a", 0), wish(2, 6, "b", 0)];
    let set = Assign { column: WishColumn::AccessLevel, value: Value::Text("friends".to_string()) };
    let after = update_where(&rows, &eq(WishColumn::Id, Value::Int(1)), &set);
    assert_eq!(after, rows);
    let set2 = Assign { column: WishColumn::AccessLevel, value: Value::Text("1".to_string()) };
    let after2 = update_where(&rows, &eq(WishColumn::Id, Value::Int(1)), &set2);
    assert_eq!(after2, vec![wish(1, 5, "a", 1), wish(2, 6, "b", 0)]);
}

#[test]
fn update_text_column_with_int() {
    let rows = vec![wish(1, 5, "a", 0)];
    let set = Assign { column: WishColumn::Title, value: Value::Int(-3) };
    let after = update_where(&rows, &eq(WishColumn::Id, Value::Int(1)), &set);
    assert_eq!(after, vec![wish(1, 5, "-3", 0)]);
}

#[test]
fn update_user_columns() {
    let rows = vec![
        User { user_id: 1, user_name: "ann".to_string(), passwd: "x".to_string() },
        User { user_id: 2, user_name: "bob".to_string(), passwd: "y".to_string() },
    ];
    let set = Assign { column: UserColumn::Passwd, value: Value::Text("z".to_string()) };
    let after = update_where(&rows, &eq(UserColumn::UserName, Value::Text("bob".to_string())), &set);
    assert_eq!(after[0], rows[0]);
    assert_eq!(after[1], User { user_id: 2, user_name: "bob".to_string(), passwd: "z".to_string() });
    let set_id = Assign { column: UserColumn::UserId, value: Value::Int(7) };
    let after_id = update_where(&rows, &eq(UserColumn::UserId, Value::Int(1)), &set_id);
    assert_eq!(after_id[0].user_id, 7);
}

#[test]
fn update_friendship_columns() {
    let rows = vec![Friendship { id: 1, user1: 2, user2: 3, friend_status: 0 }];
    let set = Assign { column: FriendshipColumn::User2, value: Value::Text("+9".to_string()) };
    let after = update_where(&rows, &eq(FriendshipColumn::Id, Value::Int(1)), &set);
    assert_eq!(after, vec![Friendship { id: 1, user1: 2, user2: 9, friend_status: 0 }]);
}
