use wishlist::models::{Friendship, FriendshipDto, Session, User, UserDto, Wish, WishDto};
use wishlist::services::auth::{create_user, create_user_session, get_user, login, logout};
use wishlist::services::{
    change_friendship_status, create_friendship_request, create_wish, created_wish_page,
    delete_wish, edit_wish, edit_wish_redirect, friendship_request_page, get_friendships,
    get_wishes, home, Page, FRIENDS, PUBLIC,
};
use wishlist::text::to_decimal;

fn user(id: i32, name: &str, passwd: &str) -> User {
    User { user_id: id, user_name: name.to_string(), passwd: passwd.to_string() }
}

fn wish(id: i32, owner: i32, title: &str, access_level: i32) -> Wish {
    Wish {
        id,
        wish_owner: owner,
        title: title.to_string(),
        descr: format!("about {}", title),
        access_level,
    }
}

fn friendship(id: i32, user1: i32, user2: i32, status: i32) -> Friendship {
    Friendship { id, user1, user2, friend_status: status }
}

fn users() -> Vec<User> {
    vec![user(1, "ann", "pw1"), user(2, "bob", "pw2"), user(3, "cat", "pw3"), user(4, "ann", "pw1")]
}

fn wishes() -> Vec<Wish> {
    vec![
        wish(10, 1, "bike", PUBLIC),
        wish(11, 2, "book", FRIENDS),
        wish(12, 2, "diary", 2),
        wish(13, 1, "secret", 2),
        wish(14, 3, "lamp", PUBLIC),
    ]
}

fn friendships() -> Vec<Friendship> {
    vec![friendship(100, 1, 2, 0), friendship(101, 3, 1, 1), friendship(102, 2, 3, 0)]
}

fn session(u: User) -> wishlist::models::Context {
    Session { user: u }.into_context()
}

#[test]
fn home_and_logout_show_users_page() {
    assert_eq!(home(), Page::Users);
    assert_eq!(logout(), Page::Users);
    assert_eq!(home().template_name(), "users");
}

#[test]
fn template_names() {
    let w = Page::Wishes { wishes: None, other_wishes: None };
    let e = Page::WishEdit { wishes: None };
    let f = Page::Friendships { friendships: None, requests: None };
    assert_eq!(w.template_name(), "wishes");
    assert_eq!(e.template_name(), "wish_edit");
    assert_eq!(f.template_name(), "friendships");
}

#[test]
fn context_acts_for_session_user() {
    let cx = session(user(2, "bob", "pw2"));
    assert_eq!(cx.auth_user(), user(2, "bob", "pw2"));
}

#[test]
fn get_user_matches_name_and_password() {
    let found = get_user(&users(), "ann".to_string(), "pw1".to_string());
    assert_eq!(found, vec![user(1, "ann", "pw1"), user(4, "ann", "pw1")]);
    assert!(get_user(&users(), "ann".to_string(), "pw2".to_string()).is_empty());
    assert!(get_user(&users(), "bob".to_string(), "pw1".to_string()).is_empty());
    assert!(get_user(&vec![], "bob".to_string(), "pw2".to_string()).is_empty());
}

#[test]
fn create_user_inserts_form() {
    let form = UserDto { user_name: "dan".to_string(), passwd: "pw".to_string() };
    assert_eq!(create_user(&form), form);
}

#[test]
fn create_user_session_takes_first_match() {
    let form = UserDto { user_name: "ann".to_string(), passwd: "pw1".to_string() };
    let (id, page) = create_user_session(&form, &users());
    assert_eq!(id, 1);
    assert_eq!(page, Page::Wishes { wishes: None, other_wishes: None });
}

#[test]
fn login_with_unknown_credentials_shows_users_page() {
    let form = UserDto { user_name: "bob".to_string(), passwd: "wrong".to_string() };
    let (id, page) = login(&form, &users(), &wishes(), &friendships());
    assert_eq!(id, None);
    assert_eq!(page, Page::Users);
}

#[test]
fn login_signs_in_first_match_and_shows_wishes() {
    let form = UserDto { user_name: "bob".to_string(), passwd: "pw2".to_string() };
    let (id, page) = login(&form, &users(), &wishes(), &friendships());
    assert_eq!(id, Some(2));
    assert_eq!(
        page,
        Page::Wishes {
            wishes: Some(vec![wish(11, 2, "book", FRIENDS), wish(12, 2, "diary", 2)]),
            other_wishes: Some(vec![
                wish(10, 1, "bike", PUBLIC),
                wish(11, 2, "book", FRIENDS),
                wish(14, 3, "lamp", PUBLIC),
            ]),
        }
    );
}

#[test]
fn get_wishes_without_friendship_lists_no_other_wishes() {
    let cx = session(user(5, "eve", "pw5"));
    let page = get_wishes(&cx, &wishes(), &friendships());
    assert_eq!(page, Page::Wishes { wishes: Some(vec![]), other_wishes: Some(vec![]) });
}

#[test]
fn get_wishes_never_lists_private_wishes_of_others() {
    let cx = session(user(1, "ann", "pw1"));
    let page = get_wishes(&cx, &wishes(), &friendships());
    match page {
        Page::Wishes { wishes: Some(own), other_wishes: Some(other) } => {
            assert_eq!(own, vec![wish(10, 1, "bike", PUBLIC), wish(13, 1, "secret", 2)]);
            assert!(other.iter().all(|w| w.access_level == PUBLIC || w.access_level == FRIENDS));
            assert_eq!(other.len(), 3);
        }
        _ => panic!("expected the wishes page"),
    }
}

#[test]
fn delete_wish_deletes_nothing_and_shows_wishes() {
    let cx = session(user(1, "ann", "pw1"));
    assert_eq!(
        delete_wish(&cx, 10, &wishes(), &friendships()),
        get_wishes(&cx, &wishes(), &friendships())
    );
}

#[test]
fn create_wish_is_owned_by_signed_in_user() {
    let cx = session(user(3, "cat", "pw3"));
    let form = WishDto {
        wish_owner: 1,
        title: "kite".to_string(),
        descr: "red".to_string(),
        access_level: FRIENDS,
    };
    let row = create_wish(&form, &cx);
    assert_eq!(
        row,
        WishDto { wish_owner: 3, title: "kite".to_string(), descr: "red".to_string(), access_level: FRIENDS }
    );
}

#[test]
fn created_wish_page_lists_own_wishes() {
    let cx = session(user(2, "bob", "pw2"));
    assert_eq!(
        created_wish_page(&cx, &wishes()),
        Page::Wishes {
            wishes: Some(vec![wish(11, 2, "book", FRIENDS), wish(12, 2, "diary", 2)]),
            other_wishes: None,
        }
    );
}

#[test]
fn edit_wish_redirect_finds_wish() {
    let cx = session(user(1, "ann", "pw1"));
    assert_eq!(
        edit_wish_redirect(&cx, 12, &wishes()),
        Page::WishEdit { wishes: Some(wish(12, 2, "diary", 2)) }
    );
    assert_eq!(edit_wish_redirect(&cx, 99, &wishes()), Page::WishEdit { wishes: None });
}

#[test]
fn edit_wish_updates_only_that_wish() {
    let cx = session(user(3, "cat", "pw3"));
    let form = WishDto {
        wish_owner: 1,
        title: "new title".to_string(),
        descr: "new descr".to_string(),
        access_level: PUBLIC,
    };
    let before = wishes();
    let after = edit_wish(&form, &cx, 12, &before);
    assert_eq!(after.len(), before.len());
    assert_eq!(
        after[2],
        Wish {
            id: 12,
            wish_owner: 3,
            title: "new title".to_string(),
            descr: "new descr".to_string(),
            access_level: PUBLIC,
        }
    );
    for i in [0, 1, 3, 4] {
        assert_eq!(after[i], before[i]);
    }
    assert_eq!(edit_wish(&form, &cx, 12, &after), after);
    assert_eq!(edit_wish(&form, &cx, 99, &before), before);
}

#[test]
fn get_friendships_lists_friendships_and_no_requests() {
    let cx = session(user(1, "ann", "pw1"));
    let rows = friendships();
    assert_eq!(
        get_friendships(&cx, &rows),
        Page::Friendships {
            friendships: Some(vec![friendship(100, 1, 2, 0), friendship(101, 3, 1, 1)]),
            requests: Some(vec![]),
        }
    );
    let cx2 = session(user(2, "bob", "pw2"));
    assert_eq!(
        get_friendships(&cx2, &rows),
        Page::Friendships {
            friendships: Some(vec![friendship(100, 1, 2, 0), friendship(102, 2, 3, 0)]),
            requests: Some(vec![]),
        }
    );
}

#[test]
fn friendship_request_to_unknown_user_is_refused() {
    let cx = session(user(1, "ann", "pw1"));
    let form = FriendshipDto { user1: 7, user2: 42, friend_status: 0 };
    assert_eq!(create_friendship_request(&form, &cx, &users()), None);
    assert_eq!(
        friendship_request_page(&cx, false, &friendships()),
        Page::Friendships { friendships: None, requests: None }
    );
}

#[test]
fn friendship_request_comes_from_signed_in_user() {
    let cx = session(user(1, "ann", "pw1"));
    let form = FriendshipDto { user1: 7, user2: 3, friend_status: 0 };
    assert_eq!(
        create_friendship_request(&form, &cx, &users()),
        Some(FriendshipDto { user1: 1, user2: 3, friend_status: 0 })
    );
    assert_eq!(
        friendship_request_page(&cx, true, &friendships()),
        Page::Friendships { friendships: Some(vec![friendship(100, 1, 2, 0)]), requests: None }
    );
}

#[test]
fn change_friendship_status_updates_that_pair() {
    let cx = session(user(9, "zed", "pw9"));
    let form = FriendshipDto { user1: 1, user2: 2, friend_status: 1 };
    let before = friendships();
    let after = change_friendship_status(&form, &cx, &before);
    assert_eq!(after, vec![friendship(100, 1, 2, 1), friendship(101, 3, 1, 1), friendship(102, 2, 3, 0)]);
    let reversed = FriendshipDto { user1: 2, user2: 1, friend_status: 1 };
    assert_eq!(change_friendship_status(&reversed, &cx, &before), before);
}

#[test]
fn session_from_cookie_finds_user() {
    let table = users();
    let cookie = to_decimal(3);
    let sess = Session::from_cookie(Some(cookie.as_str()), &table).expect("a session");
    assert_eq!(sess.user, user(3, "cat", "pw3"));
    let sess = Session::from_cookie(Some("+1"), &table).expect("a session");
    assert_eq!(sess.user, user(1, "ann", "pw1"));
}

#[test]
fn session_from_cookie_refuses() {
    let table = users();
    assert!(Session::from_cookie(None, &table).is_none());
    assert!(Session::from_cookie(Some("abc"), &table).is_none());
    assert!(Session::from_cookie(Some("8"), &table).is_none());
    assert!(Session::from_cookie(Some(""), &table).is_none());
}

#[test]
fn login_cookie_leads_back_to_user() {
    let form = UserDto { user_name: "cat".to_string(), passwd: "pw3".to_string() };
    let table = users();
    let (id, _) = login(&form, &table, &wishes(), &friendships());
    let cookie = to_decimal(id.expect("signed in"));
    let sess = Session::from_cookie(Some(cookie.as_str()), &table).expect("a session");
    assert_eq!(sess.user, user(3, "cat", "pw3"));
}

#[test]
fn status_change_twice_is_once() {
    let cx = session(user(1, "ann", "pw1"));
    let form = FriendshipDto { user1: 2, user2: 3, friend_status: 5 };
    let once = change_friendship_status(&form, &cx, &friendships());
    let twice = change_friendship_status(&form, &cx, &once);
    assert_eq!(once, twice);
    assert_eq!(once[2], friendship(102, 2, 3, 5));
}

#[test]
fn requests_stay_empty_whatever_the_status() {
    let rows: Vec<Friendship> = (-3..20).map(|s| friendship(200 + s, 4, 1, s)).collect();
    let cx = session(user(1, "ann", "pw1"));
    match get_friendships(&cx, &rows) {
        Page::Friendships { friendships: Some(all), requests: Some(requests) } => {
            assert_eq!(all.len(), rows.len());
            assert!(requests.is_empty());
        }
        _ => panic!("expected the friendships page"),
    }
}
