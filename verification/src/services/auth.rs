//! Signing up, signing in and out.
use vstd::prelude::*;
use crate::columns::UserColumn;
use crate::models::{Friendship, Row, Session, User, UserDto, Wish};
use crate::query::{and, eq, expr_holds, select_list, Filter, Value};
use crate::services::{get_wishes, wishes_page_of, Page};

verus! {

/// `u` has this name and this password.
pub open spec fn credentials_match(u: User, name: Seq<char>, passwd: Seq<char>) -> bool {
    u.user_name@ == name && u.passwd@ == passwd
}

/// The users of `users` with this name and this password, in table order.
pub open spec fn users_named(users: Seq<User>, name: Seq<char>, passwd: Seq<char>) -> Seq<User> {
    users.filter(|u: User| credentials_match(u, name, passwd))
}

/// The users with this name and this password, in table order.
pub fn get_user(users: &Vec<User>, username: String, password: String) -> (found: Vec<User>)
    ensures
        found@ == users_named(users@, username@, password@),
{
    let ghost name = username@;
    let ghost passwd = password@;
    let query = and(eq(UserColumn::UserName, Value::Text(username)), eq(UserColumn::Passwd, Value::Text(password)));
    let found = select_list(users, &query);
    proof {
        reveal_with_fuel(expr_holds, 3);
        assert((|r: User| query.spec_holds(r)) =~= (|u: User| credentials_match(u, name, passwd)));
    }
    found
}

/// The row that signing up inserts: the form's name and password.
pub fn create_user(user: &UserDto) -> (row: UserDto)
    ensures
        row == *user,
{
    user.duplicate()
}

/// What signing up answers with once the row is stored: the id of the first
/// user with the form's name and password, which the session cookie then
/// carries, and the `wishes` page with an empty context.
pub fn create_user_session(user: &UserDto, users: &Vec<User>) -> (r: (i32, Page))
    requires
        users_named(users@, user.user_name@, user.passwd@).len() > 0,
    ensures
        r.0 == users_named(users@, user.user_name@, user.passwd@)[0].user_id,
        r.1 == (Page::Wishes { wishes: None, other_wishes: None }),
{
    let found = get_user(users, user.user_name.clone(), user.passwd.clone());
    let user_id = found[0].user_id;
    (user_id, Page::Wishes { wishes: None, other_wishes: None })
}

/// What signing in with `name` and `passwd` answers: with no user of that
/// name and password, no session and the `users` page; otherwise the id of
/// the first such user and that user's `wishes` page.
pub open spec fn login_result(
    r: (Option<i32>, Page),
    name: Seq<char>,
    passwd: Seq<char>,
    users: Seq<User>,
    wishes: Seq<Wish>,
    friendships: Seq<Friendship>,
) -> bool {
    let found = users_named(users, name, passwd);
    if found.len() == 0 {
        r.0 is None && r.1 == Page::Users
    } else {
        r.0 == Some(found[0].user_id) && wishes_page_of(r.1, wishes, friendships, found[0].user_id)
    }
}

/// Signing in. With no user of the form's name and password: no session and
/// the `users` page. Otherwise the first such user is signed in: the session
/// cookie carries their id, and the page is their `wishes` page.
pub fn login(
    user: &UserDto,
    users: &Vec<User>,
    wishes: &Vec<Wish>,
    friendships: &Vec<Friendship>,
) -> (r: (Option<i32>, Page))
    ensures
        login_result(r, user.user_name@, user.passwd@, users@, wishes@, friendships@),
{
    let user_vec = get_user(users, user.user_name.clone(), user.passwd.clone());
    if user_vec.len() == 0 {
        (None, Page::Users)
    } else {
        let user_obj = user_vec[0].duplicate();
        let session_user_id = user_obj.user_id;
        let sess = Session { user: user_obj };
        let cx = sess.into_context();
        (Some(session_user_id), get_wishes(&cx, wishes, friendships))
    }
}

/// Signing out: the `users` page; the session cookie is removed.
pub fn logout() -> (p: Page)
    ensures
        p == Page::Users,
{
    Page::Users
}

} // verus!
