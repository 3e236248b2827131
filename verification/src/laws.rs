//! Properties of the service that span its handlers.
use vstd::prelude::*;
use crate::query::{first_selected, selected, Filter};
use crate::models::{cookie_user, user_with_id, Friendship, User, Wish, WishDto, FriendshipDto};
use crate::services::{
    edited_wishes, has_friendship, involves, is_pending, is_shared, others_wishes, owned_wishes,
    pending_requests, status_changed, wishes_page_of, Page, FRIENDS, PUBLIC, shows_wishes,
    shows_friendships, friendships_of, sent_requests, wish_with_id,
};
use crate::services::auth::{credentials_match, login_result, users_named};
use crate::text::{
    all_digits, decimal, digit_char, digit_value, digits_of, digits_value, is_digit,
    lemma_parse_decimal, parse_i32,
};

verus! {

/// No two users of `users` share an id, as the primary key of the `users`
/// table ensures.
pub open spec fn unique_user_ids(users: Seq<User>) -> bool {
    forall|i: int, j: int|
        0 <= i < users.len() && 0 <= j < users.len() && #[trigger] users[i].user_id
            == #[trigger] users[j].user_id ==> i == j
}

/// The session cookie that signing in sets reads back as the id it was
/// written from, so a later request acts for the first user with that id.
pub proof fn lemma_cookie_round_trip(users: Seq<User>, id: i32)
    ensures
        cookie_user(Some(decimal(id as int)), users) == user_with_id(users, id),
{
    lemma_parse_decimal(id);
}

/// When user ids are unique, the requests that follow a successful sign-in
/// act for the user who signed in: the cookie written from that user's id
/// leads back to that very user.
pub proof fn lemma_login_session(users: Seq<User>, name: Seq<char>, passwd: Seq<char>)
    requires
        unique_user_ids(users),
        users_named(users, name, passwd).len() > 0,
    ensures
        cookie_user(Some(decimal(users_named(users, name, passwd)[0].user_id as int)), users)
            == Some(users_named(users, name, passwd)[0]),
{
    let found = users_named(users, name, passwd);
    let signed_in = found[0];
    lemma_cookie_round_trip(users, signed_in.user_id);
    let pred = |u: User| credentials_match(u, name, passwd);
    assert(found.contains(signed_in));
    users.lemma_filter_contains_rev(pred, signed_in);
    let k = choose|k: int| 0 <= k < users.len() && users[k] == signed_in;
    let by_id = |u: User| u.user_id == signed_in.user_id;
    users.lemma_filter_contains(by_id, k);
    let same_id = users.filter(by_id);
    let same = same_id[0];
    users.lemma_filter_pred(by_id, 0);
    assert(same_id.contains(same));
    users.lemma_filter_contains_rev(by_id, same);
    let m = choose|m: int| 0 <= m < users.len() && users[m] == same;
    assert(users[m].user_id == users[k].user_id);
}

/// The `wishes` page lists as the user's own exactly the wishes they own.
pub proof fn lemma_own_wishes_are_owned(wishes: Seq<Wish>, user: i32, w: Wish)
    ensures
        owned_wishes(wishes, user).contains(w) <==> (wishes.contains(w) && w.wish_owner == user),
{
    let pred = |x: Wish| x.wish_owner == user;
    if wishes.contains(w) && w.wish_owner == user {
        let k = choose|k: int| 0 <= k < wishes.len() && wishes[k] == w;
        wishes.lemma_filter_contains(pred, k);
    }
    if owned_wishes(wishes, user).contains(w) {
        wishes.lemma_filter_contains_rev(pred, w);
        let k = choose|k: int| 0 <= k < owned_wishes(wishes, user).len() && owned_wishes(wishes, user)[k] == w;
        wishes.lemma_filter_pred(pred, k);
    }
}

/// The other wishes on a user's `wishes` page are all shared, public or for
/// friends: a wish of any other access level is never listed there.
pub proof fn lemma_others_wishes_are_shared(wishes: Seq<Wish>, friendships: Seq<Friendship>, user: i32)
    ensures
        forall|i: int|
            0 <= i < others_wishes(wishes, friendships, user).len() ==> is_shared(
                #[trigger] others_wishes(wishes, friendships, user)[i],
            ),
{
    broadcast use vstd::seq_lib::group_filter_ensures;

}

/// A user who takes part in no friendship sees no other wishes.
pub proof fn lemma_no_friendship_no_other_wishes(
    wishes: Seq<Wish>,
    friendships: Seq<Friendship>,
    user: i32,
)
    requires
        forall|j: int|
            0 <= j < friendships.len() ==> (#[trigger] friendships[j]).user1 != user
                && friendships[j].user2 != user,
    ensures
        others_wishes(wishes, friendships, user).len() == 0,
{
}

proof fn lemma_digits_start_with_digit(n: nat)
    ensures
        digits_of(n).len() > 0,
        is_digit(digits_of(n)[0]),
    decreases n,
{
    if n >= 10 {
        lemma_digits_start_with_digit(n / 10);
    }
}

/// No status reads `pending`: a status is an integer, and the decimal text
/// of an integer starts with a minus sign or a digit.
pub proof fn lemma_no_status_is_pending(f: Friendship)
    ensures
        !is_pending(f),
{
    if f.friend_status < 0 {
        lemma_digits_start_with_digit((-(f.friend_status as int)) as nat);
    } else {
        lemma_digits_start_with_digit(f.friend_status as nat);
    }
    assert(decimal(f.friend_status as int)[0] != 'p');
}

/// The pending requests on the `friendships` page are always none.
pub proof fn lemma_pending_requests_empty(friendships: Seq<Friendship>, user: i32)
    ensures
        pending_requests(friendships, user).len() == 0,
{
    let pred = |f: Friendship| f.user2 == user && is_pending(f);
    if pending_requests(friendships, user).len() > 0 {
        friendships.lemma_filter_pred(pred, 0);
        lemma_no_status_is_pending(pending_requests(friendships, user)[0]);
    }
}

/// Editing a wish twice with the same form leaves what editing it once
/// leaves.
pub proof fn lemma_edit_twice(
    before: Seq<Wish>,
    middle: Seq<Wish>,
    after: Seq<Wish>,
    wish_id: i32,
    form: WishDto,
    owner: i32,
)
    requires
        edited_wishes(before, middle, wish_id, form, owner),
        edited_wishes(middle, after, wish_id, form, owner),
    ensures
        edited_wishes(before, after, wish_id, form, owner),
{
    assert forall|i: int| 0 <= i < before.len() implies (if (#[trigger] before[i]).id == wish_id {
        &&& after[i].id == wish_id
        &&& after[i].wish_owner == owner
        &&& after[i].title@ == form.title@
        &&& after[i].descr@ == form.descr@
        &&& after[i].access_level == form.access_level
    } else {
        after[i] == before[i]
    }) by {
        assert(middle[i].id == before[i].id || before[i].id == wish_id);
        if before[i].id == wish_id {
            assert(middle[i].id == wish_id);
        }
    }
}

/// Changing a friendship's status twice with the same form leaves what
/// changing it once leaves.
pub proof fn lemma_status_change_twice(
    before: Seq<Friendship>,
    middle: Seq<Friendship>,
    after: Seq<Friendship>,
    form: FriendshipDto,
)
    requires
        status_changed(before, middle, form),
        status_changed(middle, after, form),
    ensures
        status_changed(before, after, form),
{
    assert forall|i: int| 0 <= i < before.len() implies (if (#[trigger] before[i]).user1
        == form.user1 && before[i].user2 == form.user2 {
        after[i] == Friendship { friend_status: form.friend_status, ..before[i] }
    } else {
        after[i] == before[i]
    }) by {
        assert(middle[i].user1 == before[i].user1 && middle[i].user2 == before[i].user2);
    }
}

/// The rows that `filter` keeps are rows of `s` that satisfy `pred`, and
/// every row of `s` that satisfies `pred` is kept.
proof fn lemma_filter_members<T>(s: Seq<T>, pred: spec_fn(T) -> bool)
    ensures
        forall|i: int|
            0 <= i < s.filter(pred).len() ==> pred(#[trigger] s.filter(pred)[i]) && s.contains(
                s.filter(pred)[i],
            ),
        forall|i: int| 0 <= i < s.len() && pred(#[trigger] s[i]) ==> s.filter(pred).contains(s[i]),
{
    broadcast use vstd::seq_lib::group_filter_ensures;

    assert forall|i: int| 0 <= i < s.filter(pred).len() implies pred(
        #[trigger] s.filter(pred)[i],
    ) && s.contains(s.filter(pred)[i]) by {
        assert(s.filter(pred).contains(s.filter(pred)[i]));
        s.lemma_filter_contains_rev(pred, s.filter(pred)[i]);
    }
    assert forall|i: int| 0 <= i < s.len() && pred(#[trigger] s[i]) implies s.filter(
        pred,
    ).contains(s[i]) by {
        s.lemma_filter_contains(pred, i);
    }
}

/// The first row that `filter` keeps is the first row of `s` that satisfies
/// `pred`, and `filter` keeps some row exactly when some row satisfies it.
proof fn lemma_filter_first<T>(s: Seq<T>, pred: spec_fn(T) -> bool)
    ensures
        (s.filter(pred).len() > 0) == (exists|i: int| 0 <= i < s.len() && pred(#[trigger] s[i])),
        s.filter(pred).len() > 0 ==> exists|k: int|
            0 <= k < s.len() && pred(s[k]) && s.filter(pred)[0] == s[k] && forall|j: int|
                0 <= j < k ==> !pred(#[trigger] s[j]),
    decreases s.len(),
{
    reveal_with_fuel(Seq::<_>::filter, 1);
    if s.len() > 0 {
        let d = s.drop_last();
        lemma_filter_first(d, pred);
        assert forall|j: int| 0 <= j < d.len() implies #[trigger] d[j] == s[j] by {}
        if d.filter(pred).len() > 0 {
            let k = choose|k: int|
                0 <= k < d.len() && pred(d[k]) && d.filter(pred)[0] == d[k] && forall|j: int|
                    0 <= j < k ==> !pred(#[trigger] d[j]);
            assert(s.filter(pred)[0] == d.filter(pred)[0]);
            assert forall|j: int| 0 <= j < k implies !pred(#[trigger] s[j]) by {
                assert(d[j] == s[j]);
                assert(!pred(d[j]));
            }
            assert(pred(s[k]));
        } else {
            assert(forall|j: int| 0 <= j < d.len() ==> !pred(#[trigger] d[j]));
            if pred(s.last()) {
                let k = s.len() - 1;
                assert(s.filter(pred)[0] == s[k]);
                assert forall|j: int| 0 <= j < k implies !pred(#[trigger] s[j]) by {
                    assert(d[j] == s[j]);
                }
            } else {
                assert forall|i: int| 0 <= i < s.len() implies !pred(#[trigger] s[i]) by {
                    if i < s.len() - 1 {
                        assert(d[i] == s[i]);
                    }
                }
            }
        }
    }
}

/// The `wishes` page that `get_wishes`, `delete_wish` and a successful
/// sign-in show a user: as their own wishes, exactly the wishes they own,
/// in table order; as the other wishes, exactly the wishes whose access
/// level is public or for friends, in table order, when the user is the
/// first or the second side of some friendship, and none when they are on
/// no side of any.
pub proof fn law_wishes_page(p: Page, wishes: Seq<Wish>, friendships: Seq<Friendship>, user: i32)
    requires
        wishes_page_of(p, wishes, friendships, user),
    ensures
        match p {
            Page::Wishes { wishes: Some(own), other_wishes: Some(other) } => {
                &&& own@ == wishes.filter(|w: Wish| w.wish_owner == user)
                &&& forall|i: int|
                    0 <= i < own@.len() ==> (#[trigger] own@[i]).wish_owner == user
                        && wishes.contains(own@[i])
                &&& forall|i: int|
                    0 <= i < wishes.len() && (#[trigger] wishes[i]).wish_owner == user
                        ==> own@.contains(wishes[i])
                &&& forall|i: int|
                    0 <= i < other@.len() ==> ((#[trigger] other@[i]).access_level == PUBLIC
                        || other@[i].access_level == FRIENDS) && wishes.contains(other@[i])
                &&& (exists|j: int|
                    0 <= j < friendships.len() && ((#[trigger] friendships[j]).user1 == user
                        || friendships[j].user2 == user)) ==> {
                    &&& other@ == wishes.filter(
                        |w: Wish| w.access_level == PUBLIC || w.access_level == FRIENDS,
                    )
                    &&& forall|i: int|
                        0 <= i < wishes.len() && ((#[trigger] wishes[i]).access_level == PUBLIC
                            || wishes[i].access_level == FRIENDS) ==> other@.contains(wishes[i])
                }
                &&& !(exists|j: int|
                    0 <= j < friendships.len() && ((#[trigger] friendships[j]).user1 == user
                        || friendships[j].user2 == user)) ==> other@.len() == 0
            },
            _ => false,
        },
{
    let own_pred = |w: Wish| w.wish_owner == user;
    let shared_pred = |w: Wish| w.access_level == PUBLIC || w.access_level == FRIENDS;
    assert(own_pred =~= (|w: Wish| w.wish_owner == user));
    assert(shared_pred =~= (|w: Wish| is_shared(w)));
    lemma_filter_members(wishes, own_pred);
    lemma_filter_members(wishes, shared_pred);
    let has = exists|j: int|
        0 <= j < friendships.len() && ((#[trigger] friendships[j]).user1 == user
            || friendships[j].user2 == user);
    if has {
        let j = choose|j: int|
            0 <= j < friendships.len() && ((#[trigger] friendships[j]).user1 == user
                || friendships[j].user2 == user);
        assert(involves(friendships[j], user));
        assert(has_friendship(friendships, user));
    } else {
        assert(!has_friendship(friendships, user));
    }
}

/// `get_user` finds exactly the users whose name is the given name and
/// whose stored password is the given password, in table order.
pub proof fn law_get_user(found: Seq<User>, users: Seq<User>, name: Seq<char>, passwd: Seq<char>)
    requires
        found == users_named(users, name, passwd),
    ensures
        found == users.filter(|u: User| u.user_name@ == name && u.passwd@ == passwd),
        forall|i: int|
            0 <= i < found.len() ==> (#[trigger] found[i]).user_name@ == name && found[i].passwd@
                == passwd && users.contains(found[i]),
        forall|i: int|
            0 <= i < users.len() && (#[trigger] users[i]).user_name@ == name && users[i].passwd@
                == passwd ==> found.contains(users[i]),
{
    let pred = |u: User| u.user_name@ == name && u.passwd@ == passwd;
    assert(pred =~= (|u: User| credentials_match(u, name, passwd)));
    lemma_filter_members(users, pred);
}

/// Signing in signs in nobody, and shows the `users` page, exactly when no
/// user has the given name and the given password; otherwise it signs in
/// the first user, in table order, with that name and that password, and
/// shows that user's `wishes` page.
pub proof fn law_login(
    r: (Option<i32>, Page),
    name: Seq<char>,
    passwd: Seq<char>,
    users: Seq<User>,
    wishes: Seq<Wish>,
    friendships: Seq<Friendship>,
)
    requires
        login_result(r, name, passwd, users, wishes, friendships),
    ensures
        r.0 is None <==> !(exists|i: int|
            0 <= i < users.len() && (#[trigger] users[i]).user_name@ == name && users[i].passwd@
                == passwd),
        r.0 is None ==> r.1 == Page::Users,
        r.0 matches Some(id) ==> {
            &&& exists|k: int|
                0 <= k < users.len() && users[k].user_name@ == name && users[k].passwd@ == passwd
                    && users[k].user_id == id && forall|j: int|
                    0 <= j < k ==> !((#[trigger] users[j]).user_name@ == name && users[j].passwd@
                        == passwd)
            &&& wishes_page_of(r.1, wishes, friendships, id)
        },
{
    let pred = |u: User| u.user_name@ == name && u.passwd@ == passwd;
    assert(pred =~= (|u: User| credentials_match(u, name, passwd)));
    lemma_filter_first(users, pred);
}

/// The id that signing up puts in the session cookie is the id of the first
/// user, in table order, with the form's name and password.
pub proof fn law_create_user_session(id: i32, users: Seq<User>, name: Seq<char>, passwd: Seq<char>)
    requires
        users_named(users, name, passwd).len() > 0,
        id == users_named(users, name, passwd)[0].user_id,
    ensures
        exists|k: int|
            0 <= k < users.len() && users[k].user_name@ == name && users[k].passwd@ == passwd
                && users[k].user_id == id && forall|j: int|
                0 <= j < k ==> !((#[trigger] users[j]).user_name@ == name && users[j].passwd@
                    == passwd),
{
    let pred = |u: User| u.user_name@ == name && u.passwd@ == passwd;
    assert(pred =~= (|u: User| credentials_match(u, name, passwd)));
    lemma_filter_first(users, pred);
}

/// An edit sets, on every row with the edited id and whatever that row
/// held, the owner to the editing user and the title, description and
/// access level to exactly the form's, empty texts included; it keeps the
/// row's id, and it leaves every other row and the table's length as they
/// were.
pub proof fn law_edit_wish(
    before: Seq<Wish>,
    after: Seq<Wish>,
    wish_id: i32,
    form: WishDto,
    owner: i32,
)
    requires
        edited_wishes(before, after, wish_id, form, owner),
    ensures
        after.len() == before.len(),
        forall|i: int|
            0 <= i < before.len() && (#[trigger] before[i]).id == wish_id ==> {
                &&& after[i].id == before[i].id
                &&& after[i].wish_owner == owner
                &&& after[i].title@ == form.title@
                &&& after[i].descr@ == form.descr@
                &&& after[i].access_level == form.access_level
            },
        forall|i: int| 0 <= i < before.len() && (#[trigger] before[i]).id != wish_id ==> after[i] == before[i],
{
}

/// After an edit, the `wish_edit` page for the edited id shows the form's
/// title, description and access level and the editing user as owner,
/// when a row with that id exists, and no wish when none does.
pub proof fn law_edit_then_redirect(
    before: Seq<Wish>,
    after: Seq<Wish>,
    wish_id: i32,
    form: WishDto,
    owner: i32,
)
    requires
        edited_wishes(before, after, wish_id, form, owner),
    ensures
        (exists|i: int| 0 <= i < before.len() && (#[trigger] before[i]).id == wish_id) ==> (
        wish_with_id(after, wish_id) matches Some(w) && w.id == wish_id && w.wish_owner == owner
            && w.title@ == form.title@ && w.descr@ == form.descr@ && w.access_level
            == form.access_level),
        !(exists|i: int| 0 <= i < before.len() && (#[trigger] before[i]).id == wish_id)
            ==> wish_with_id(after, wish_id) is None,
{
    let pred = |w: Wish| w.id == wish_id;
    lemma_filter_first(after, pred);
    assert forall|i: int| 0 <= i < after.len() implies (#[trigger] after[i]).id == wish_id
        <==> before[i].id == wish_id by {
        if before[i].id == wish_id {
        } else {
            assert(after[i] == before[i]);
        }
    }
    if exists|i: int| 0 <= i < before.len() && (#[trigger] before[i]).id == wish_id {
        let i = choose|i: int| 0 <= i < before.len() && (#[trigger] before[i]).id == wish_id;
        assert(pred(after[i]));
        let k = choose|k: int|
            0 <= k < after.len() && pred(after[k]) && after.filter(pred)[0] == after[k] && forall|
                j: int,
            | 0 <= j < k ==> !pred(#[trigger] after[j]);
        assert(before[k].id == wish_id);
    } else {
        assert forall|i: int| 0 <= i < after.len() implies !pred(#[trigger] after[i]) by {
            assert(before[i].id != wish_id);
        }
    }
}

/// The `wish_edit` page shows the first wish, in table order, with the
/// requested id, and no wish exactly when no row has that id.
pub proof fn law_edit_wish_redirect(p: Page, wishes: Seq<Wish>, wish_id: i32)
    requires
        p == (Page::WishEdit { wishes: wish_with_id(wishes, wish_id) }),
    ensures
        match p {
            Page::WishEdit { wishes: Some(w) } => exists|k: int|
                0 <= k < wishes.len() && wishes[k] == w && w.id == wish_id && forall|j: int|
                    0 <= j < k ==> (#[trigger] wishes[j]).id != wish_id,
            Page::WishEdit { wishes: None } => forall|i: int|
                0 <= i < wishes.len() ==> (#[trigger] wishes[i]).id != wish_id,
            _ => false,
        },
{
    let pred = |w: Wish| w.id == wish_id;
    lemma_filter_first(wishes, pred);
}

/// A status change sets, on every friendship from the form's `user1` to its
/// `user2` and whatever status it held, the status to the form's, keeping
/// its id and sides; it leaves every other row and the table's length as
/// they were.
pub proof fn law_status_change(before: Seq<Friendship>, after: Seq<Friendship>, form: FriendshipDto)
    requires
        status_changed(before, after, form),
    ensures
        after.len() == before.len(),
        forall|i: int|
            0 <= i < before.len() && (#[trigger] before[i]).user1 == form.user1 && before[i].user2
                == form.user2 ==> {
                &&& after[i].friend_status == form.friend_status
                &&& after[i].id == before[i].id
                &&& after[i].user1 == before[i].user1
                &&& after[i].user2 == before[i].user2
            },
        forall|i: int|
            0 <= i < before.len() && !((#[trigger] before[i]).user1 == form.user1
                && before[i].user2 == form.user2) ==> after[i] == before[i],
{
}

/// Once a friendship request is stored, the page lists exactly the
/// friendships whose first side is the signed-in user, whatever their
/// status, in table order; when nothing was stored it lists nothing.
pub proof fn law_friendship_request_page(p: Page, stored: bool, friendships: Seq<Friendship>, user: i32)
    requires
        !stored ==> shows_friendships(p, None, None),
        stored ==> shows_friendships(p, Some(sent_requests(friendships, user)), None),
    ensures
        !stored ==> p == (Page::Friendships { friendships: None, requests: None }),
        stored ==> match p {
            Page::Friendships { friendships: Some(list), requests: None } => {
                &&& list@ == friendships.filter(|f: Friendship| f.user1 == user)
                &&& forall|i: int|
                    0 <= i < list@.len() ==> (#[trigger] list@[i]).user1 == user
                        && friendships.contains(list@[i])
                &&& forall|i: int|
                    0 <= i < friendships.len() && (#[trigger] friendships[i]).user1 == user
                        ==> list@.contains(friendships[i])
            },
            _ => false,
        },
{
    let pred = |f: Friendship| f.user1 == user;
    lemma_filter_members(friendships, pred);
}

/// The `friendships` page lists exactly the friendships with the signed-in
/// user on either side, whatever their status, in table order, and no
/// requests.
pub proof fn law_friendships_page(p: Page, friendships: Seq<Friendship>, user: i32)
    requires
        shows_friendships(
            p,
            Some(friendships_of(friendships, user)),
            Some(pending_requests(friendships, user)),
        ),
    ensures
        match p {
            Page::Friendships { friendships: Some(list), requests: Some(requests) } => {
                &&& list@ == friendships.filter(|f: Friendship| f.user1 == user || f.user2 == user)
                &&& forall|i: int|
                    0 <= i < list@.len() ==> ((#[trigger] list@[i]).user1 == user || list@[i].user2
                        == user) && friendships.contains(list@[i])
                &&& forall|i: int|
                    0 <= i < friendships.len() && ((#[trigger] friendships[i]).user1 == user
                        || friendships[i].user2 == user) ==> list@.contains(friendships[i])
                &&& requests@.len() == 0
            },
            _ => false,
        },
{
    let pred = |f: Friendship| f.user1 == user || f.user2 == user;
    assert(pred =~= (|f: Friendship| involves(f, user)));
    lemma_filter_members(friendships, pred);
    lemma_pending_requests_empty(friendships, user);
}

/// After a wish is created, the page lists exactly the wishes that the
/// signed-in user owns, in table order, and no other wishes.
pub proof fn law_created_wish_page(p: Page, wishes: Seq<Wish>, user: i32)
    requires
        shows_wishes(p, Some(owned_wishes(wishes, user)), None),
    ensures
        match p {
            Page::Wishes { wishes: Some(own), other_wishes: None } => {
                &&& own@ == wishes.filter(|w: Wish| w.wish_owner == user)
                &&& forall|i: int|
                    0 <= i < own@.len() ==> (#[trigger] own@[i]).wish_owner == user
                        && wishes.contains(own@[i])
                &&& forall|i: int|
                    0 <= i < wishes.len() && (#[trigger] wishes[i]).wish_owner == user
                        ==> own@.contains(wishes[i])
            },
            _ => false,
        },
{
    let pred = |w: Wish| w.wish_owner == user;
    lemma_filter_members(wishes, pred);
}

/// A request with a `user_id` cookie acts for the first user, in table
/// order, whose id the cookie reads as; it is refused exactly when the
/// cookie reads as no `i32` or no user has that id.
pub proof fn law_cookie_session(text: Seq<char>, users: Seq<User>, found: Option<User>)
    requires
        found == cookie_user(Some(text), users),
    ensures
        found is None <==> (parse_i32(text) is None || !(exists|i: int|
            0 <= i < users.len() && (#[trigger] users[i]).user_id == parse_i32(text)->0)),
        found matches Some(u) ==> parse_i32(text) == Some(u.user_id) && exists|k: int|
            0 <= k < users.len() && users[k] == u && forall|j: int|
                0 <= j < k ==> (#[trigger] users[j]).user_id != u.user_id,
{
    if let Some(id) = parse_i32(text) {
        let pred = |u: User| u.user_id == id;
        lemma_filter_first(users, pred);
    }
}

/// The decimal text of an integer, digit by digit: a number below ten is the
/// one character whose code is 48 plus the number; a larger number is the
/// text of its tenth followed by the character of its last digit; a
/// negative number is a minus sign followed by the text of its magnitude.
pub proof fn law_decimal_digits(n: int)
    ensures
        0 <= n < 10 ==> decimal(n).len() == 1 && decimal(n)[0] as int == 48 + n,
        n >= 10 ==> decimal(n).last() as int == 48 + n % 10 && decimal(n).drop_last() == decimal(
            n / 10,
        ),
        n < 0 ==> decimal(n) == seq!['-'] + decimal(-n),
{
    if 0 <= n < 10 {
        assert(decimal(n) == seq![digit_char(n)]);
        assert(digit_value(digit_char(n)) == n);
    } else if n >= 10 {
        let d = n % 10;
        assert(digit_value(digit_char(d)) == d);
        assert(decimal(n) == digits_of((n / 10) as nat).push(digit_char(d)));
    }
}

proof fn lemma_digits_value_nonnegative(s: Seq<char>)
    requires
        forall|i: int| 0 <= i < s.len() ==> is_digit(#[trigger] s[i]),
    ensures
        digits_value(s) >= 0,
    decreases s.len(),
{
    if s.len() > 0 {
        lemma_digits_value_nonnegative(s.drop_last());
    }
}

/// A text of ASCII digits reads as an `i32` digit by digit: one digit reads
/// as its value; a longer text reads as ten times what the text without its
/// last digit reads as, plus that digit, when this fits in an `i32`, and as
/// nothing otherwise.
pub proof fn law_parse_digits(s: Seq<char>)
    requires
        s.len() > 0,
        forall|i: int| 0 <= i < s.len() ==> 48 <= (#[trigger] s[i] as int) <= 57,
    ensures
        s.len() == 1 ==> parse_i32(s) == Some((s[0] as int - 48) as i32),
        s.len() > 1 ==> match parse_i32(s.drop_last()) {
            Some(m) => parse_i32(s) == (if m * 10 + (s.last() as int - 48) <= i32::MAX {
                Some((m * 10 + (s.last() as int - 48)) as i32)
            } else {
                None
            }),
            None => parse_i32(s) is None,
        },
{
    assert(all_digits(s));
    let d = s.drop_last();
    lemma_digits_value_nonnegative(d);
    if s.len() == 1 {
        assert(d.len() == 0);
        assert(digits_value(d) == 0);
    } else {
        assert(all_digits(d)) by {
            assert forall|i: int| 0 <= i < d.len() implies is_digit(#[trigger] d[i]) by {
                assert(d[i] == s[i]);
            }
        }
    }
}

/// A leading `+` changes nothing in what a text of digits reads as, and a
/// leading `-` negates it: when the digits read as `m`, the signed text
/// reads as `-m`; when the signed text reads as `n` above `i32::MIN`, the
/// digits read as `-n`.
pub proof fn law_parse_sign(s: Seq<char>)
    requires
        s.len() > 0,
        forall|i: int| 0 <= i < s.len() ==> 48 <= (#[trigger] s[i] as int) <= 57,
    ensures
        parse_i32(seq!['+'] + s) == parse_i32(s),
        parse_i32(s) matches Some(m) ==> parse_i32(seq!['-'] + s) == Some((-m) as i32),
        parse_i32(seq!['-'] + s) matches Some(n) ==> n <= 0 && (n > i32::MIN ==> parse_i32(s)
            == Some((-n) as i32)),
{
    assert(all_digits(s));
    lemma_digits_value_nonnegative(s);
    let plus = seq!['+'] + s;
    let minus = seq!['-'] + s;
    assert(plus.drop_first() =~= s);
    assert(minus.drop_first() =~= s);
    assert(!is_digit(plus[0]));
    assert(!is_digit(minus[0]));
}

/// Only a text of ASCII digits, with at most a leading `+` or `-`, reads as
/// an `i32`.
pub proof fn law_parse_shape(s: Seq<char>)
    requires
        parse_i32(s) is Some,
    ensures
        (s.len() > 0 && forall|i: int| 0 <= i < s.len() ==> 48 <= (#[trigger] s[i] as int) <= 57)
            || (s.len() > 1 && (s[0] == '+' || s[0] == '-') && forall|i: int|
            1 <= i < s.len() ==> 48 <= (#[trigger] s[i] as int) <= 57),
{
    if !all_digits(s) {
        assert forall|i: int| 1 <= i < s.len() implies 48 <= (#[trigger] s[i] as int) <= 57 by {
            assert(s.drop_first()[i - 1] == s[i]);
        }
    }
}

/// `select_list` keeps exactly the rows that satisfy the condition: each
/// row it returns is a row of the table that satisfies it, and each row of
/// the table that satisfies it is returned.
pub proof fn law_select_list<T, F: Filter<T>>(rows: Seq<T>, filter: F)
    ensures
        forall|i: int|
            0 <= i < selected(rows, filter).len() ==> filter.spec_holds(
                #[trigger] selected(rows, filter)[i],
            ) && rows.contains(selected(rows, filter)[i]),
        forall|i: int|
            0 <= i < rows.len() && filter.spec_holds(#[trigger] rows[i]) ==> selected(
                rows,
                filter,
            ).contains(rows[i]),
{
    let pred = |r: T| filter.spec_holds(r);
    lemma_filter_members(rows, pred);
}

/// `select_first` gives the first row, in table order, that satisfies the
/// condition, and nothing exactly when no row satisfies it.
pub proof fn law_select_first<T, F: Filter<T>>(rows: Seq<T>, filter: F)
    ensures
        first_selected(rows, filter) is None <==> !(exists|i: int|
            0 <= i < rows.len() && filter.spec_holds(#[trigger] rows[i])),
        first_selected(rows, filter) matches Some(r) ==> exists|k: int|
            0 <= k < rows.len() && rows[k] == r && filter.spec_holds(r) && forall|j: int|
                0 <= j < k ==> !filter.spec_holds(#[trigger] rows[j]),
{
    let pred = |r: T| filter.spec_holds(r);
    lemma_filter_first(rows, pred);
}

} // verus!
