//! The request handlers: what each one reads, writes and answers with.
use vstd::prelude::*;
use crate::columns::{FriendshipColumn, UserColumn, WishColumn};
use crate::models::{Context, Friendship, FriendshipDto, User, Wish, WishDto};
use crate::query::{
    and, any_selected, eq, exists_row, expr_holds, or, select_first, select_list, select_related, update_where,
    Assign, Filter, Value,
};
use crate::text::{decimal, lemma_decimal_injective, lemma_parse_decimal, to_decimal};
use vstd::string::StringExecFns;

pub mod auth;

verus! {

/// The access level of a wish that everyone may see.
pub const PUBLIC: i32 = 0;

/// The access level of a wish that friends may see.
pub const FRIENDS: i32 = 1;

/// The page a handler answers with: a template and the lists in its
/// context. A list that is `None` is absent from the context.
#[derive(Debug, PartialEq, Eq)]
pub enum Page {
    /// The `users` template, with an empty context.
    Users,
    /// The `wishes` template.
    Wishes { wishes: Option<Vec<Wish>>, other_wishes: Option<Vec<Wish>> },
    /// The `wish_edit` template, with the wish being edited when there is one.
    WishEdit { wishes: Option<Wish> },
    /// The `friendships` template.
    Friendships { friendships: Option<Vec<Friendship>>, requests: Option<Vec<Friendship>> },
}

impl Page {
    /// The name of the template the page is rendered with.
    pub fn template_name(&self) -> (name: &'static str)
        ensures
            name@ == template_of(*self),
    {
        match self {
            Page::Users => {
                proof { reveal_strlit("users"); }
                "users"
            },
            Page::Wishes { .. } => {
                proof { reveal_strlit("wishes"); }
                "wishes"
            },
            Page::WishEdit { .. } => {
                proof { reveal_strlit("wish_edit"); }
                "wish_edit"
            },
            Page::Friendships { .. } => {
                proof { reveal_strlit("friendships"); }
                "friendships"
            },
        }
    }
}

/// The name of the template of `p`.
pub open spec fn template_of(p: Page) -> Seq<char> {
    match p {
        Page::Users => seq!['u', 's', 'e', 'r', 's'],
        Page::Wishes { .. } => seq!['w', 'i', 's', 'h', 'e', 's'],
        Page::WishEdit { .. } => seq!['w', 'i', 's', 'h', '_', 'e', 'd', 'i', 't'],
        Page::Friendships { .. } => seq!['f', 'r', 'i', 'e', 'n', 'd', 's', 'h', 'i', 'p', 's'],
    }
}

/// The rows of a list that is present, or `None`.
pub open spec fn list_view<T>(list: Option<Vec<T>>) -> Option<Seq<T>> {
    match list {
        Some(v) => Some(v@),
        None => None,
    }
}

/// `p` is the `wishes` page with these lists.
pub open spec fn shows_wishes(p: Page, wishes: Option<Seq<Wish>>, other_wishes: Option<Seq<Wish>>) -> bool {
    match p {
        Page::Wishes { wishes: w, other_wishes: o } => list_view(w) == wishes && list_view(o)
            == other_wishes,
        _ => false,
    }
}

/// `p` is the `friendships` page with these lists.
pub open spec fn shows_friendships(
    p: Page,
    friendships: Option<Seq<Friendship>>,
    requests: Option<Seq<Friendship>>,
) -> bool {
    match p {
        Page::Friendships { friendships: f, requests: r } => list_view(f) == friendships
            && list_view(r) == requests,
        _ => false,
    }
}

/// The wishes of `wishes` that `owner` owns, in table order.
pub open spec fn owned_wishes(wishes: Seq<Wish>, owner: i32) -> Seq<Wish> {
    wishes.filter(|w: Wish| w.wish_owner == owner)
}

/// A wish whose access level lets others see it: public, or for friends.
pub open spec fn is_shared(w: Wish) -> bool {
    w.access_level == PUBLIC || w.access_level == FRIENDS
}

/// `user` is one of the two sides of `f`.
pub open spec fn involves(f: Friendship, user: i32) -> bool {
    f.user1 == user || f.user2 == user
}

/// Some friendship of `friendships` involves `user`.
pub open spec fn has_friendship(friendships: Seq<Friendship>, user: i32) -> bool {
    exists|j: int| 0 <= j < friendships.len() && involves(#[trigger] friendships[j], user)
}

/// The wishes that the `wishes` page lists beside a user's own: the shared
/// wishes, when the user takes part in some friendship; none otherwise.
pub open spec fn others_wishes(wishes: Seq<Wish>, friendships: Seq<Friendship>, user: i32) -> Seq<
    Wish,
> {
    if has_friendship(friendships, user) {
        wishes.filter(|w: Wish| is_shared(w))
    } else {
        Seq::empty()
    }
}

/// The `wishes` page of `user`: their own wishes and the others' wishes.
pub open spec fn wishes_page_of(
    p: Page,
    wishes: Seq<Wish>,
    friendships: Seq<Friendship>,
    user: i32,
) -> bool {
    shows_wishes(p, Some(owned_wishes(wishes, user)), Some(others_wishes(wishes, friendships, user)))
}

/// The home page.
pub fn home() -> (p: Page)
    ensures
        p == Page::Users,
{
    Page::Users
}

/// The `wishes` page of the signed-in user: the wishes they own, and the
/// wishes shared as public or for friends when the user takes part in some
/// friendship.
pub fn get_wishes(cx: &Context, wishes: &Vec<Wish>, friendships: &Vec<Friendship>) -> (p: Page)
    ensures
        wishes_page_of(p, wishes@, friendships@, cx.auth_user_spec().user_id),
{
    let auth_user = cx.auth_user();
    let id = auth_user.user_id;
    let own_query = eq(WishColumn::WishOwner, Value::Int(id));
    let own = select_list(wishes, &own_query);
    let shared_query = or(
        eq(WishColumn::AccessLevel, Value::Int(PUBLIC)),
        eq(WishColumn::AccessLevel, Value::Int(FRIENDS)),
    );
    let friend_query = or(
        eq(FriendshipColumn::User1, Value::Int(id)),
        eq(FriendshipColumn::User2, Value::Int(id)),
    );
    let other = select_related(wishes, &shared_query, friendships, &friend_query);
    proof {
        reveal_with_fuel(expr_holds, 3);
        assert((|r: Wish| own_query.spec_holds(r)) =~= (|w: Wish| w.wish_owner == id));
        assert((|r: Wish| shared_query.spec_holds(r)) =~= (|w: Wish| is_shared(w)));
        assert(any_selected(friendships@, friend_query) == has_friendship(friendships@, id)) by {
            if any_selected(friendships@, friend_query) {
                let j = choose|j: int|
                    0 <= j < friendships@.len() && friend_query.spec_holds(
                        #[trigger] friendships@[j],
                    );
                assert(involves(friendships@[j], id));
            }
            if has_friendship(friendships@, id) {
                let j = choose|j: int|
                    0 <= j < friendships@.len() && involves(#[trigger] friendships@[j], id);
                assert(friend_query.spec_holds(friendships@[j]));
            }
        }
    }
    Page::Wishes { wishes: Some(own), other_wishes: Some(other) }
}

/// The row that `create_wish` inserts: the form's title, description and
/// access level, owned by the signed-in user whatever owner the form names.
pub fn create_wish(a_wish: &WishDto, cx: &Context) -> (row: WishDto)
    ensures
        row.wish_owner == cx.auth_user_spec().user_id,
        row.title == a_wish.title,
        row.descr == a_wish.descr,
        row.access_level == a_wish.access_level,
{
    let auth_user = cx.auth_user();
    WishDto {
        wish_owner: auth_user.user_id,
        title: a_wish.title.clone(),
        descr: a_wish.descr.clone(),
        access_level: a_wish.access_level,
    }
}

/// The page `create_wish` answers with once the row is stored: the `wishes`
/// page with the signed-in user's wishes, selected by the decimal text of
/// their id.
pub fn created_wish_page(cx: &Context, wishes: &Vec<Wish>) -> (p: Page)
    ensures
        shows_wishes(p, Some(owned_wishes(wishes@, cx.auth_user_spec().user_id)), None),
{
    let auth_user = cx.auth_user();
    let id = auth_user.user_id;
    let query = eq(WishColumn::WishOwner, Value::Text(to_decimal(id)));
    let own = select_list(wishes, &query);
    proof {
        assert forall|w: Wish| #[trigger] query.spec_holds(w) == (w.wish_owner == id) by {
            lemma_decimal_injective(w.wish_owner, id);
        }
        assert((|r: Wish| query.spec_holds(r)) =~= (|w: Wish| w.wish_owner == id));
    }
    Page::Wishes { wishes: Some(own), other_wishes: None }
}

/// The handler behind the delete button: it deletes nothing and answers with
/// the `wishes` page of the signed-in user, as `get_wishes` does.
pub fn delete_wish(cx: &Context, my_id: i32, wishes: &Vec<Wish>, friendships: &Vec<Friendship>) -> (p: Page)
    ensures
        wishes_page_of(p, wishes@, friendships@, cx.auth_user_spec().user_id),
{
    get_wishes(cx, wishes, friendships)
}

/// The wish with id `wish_id`, the first such row, if any.
pub open spec fn wish_with_id(wishes: Seq<Wish>, wish_id: i32) -> Option<Wish> {
    let found = wishes.filter(|w: Wish| w.id == wish_id);
    if found.len() > 0 {
        Some(found[0])
    } else {
        None
    }
}

/// The `wish_edit` page for the wish with id `wish_id`.
pub fn edit_wish_redirect(cx: &Context, wish_id: i32, wishes: &Vec<Wish>) -> (p: Page)
    ensures
        p == (Page::WishEdit { wishes: wish_with_id(wishes@, wish_id) }),
{
    let query = eq(WishColumn::Id, Value::Int(wish_id));
    let found = select_first(wishes, &query);
    proof {
        assert((|r: Wish| query.spec_holds(r)) =~= (|w: Wish| w.id == wish_id));
    }
    Page::WishEdit { wishes: found }
}

/// `after` is the `wish` table `before` once the wish with id `wish_id` is
/// edited with `form` by `owner`: each such row takes `owner` as its owner
/// and the form's title, description and access level; the other rows stay
/// as they were.
pub open spec fn edited_wishes(
    before: Seq<Wish>,
    after: Seq<Wish>,
    wish_id: i32,
    form: WishDto,
    owner: i32,
) -> bool {
    &&& after.len() == before.len()
    &&& forall|i: int|
        0 <= i < before.len() ==> if (#[trigger] before[i]).id == wish_id {
            &&& after[i].id == wish_id
            &&& after[i].wish_owner == owner
            &&& after[i].title@ == form.title@
            &&& after[i].descr@ == form.descr@
            &&& after[i].access_level == form.access_level
        } else {
            after[i] == before[i]
        }
}

/// The `wish` table after the signed-in user edits the wish with id
/// `wish_id`: one update per column, each to the rows with that id, which
/// sets the owner to the signed-in user and the title, description and
/// access level to the form's.
pub fn edit_wish(a_wish: &WishDto, cx: &Context, wish_id: i32, wishes: &Vec<Wish>) -> (res: Vec<Wish>)
    ensures
        edited_wishes(wishes@, res@, wish_id, *a_wish, cx.auth_user_spec().user_id),
{
    let auth_user = cx.auth_user();
    let id = auth_user.user_id;
    let query = eq(WishColumn::Id, Value::Int(wish_id));
    let set_owner = Assign { column: WishColumn::WishOwner, value: Value::Text(to_decimal(id)) };
    let set_title = Assign { column: WishColumn::Title, value: Value::Text(a_wish.title.clone()) };
    let set_descr = Assign { column: WishColumn::Descr, value: Value::Text(a_wish.descr.clone()) };
    let set_access = Assign {
        column: WishColumn::AccessLevel,
        value: Value::Text(to_decimal(a_wish.access_level)),
    };
    let r1 = update_where(wishes, &query, &set_owner);
    let r2 = update_where(&r1, &query, &set_title);
    let r3 = update_where(&r2, &query, &set_descr);
    let r4 = update_where(&r3, &query, &set_access);
    proof {
        lemma_parse_decimal(id);
        lemma_parse_decimal(a_wish.access_level);
        assert forall|i: int| 0 <= i < wishes@.len() implies if (#[trigger] wishes@[i]).id
            == wish_id {
            &&& r4@[i].id == wish_id
            &&& r4@[i].wish_owner == id
            &&& r4@[i].title@ == a_wish.title@
            &&& r4@[i].descr@ == a_wish.descr@
            &&& r4@[i].access_level == a_wish.access_level
        } else {
            r4@[i] == wishes@[i]
        } by {
            let w0 = wishes@[i];
            let w1 = r1@[i];
            let w2 = r2@[i];
            let w3 = r3@[i];
            let w4 = r4@[i];
            if w0.id == wish_id {
                assert(query.spec_holds(w0));
                assert(w1.id == wish_id);
                assert(query.spec_holds(w1));
                assert(query.spec_holds(w2));
                assert(query.spec_holds(w3));
            } else {
                assert(!query.spec_holds(w0));
            }
        }
    }
    r4
}

/// The text `pending`, which the `friendships` page compares the status of
/// a request with.
pub open spec fn pending_text() -> Seq<char> {
    seq!['p', 'e', 'n', 'd', 'i', 'n', 'g']
}

/// The status of `f` reads `pending`.
pub open spec fn is_pending(f: Friendship) -> bool {
    decimal(f.friend_status as int) == pending_text()
}

/// The friendships of `friendships` that involve `user`, in table order.
pub open spec fn friendships_of(friendships: Seq<Friendship>, user: i32) -> Seq<Friendship> {
    friendships.filter(|f: Friendship| involves(f, user))
}

/// The requests to `user` whose status reads `pending`, in table order.
pub open spec fn pending_requests(friendships: Seq<Friendship>, user: i32) -> Seq<Friendship> {
    friendships.filter(|f: Friendship| f.user2 == user && is_pending(f))
}

/// The friendships of `friendships` that `user` asked for, in table order.
pub open spec fn sent_requests(friendships: Seq<Friendship>, user: i32) -> Seq<Friendship> {
    friendships.filter(|f: Friendship| f.user1 == user)
}

/// The `friendships` page of the signed-in user: the friendships that
/// involve them, and the requests to them whose status reads `pending`, both
/// selected by the decimal text of their id.
pub fn get_friendships(cx: &Context, friendships: &Vec<Friendship>) -> (p: Page)
    ensures
        shows_friendships(
            p,
            Some(friendships_of(friendships@, cx.auth_user_spec().user_id)),
            Some(pending_requests(friendships@, cx.auth_user_spec().user_id)),
        ),
{
    let auth_user = cx.auth_user();
    let id = auth_user.user_id;
    let involving = or(
        eq(FriendshipColumn::User1, Value::Text(to_decimal(id))),
        eq(FriendshipColumn::User2, Value::Text(to_decimal(id))),
    );
    let all = select_list(friendships, &involving);
    let pending = String::from_str("pending");
    proof {
        reveal_strlit("pending");
        assert(pending@ =~= pending_text());
    }
    let requests_query = and(
        eq(FriendshipColumn::User2, Value::Text(to_decimal(id))),
        eq(FriendshipColumn::FriendStatus, Value::Text(pending)),
    );
    let requests = select_list(friendships, &requests_query);
    proof {
        reveal_with_fuel(expr_holds, 3);
        assert forall|f: Friendship| #[trigger] involving.spec_holds(f) == involves(f, id) by {
            lemma_decimal_injective(f.user1, id);
            lemma_decimal_injective(f.user2, id);
        }
        assert((|r: Friendship| involving.spec_holds(r)) =~= (|f: Friendship| involves(f, id)));
        assert forall|f: Friendship| #[trigger] requests_query.spec_holds(f) == (f.user2 == id
            && is_pending(f)) by {
            lemma_decimal_injective(f.user2, id);
        }
        assert((|r: Friendship| requests_query.spec_holds(r)) =~= (|f: Friendship|
            f.user2 == id && is_pending(f)));
    }
    Page::Friendships { friendships: Some(all), requests: Some(requests) }
}

/// The row that a friendship request inserts, when the requested user
/// exists: from the signed-in user to the form's `user2`, with the form's
/// status. `None` when no user has the id `user2`.
pub fn create_friendship_request(
    a_friendship: &FriendshipDto,
    cx: &Context,
    users: &Vec<User>,
) -> (row: Option<FriendshipDto>)
    ensures
        row is None <==> !(exists|i: int|
            0 <= i < users@.len() && (#[trigger] users@[i]).user_id == a_friendship.user2),
        row matches Some(r) ==> r == (FriendshipDto {
            user1: cx.auth_user_spec().user_id,
            user2: a_friendship.user2,
            friend_status: a_friendship.friend_status,
        }),
{
    let auth_user = cx.auth_user();
    let query = eq(UserColumn::UserId, Value::Text(to_decimal(a_friendship.user2)));
    let exists = exists_row(users, &query);
    proof {
        assert forall|u: User| #[trigger] query.spec_holds(u) == (u.user_id
            == a_friendship.user2) by {
            lemma_decimal_injective(u.user_id, a_friendship.user2);
        }
        if exists {
            let i = choose|i: int| 0 <= i < users@.len() && query.spec_holds(#[trigger] users@[i]);
            assert(users@[i].user_id == a_friendship.user2);
        } else {
            assert forall|i: int| 0 <= i < users@.len() implies (#[trigger] users@[i]).user_id
                != a_friendship.user2 by {
                assert(!query.spec_holds(users@[i]));
            }
        }
    }
    if !exists {
        None
    } else {
        Some(
            FriendshipDto {
                user1: auth_user.user_id,
                user2: a_friendship.user2,
                friend_status: a_friendship.friend_status,
            },
        )
    }
}

/// The page a friendship request answers with: the empty `friendships` page
/// when nothing was stored; otherwise, once the row is stored, the
/// friendships the signed-in user asked for, selected by the decimal text of
/// their id.
pub fn friendship_request_page(cx: &Context, stored: bool, friendships: &Vec<Friendship>) -> (p: Page)
    ensures
        !stored ==> shows_friendships(p, None, None),
        stored ==> shows_friendships(
            p,
            Some(sent_requests(friendships@, cx.auth_user_spec().user_id)),
            None,
        ),
{
    if !stored {
        return Page::Friendships { friendships: None, requests: None };
    }
    let auth_user = cx.auth_user();
    let id = auth_user.user_id;
    let query = eq(FriendshipColumn::User1, Value::Text(to_decimal(id)));
    let sent = select_list(friendships, &query);
    proof {
        assert forall|f: Friendship| #[trigger] query.spec_holds(f) == (f.user1 == id) by {
            lemma_decimal_injective(f.user1, id);
        }
        assert((|r: Friendship| query.spec_holds(r)) =~= (|f: Friendship| f.user1 == id));
    }
    Page::Friendships { friendships: Some(sent), requests: None }
}

/// `after` is the `friendship` table `before` once the status of the
/// friendships from `form.user1` to `form.user2` is set to the form's; the
/// other rows stay as they were.
pub open spec fn status_changed(before: Seq<Friendship>, after: Seq<Friendship>, form: FriendshipDto) -> bool {
    &&& after.len() == before.len()
    &&& forall|i: int|
        0 <= i < before.len() ==> if (#[trigger] before[i]).user1 == form.user1 && before[i].user2
            == form.user2 {
            after[i] == Friendship { friend_status: form.friend_status, ..before[i] }
        } else {
            after[i] == before[i]
        }
}

/// The `friendship` table after a status change: the friendships from the
/// form's `user1` to its `user2` take the form's status, whoever is signed
/// in.
pub fn change_friendship_status(
    a_friendship: &FriendshipDto,
    cx: &Context,
    friendships: &Vec<Friendship>,
) -> (res: Vec<Friendship>)
    ensures
        status_changed(friendships@, res@, *a_friendship),
{
    let query = and(
        eq(FriendshipColumn::User1, Value::Text(to_decimal(a_friendship.user1))),
        eq(FriendshipColumn::User2, Value::Text(to_decimal(a_friendship.user2))),
    );
    let set_status = Assign {
        column: FriendshipColumn::FriendStatus,
        value: Value::Text(to_decimal(a_friendship.friend_status)),
    };
    let res = update_where(friendships, &query, &set_status);
    proof {
        reveal_with_fuel(expr_holds, 3);
        lemma_parse_decimal(a_friendship.friend_status);
        assert forall|i: int| 0 <= i < friendships@.len() implies if (
        #[trigger] friendships@[i]).user1 == a_friendship.user1 && friendships@[i].user2
            == a_friendship.user2 {
            res@[i] == Friendship { friend_status: a_friendship.friend_status, ..friendships@[i] }
        } else {
            res@[i] == friendships@[i]
        } by {
            lemma_decimal_injective(friendships@[i].user1, a_friendship.user1);
            lemma_decimal_injective(friendships@[i].user2, a_friendship.user2);
        }
    }
    res
}

} // verus!
