//! What holds of the endpoints across requests, stated over the spec
//! functions that the handlers' contracts use.
use vstd::prelude::*;

use crate::handlers::{
    add_user_spec, after_add, get_user_spec, invalid_password_text, not_found_text,
    text_response, verification_spec, BodyView, ResponseView, ADDED_TEXT, STATUS_NOT_FOUND,
    STATUS_OK, STATUS_SERVER_ERROR,
};
use crate::model::{UserLoginView, UserView};
use crate::store::{duplicate_text, keyed_by_username};

verus! {

/// The store after registering `us`, in order, into a store holding `db`.
pub open spec fn register_all(db: Map<Seq<char>, UserView>, us: Seq<UserView>) -> Map<
    Seq<char>,
    UserView,
>
    decreases us.len(),
{
    if us.len() == 0 {
        db
    } else {
        after_add(register_all(db, us.drop_last()), us.last())
    }
}

/// No two of `us` share a username, and none is taken in `db`.
pub open spec fn fresh_and_distinct(db: Map<Seq<char>, UserView>, us: Seq<UserView>) -> bool {
    &&& forall|i: int| 0 <= i < us.len() ==> !db.contains_key(#[trigger] us[i].username)
    &&& forall|i: int, j: int|
        0 <= i < us.len() && 0 <= j < us.len() && i != j ==> #[trigger] us[i].username
            != #[trigger] us[j].username
}

proof fn lemma_register_all_contents(db: Map<Seq<char>, UserView>, us: Seq<UserView>)
    requires
        fresh_and_distinct(db, us),
    ensures
        forall|j: int|
            0 <= j < us.len() ==> {
                &&& #[trigger] register_all(db, us).contains_key(us[j].username)
                &&& register_all(db, us)[us[j].username] == us[j]
            },
        forall|k: Seq<char>| #[trigger]
            register_all(db, us).contains_key(k) ==> db.contains_key(k) || exists|j: int|
                0 <= j < us.len() && #[trigger] us[j].username == k,
    decreases us.len(),
{
    if us.len() > 0 {
        let init = us.drop_last();
        assert forall|i: int, j: int|
            0 <= i < init.len() && 0 <= j < init.len() && i != j implies #[trigger] init[i].username
            != #[trigger] init[j].username by {
            assert(init[i] == us[i] && init[j] == us[j]);
        }
        assert forall|i: int| 0 <= i < init.len() implies !db.contains_key(
            #[trigger] init[i].username,
        ) by {
            assert(init[i] == us[i]);
        }
        lemma_register_all_contents(db, init);
        let prev = register_all(db, init);
        let last = us.last();
        if prev.contains_key(last.username) {
            if !db.contains_key(last.username) {
                let j = choose|j: int| 0 <= j < init.len() && #[trigger] init[j].username == last.username;
                assert(us[j].username == us[us.len() - 1].username);
            }
        }
        assert forall|k: Seq<char>| #[trigger]
            register_all(db, us).contains_key(k) implies db.contains_key(k) || exists|j: int|
                0 <= j < us.len() && #[trigger] us[j].username == k by {
            if k == last.username {
                assert(us[us.len() - 1].username == k);
            } else if !db.contains_key(k) {
                let j = choose|j: int| 0 <= j < init.len() && #[trigger] init[j].username == k;
                assert(us[j].username == k);
            }
        }
        assert forall|j: int| 0 <= j < us.len() implies {
            &&& #[trigger] register_all(db, us).contains_key(us[j].username)
            &&& register_all(db, us)[us[j].username] == us[j]
        } by {
            if j < us.len() - 1 {
                assert(init[j] == us[j]);
            }
        }
    }
}

/// Registering users whose usernames are all distinct and not yet taken:
/// every registration succeeds, and afterwards looking up any of them
/// answers with that user's record, field for field.
pub proof fn lemma_distinct_registrations_are_found(
    db: Map<Seq<char>, UserView>,
    us: Seq<UserView>,
)
    requires
        fresh_and_distinct(db, us),
    ensures
        forall|i: int|
            0 <= i < us.len() ==> #[trigger] add_user_spec(register_all(db, us.take(i)), us[i])
                == text_response(STATUS_OK, ADDED_TEXT@),
        forall|i: int|
            0 <= i < us.len() ==> #[trigger] get_user_spec(register_all(db, us), us[i].username)
                == (ResponseView { status: STATUS_OK, body: BodyView::Json(us[i]) }),
{
    lemma_register_all_contents(db, us);
    assert forall|i: int| 0 <= i < us.len() implies #[trigger] add_user_spec(
        register_all(db, us.take(i)),
        us[i],
    ) == text_response(STATUS_OK, ADDED_TEXT@) by {
        let pre = us.take(i);
        assert forall|a: int, b: int|
            0 <= a < pre.len() && 0 <= b < pre.len() && a != b implies #[trigger] pre[a].username
            != #[trigger] pre[b].username by {
            assert(pre[a] == us[a] && pre[b] == us[b]);
        }
        assert forall|a: int| 0 <= a < pre.len() implies !db.contains_key(
            #[trigger] pre[a].username,
        ) by {
            assert(pre[a] == us[a]);
        }
        lemma_register_all_contents(db, pre);
        if register_all(db, pre).contains_key(us[i].username) {
            let j = choose|j: int| 0 <= j < pre.len() && #[trigger] pre[j].username == us[i].username;
            assert(pre[j] == us[j]);
        }
    }
}

/// Two registrations under one username, into a store where it is not yet
/// taken: the first succeeds, the second fails with a server error and
/// leaves the store unchanged.
pub proof fn lemma_same_username_registers_once(
    db: Map<Seq<char>, UserView>,
    a: UserView,
    b: UserView,
)
    requires
        a.username == b.username,
        !db.contains_key(a.username),
    ensures
        add_user_spec(db, a) == text_response(STATUS_OK, ADDED_TEXT@),
        add_user_spec(after_add(db, a), b) == text_response(
            STATUS_SERVER_ERROR,
            duplicate_text(b.username),
        ),
        after_add(after_add(db, a), b) == after_add(db, a),
{
}

/// Looking up a username that was never registered answers 404 with the
/// "No user found" message.
pub proof fn lemma_unknown_user_not_found(db: Map<Seq<char>, UserView>, name: Seq<char>)
    requires
        !db.contains_key(name),
    ensures
        get_user_spec(db, name) == text_response(STATUS_NOT_FOUND, not_found_text(name)),
{
}

/// Logging in with the stored password answers 200 with the whole stored
/// record.
pub proof fn lemma_correct_password_accepted(db: Map<Seq<char>, UserView>, login: UserLoginView)
    requires
        keyed_by_username(db),
        db.contains_key(login.username),
        db[login.username].password == login.password,
    ensures
        verification_spec(db, login) == (ResponseView {
            status: STATUS_OK,
            body: BodyView::Json(db[login.username]),
        }),
{
}

/// Logging in as a stored user with another password answers 404 with the
/// "Invalid password" message for that username.
pub proof fn lemma_wrong_password_rejected(db: Map<Seq<char>, UserView>, login: UserLoginView)
    requires
        keyed_by_username(db),
        db.contains_key(login.username),
        db[login.username].password != login.password,
    ensures
        verification_spec(db, login) == text_response(
            STATUS_NOT_FOUND,
            invalid_password_text(login.username),
        ),
{
}

/// Logging in under a username that is not stored answers 404 with the
/// "No user found" message.
pub proof fn lemma_unknown_login_not_found(db: Map<Seq<char>, UserView>, login: UserLoginView)
    requires
        !db.contains_key(login.username),
    ensures
        verification_spec(db, login) == text_response(
            STATUS_NOT_FOUND,
            not_found_text(login.username),
        ),
{
}

} // verus!
