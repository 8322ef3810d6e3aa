//! Who works at which retreat: the retreat names shown beside each user in
//! the user list, the staff list of a retreat, and the checks made when an
//! admin adds staff.
use vstd::prelude::*;
use crate::auth::{rejects_with, Rejection};
use crate::listing_review::{NewRetreatUser, NewUser};
use crate::models::{RetreatModel, RetreatUserModel, User};
use crate::serializers::retreats::{CreateRetreatUserSerializer, ReadRetreatUserSerializer};
use crate::serializers::users::ReadUserSerializer;
use crate::text::{str_eq, string_push_str};
use std::collections::HashMap;

verus! {

/// The name of retreat `id` among `retreats`; where several rows carry the
/// id, the last one counts (as when the rows are collected into a map).
pub open spec fn retreat_name_lookup(retreats: Seq<RetreatModel>, id: i64) -> Option<Seq<char>>
    decreases retreats.len(),
{
    if retreats.len() == 0 {
        None
    } else if retreats.last().retreat_id == id {
        Some(retreats.last().name@)
    } else {
        retreat_name_lookup(retreats.drop_last(), id)
    }
}

/// The names of the retreats `user_id` works at, in the order of the
/// membership rows; memberships of retreats missing from `retreats` are
/// skipped.
pub open spec fn retreat_names_of(
    user_id: i64,
    rows: Seq<RetreatUserModel>,
    retreats: Seq<RetreatModel>,
) -> Seq<Seq<char>>
    decreases rows.len(),
{
    if rows.len() == 0 {
        seq![]
    } else {
        let prev = retreat_names_of(user_id, rows.drop_last(), retreats);
        let row = rows.last();
        if row.user_id == user_id && retreat_name_lookup(retreats, row.retreat_id) is Some {
            prev.push(retreat_name_lookup(retreats, row.retreat_id)->0)
        } else {
            prev
        }
    }
}

/// The views of a list of strings.
pub open spec fn views(v: Seq<String>) -> Seq<Seq<char>> {
    v.map_values(|s: String| s@)
}

/// Whether a map from retreat id to name answers as `retreat_name_lookup`
/// does over `retreats`.
pub open spec fn is_name_map(m: Map<i64, String>, retreats: Seq<RetreatModel>) -> bool {
    forall|id: i64|
        #![trigger m.contains_key(id)]
        #![trigger retreat_name_lookup(retreats, id)]
        (m.contains_key(id) <==> retreat_name_lookup(retreats, id) is Some) && (m.contains_key(id)
            ==> retreat_name_lookup(retreats, id) == Some(m[id]@))
}

/// The names a map from user id to retreat names holds for `uid`; none
/// where the user has no entry.
pub open spec fn names_in(m: Map<i64, Vec<String>>, uid: i64) -> Seq<Seq<char>> {
    if m.contains_key(uid) {
        views(m[uid]@)
    } else {
        seq![]
    }
}

/// The retreat names by retreat id; where several rows carry an id, the
/// later one overwrites the earlier.
fn retreat_name_map(retreats: &Vec<RetreatModel>) -> (m: HashMap<i64, String>)
    ensures
        is_name_map(m@, retreats@),
{
    let mut m: HashMap<i64, String> = HashMap::new();
    let mut k: usize = 0;
    while k < retreats.len()
        invariant
            k <= retreats.len(),
            is_name_map(m@, retreats@.take(k as int)),
        decreases retreats.len() - k,
    {
        assert(retreats@.take(k + 1).drop_last() =~= retreats@.take(k as int));
        assert(retreats@.take(k + 1).last() == retreats@[k as int]);
        m.insert(retreats[k].retreat_id, retreats[k].name.clone());
        k = k + 1;
    }
    assert(retreats@.take(retreats.len() as int) =~= retreats@);
    m
}

/// The retreat names of every user, by user id, in the order of the
/// membership rows.
fn names_by_user(rows: &Vec<RetreatUserModel>, retreats: &Vec<RetreatModel>) -> (m: HashMap<
    i64,
    Vec<String>,
>)
    ensures
        forall|uid: i64| #[trigger]
            names_in(m@, uid) == retreat_names_of(uid, rows@, retreats@),
{
    let names = retreat_name_map(retreats);
    let mut m: HashMap<i64, Vec<String>> = HashMap::new();
    let mut i: usize = 0;
    while i < rows.len()
        invariant
            i <= rows.len(),
            is_name_map(names@, retreats@),
            forall|uid: i64| #[trigger]
                names_in(m@, uid) == retreat_names_of(uid, rows@.take(i as int), retreats@),
        decreases rows.len() - i,
    {
        assert(rows@.take(i + 1).drop_last() =~= rows@.take(i as int));
        assert(rows@.take(i + 1).last() == rows@[i as int]);
        let uid = rows[i].user_id;
        let rid = rows[i].retreat_id;
        let ghost before = m@;
        match names.get(&rid) {
            Some(name) => {
                let mut v: Vec<String> = match m.remove(&uid) {
                    Some(v) => v,
                    None => Vec::new(),
                };
                assert(views(v@) == names_in(before, uid));
                let ghost vb = v@;
                v.push(name.clone());
                assert(views(v@) =~= views(vb).push(name@));
                m.insert(uid, v);
                assert forall|u: i64| #[trigger]
                    names_in(m@, u) == retreat_names_of(u, rows@.take(i + 1), retreats@) by {
                    if u != uid {
                        assert(names_in(m@, u) == names_in(before, u));
                    }
                }
            },
            None => {},
        }
        i = i + 1;
    }
    assert(rows@.take(rows.len() as int) =~= rows@);
    m
}

/// A copy of a list of names.
fn copy_names(v: &Vec<String>) -> (r: Vec<String>)
    ensures
        views(r@) == views(v@),
{
    let mut r: Vec<String> = Vec::new();
    let mut i: usize = 0;
    while i < v.len()
        invariant
            i <= v.len(),
            views(r@) == views(v@.take(i as int)),
        decreases v.len() - i,
    {
        let ghost rb = r@;
        r.push(v[i].clone());
        assert(views(r@) =~= views(rb).push(v@[i as int]@));
        assert(views(v@.take(i + 1)) =~= views(v@.take(i as int)).push(v@[i as int]@));
        i = i + 1;
    }
    assert(v@.take(v.len() as int) =~= v@);
    r
}

/// The names a user has in a map from user id to retreat names.
fn names_of_user(m: &HashMap<i64, Vec<String>>, uid: i64) -> (r: Vec<String>)
    ensures
        views(r@) == names_in(m@, uid),
{
    match m.get(&uid) {
        Some(v) => copy_names(v),
        None => Vec::new(),
    }
}

/// The names of the retreats a user works at.
pub fn retreat_names_for_user(
    user_id: i64,
    rows: &Vec<RetreatUserModel>,
    retreats: &Vec<RetreatModel>,
) -> (r: Vec<String>)
    ensures
        views(r@) == retreat_names_of(user_id, rows@, retreats@),
{
    let m = names_by_user(rows, retreats);
    names_of_user(&m, user_id)
}

/// Fills in, for each user of a page of the user list, the names of the
/// retreats they work at.
pub fn attach_retreat_names(
    users: Vec<ReadUserSerializer>,
    rows: &Vec<RetreatUserModel>,
    retreats: &Vec<RetreatModel>,
) -> (r: Vec<ReadUserSerializer>)
    ensures
        r.len() == users.len(),
        forall|i: int|
            0 <= i < r.len() ==> {
                &&& #[trigger] r[i].user_id == users[i].user_id
                &&& r[i].name == users[i].name
                &&& r[i].email == users[i].email
                &&& r[i].phone == users[i].phone
                &&& views(r[i].retreats@) == retreat_names_of(users[i].user_id, rows@, retreats@)
            },
{
    let by_user = names_by_user(rows, retreats);
    let mut out: Vec<ReadUserSerializer> = Vec::new();
    let mut rest = users;
    let ghost original = rest@;
    let mut i: usize = 0;
    let n = rest.len();
    assert(rest@ =~= original.subrange(0, n as int));
    while i < n
        invariant
            n == original.len(),
            i <= n,
            rest@ == original.subrange(i as int, n as int),
            forall|uid: i64| #[trigger]
                names_in(by_user@, uid) == retreat_names_of(uid, rows@, retreats@),
            out.len() == i,
            forall|j: int|
                0 <= j < i ==> {
                    &&& #[trigger] out[j].user_id == original[j].user_id
                    &&& out[j].name == original[j].name
                    &&& out[j].email == original[j].email
                    &&& out[j].phone == original[j].phone
                    &&& views(out[j].retreats@) == retreat_names_of(
                        original[j].user_id,
                        rows@,
                        retreats@,
                    )
                },
        decreases n - i,
    {
        let u = rest.remove(0);
        assert(u == original[i as int]);
        assert(rest@ =~= original.subrange(i + 1, n as int));
        let names = names_of_user(&by_user, u.user_id);
        out.push(
            ReadUserSerializer {
                user_id: u.user_id,
                name: u.name,
                email: u.email,
                phone: u.phone,
                retreats: names,
            },
        );
        i = i + 1;
    }
    out
}

/// The user with id `id` among `users` (the last such row).
pub open spec fn user_lookup(users: Seq<User>, id: i64) -> Option<User>
    decreases users.len(),
{
    if users.len() == 0 {
        None
    } else if users.last().user_id == id {
        Some(users.last())
    } else {
        user_lookup(users.drop_last(), id)
    }
}

/// Whether a map from user id to a position in `users` answers as
/// `user_lookup` does.
pub open spec fn is_user_index(m: Map<i64, usize>, users: Seq<User>) -> bool {
    forall|id: i64|
        #![trigger m.contains_key(id)]
        #![trigger user_lookup(users, id)]
        (m.contains_key(id) <==> user_lookup(users, id) is Some) && (m.contains_key(id) ==> (
        m[id] < users.len() && user_lookup(users, id) == Some(users[m[id] as int])))
}

/// The position of each user id among `users`; where several rows carry an
/// id, the later one overwrites the earlier.
fn user_index(users: &Vec<User>) -> (m: HashMap<i64, usize>)
    ensures
        is_user_index(m@, users@),
{
    let mut m: HashMap<i64, usize> = HashMap::new();
    let mut k: usize = 0;
    while k < users.len()
        invariant
            k <= users.len(),
            is_user_index(m@, users@.take(k as int)),
        decreases users.len() - k,
    {
        assert(users@.take(k + 1).drop_last() =~= users@.take(k as int));
        assert(users@.take(k + 1).last() == users@[k as int]);
        m.insert(users[k].user_id, k);
        assert forall|id: i64| m@.contains_key(id) implies m@[id] < k + 1 && user_lookup(
            users@.take(k + 1),
            id,
        ) == Some(users@.take(k + 1)[m@[id] as int]) by {
            if id != users@[k as int].user_id {
                assert(users@.take(k + 1)[m@[id] as int] == users@.take(k as int)[m@[id] as int]);
            }
        }
        k = k + 1;
    }
    assert(users@.take(users.len() as int) =~= users@);
    m
}

/// The staff list of a retreat: each membership with its user's name and
/// e-mail. The service fails when a member's user row is missing, so every
/// membership's user is among `users`.
pub fn staff_list(memberships: Vec<RetreatUserModel>, users: &Vec<User>) -> (r: Vec<
    ReadRetreatUserSerializer,
>)
    requires
        forall|i: int|
            0 <= i < memberships.len() ==> user_lookup(users@, #[trigger] memberships[i].user_id)
                is Some,
    ensures
        r.len() == memberships.len(),
        forall|i: int|
            0 <= i < r.len() ==> {
                let m = memberships[i];
                let u = user_lookup(users@, m.user_id)->0;
                &&& #[trigger] r[i].retreat_user_id == m.retreat_user_id
                &&& r[i].retreat_id == m.retreat_id
                &&& r[i].user_id == m.user_id
                &&& r[i].name == u.name
                &&& r[i].email == u.email
                &&& r[i].role == m.role
            },
{
    let ghost original = memberships@;
    let n = memberships.len();
    let mut rest = memberships;
    assert(rest@ =~= original.subrange(0, n as int));
    let index = user_index(users);
    let mut out: Vec<ReadRetreatUserSerializer> = Vec::new();
    let mut i: usize = 0;
    while i < n
        invariant
            n == original.len(),
            is_user_index(index@, users@),
            i <= n,
            rest@ == original.subrange(i as int, n as int),
            forall|j: int|
                0 <= j < original.len() ==> user_lookup(users@, #[trigger] original[j].user_id)
                    is Some,
            out.len() == i,
            forall|j: int|
                0 <= j < i ==> {
                    let m = original[j];
                    let u = user_lookup(users@, m.user_id)->0;
                    &&& #[trigger] out[j].retreat_user_id == m.retreat_user_id
                    &&& out[j].retreat_id == m.retreat_id
                    &&& out[j].user_id == m.user_id
                    &&& out[j].name == u.name
                    &&& out[j].email == u.email
                    &&& out[j].role == m.role
                },
        decreases n - i,
    {
        let m = rest.remove(0);
        assert(m == original[i as int]);
        assert(rest@ =~= original.subrange(i + 1, n as int));
        let k = match index.get(&m.user_id) {
            Some(k) => *k,
            None => {
                proof {
                    assert(user_lookup(users@, original[i as int].user_id) is Some);
                }
                0
            },
        };
        out.push(
            ReadRetreatUserSerializer {
                retreat_user_id: m.retreat_user_id,
                retreat_id: m.retreat_id,
                user_id: m.user_id,
                name: users[k].name.clone(),
                email: users[k].email.clone(),
                role: m.role,
            },
        );
        i = i + 1;
    }
    out
}

/// The answer when an admin adds staff under an e-mail whose account has
/// another name: nothing is added, and the stored name is shown.
pub open spec fn name_conflict_message(stored_name: Seq<char>) -> Seq<char> {
    "User exists with a different name <strong>"@ + stored_name + "</strong>."@
}

/// Checks the name given for new staff against an existing account with the
/// same e-mail.
pub fn check_staff_name(existing: &User, payload: &CreateRetreatUserSerializer) -> (r: Result<
    (),
    Rejection,
>)
    ensures
        r is Ok <==> existing.name@ == payload.name@,
        r matches Err(e) ==> rejects_with(e, 202, name_conflict_message(existing.name@)),
{
    if str_eq(existing.name.as_str(), payload.name.as_str()) {
        Ok(())
    } else {
        let mut message = String::new();
        string_push_str(&mut message, "User exists with a different name <strong>");
        string_push_str(&mut message, existing.name.as_str());
        string_push_str(&mut message, "</strong>.");
        assert(message@ =~= name_conflict_message(existing.name@));
        Err(Rejection { status: 202, message })
    }
}

/// The password a new staff account is created with, before hashing.
pub fn staff_initial_password() -> (r: &'static str)
    ensures
        r@ == "tempPassword"@,
{
    "tempPassword"
}

/// The account created for new staff: the payload's name and e-mail, the
/// given password hash, no phone.
pub fn staff_account(payload: &CreateRetreatUserSerializer, hashed_password: String) -> (r: NewUser)
    ensures
        r.name == payload.name,
        r.email == payload.email,
        r.password == hashed_password,
        r.phone is None,
{
    NewUser {
        name: payload.name.clone(),
        email: payload.email.clone(),
        password: hashed_password,
        phone: None,
    }
}

/// The membership that adds a user to a retreat's staff in the payload's
/// role.
pub fn staff_membership(retreat_id: i64, user_id: i64, payload: &CreateRetreatUserSerializer) -> (r:
    NewRetreatUser)
    ensures
        r.retreat_id == retreat_id,
        r.user_id == user_id,
        r.role == Some(payload.role),
        r.created_by is None,
{
    NewRetreatUser { retreat_id, user_id, role: Some(payload.role.clone()), created_by: None }
}

} // verus!
