//! The local user directory: one record per verified email, each with a
//! random opaque user id that no other record shares.
use vstd::prelude::*;
use vstd::string::*;

use rand::Rng;

use crate::error::AuthError;
use crate::text::{push_char, str_eq};

verus! {

/// The length of a generated user id.
pub const USER_ID_LENGTH: usize = 32;

/// The characters a generated user id is drawn from.
pub const USER_ID_CHARSET: &'static str = "ABCDEFGHIJKLMNOPQRSTUVWXYZ0123456789";

/// How many random user ids are drawn before giving up on finding a free one.
pub const MAX_ID_ATTEMPTS: usize = 16;

/// The permission flag that marks an administrator.
pub const ADMIN_PERMISSION: i32 = 1;

/// A local user.
#[derive(Debug, Clone)]
pub struct User {
    pub id: i32,
    pub user_id: String,
    pub email: String,
    pub displayname: String,
    pub permissions: Vec<i32>,
}

/// A user record before the store has numbered it.
#[derive(Debug, Clone)]
pub struct UserNoId {
    pub user_id: String,
    pub email: String,
    pub displayname: String,
}

/// What a user record holds.
pub ghost struct UserView {
    pub id: i32,
    pub user_id: Seq<char>,
    pub email: Seq<char>,
    pub displayname: Seq<char>,
    pub permissions: Seq<i32>,
}

impl View for User {
    type V = UserView;

    open spec fn view(&self) -> UserView {
        UserView {
            id: self.id,
            user_id: self.user_id@,
            email: self.email@,
            displayname: self.displayname@,
            permissions: self.permissions@,
        }
    }
}

/// A copy of a user record.
pub fn copy_user(u: &User) -> (r: User)
    ensures
        r@ == u@,
{
    let mut permissions: Vec<i32> = Vec::new();
    let mut i: usize = 0;
    while i < u.permissions.len()
        invariant
            i <= u.permissions@.len(),
            permissions@ == u.permissions@.subrange(0, i as int),
        decreases u.permissions@.len() - i,
    {
        permissions.push(u.permissions[i]);
        i = i + 1;
    }
    assert(permissions@ =~= u.permissions@);
    User {
        id: u.id,
        user_id: u.user_id.clone(),
        email: u.email.clone(),
        displayname: u.displayname.clone(),
        permissions,
    }
}

/// Whether no two records share a numeric id, a user id or an email.
pub open spec fn records_distinct(users: Seq<UserView>) -> bool {
    forall|i: int, j: int|
        #![trigger users[i], users[j]]
        0 <= i < users.len() && 0 <= j < users.len() && i != j ==> {
            &&& users[i].id != users[j].id
            &&& users[i].user_id != users[j].user_id
            &&& users[i].email != users[j].email
        }
}

/// Whether a text can stand as a generated user id.
pub open spec fn valid_user_id(s: Seq<char>) -> bool {
    s.len() == USER_ID_LENGTH && forall|k: int| 0 <= k < s.len() ==> USER_ID_CHARSET@.contains(
        #[trigger] s[k],
    )
}

/// Whether some record has the email.
pub open spec fn has_email(users: Seq<UserView>, email: Seq<char>) -> bool {
    exists|i: int| 0 <= i < users.len() && #[trigger] users[i].email == email
}

/// Whether some record has the user id.
pub open spec fn has_user_id(users: Seq<UserView>, user_id: Seq<char>) -> bool {
    exists|i: int| 0 <= i < users.len() && #[trigger] users[i].user_id == user_id
}

/// Whether some record has the numeric id.
pub open spec fn has_id(users: Seq<UserView>, id: i32) -> bool {
    exists|i: int| 0 <= i < users.len() && #[trigger] users[i].id == id
}

/// The record a new user gets: the email doubles as display name, and no
/// permission is granted.
pub open spec fn new_record(id: i32, user_id: Seq<char>, email: Seq<char>) -> UserView {
    UserView { id, user_id, email, displayname: email, permissions: seq![] }
}

/// The largest numeric id of the records, or 0 when there is none.
pub open spec fn max_id(users: Seq<UserView>) -> int
    decreases users.len(),
{
    if users.len() == 0 {
        0
    } else {
        let rest = max_id(users.drop_last());
        if users.last().id > rest {
            users.last().id as int
        } else {
            rest
        }
    }
}

/// Every record's numeric id is at most the largest one.
pub proof fn lemma_max_id_bounds(users: Seq<UserView>)
    ensures
        max_id(users) >= 0,
        forall|i: int| 0 <= i < users.len() ==> #[trigger] users[i].id <= max_id(users),
    decreases users.len(),
{
    if users.len() > 0 {
        lemma_max_id_bounds(users.drop_last());
        assert forall|i: int| 0 <= i < users.len() implies #[trigger] users[i].id <= max_id(
            users,
        ) by {
            if i < users.len() - 1 {
                assert(users[i] == users.drop_last()[i]);
            }
        }
    }
}

/// Whether the numeric ids are used up: the next one would not fit an `i32`.
pub open spec fn ids_exhausted(users: Seq<UserView>) -> bool {
    max_id(users) >= i32::MAX
}

/// What adding a user with a given user id and email does: it succeeds when
/// the email and the user id are free and a numeric id is left, and the new
/// record is numbered one past the largest id.
pub open spec fn insert_result(
    old: Seq<UserView>,
    new: Seq<UserView>,
    email: Seq<char>,
    user_id: Seq<char>,
    r: Result<UserView, AuthError>,
) -> bool {
    match r {
        Ok(u) => {
            &&& !has_email(old, email)
            &&& !has_user_id(old, user_id)
            &&& !ids_exhausted(old)
            &&& u == new_record((max_id(old) + 1) as i32, user_id, email)
            &&& new == old.push(u)
        },
        Err(e) => {
            &&& e == AuthError::UserCreationFailed
            &&& new == old
            &&& (has_email(old, email) || has_user_id(old, user_id) || ids_exhausted(old))
        },
    }
}

/// What signing in with an email does to the directory: the record with
/// that email is reused when there is one; otherwise a record is added with
/// some user id, or, when none could be added, the directory stays as it was.
pub open spec fn sign_in_result(
    old: Seq<UserView>,
    new: Seq<UserView>,
    email: Seq<char>,
    r: Result<UserView, AuthError>,
) -> bool {
    if has_email(old, email) {
        &&& new == old
        &&& r matches Ok(u) && old.contains(u) && u.email == email
    } else {
        match r {
            Ok(u) => insert_result(old, new, email, u.user_id, r) && valid_user_id(u.user_id),
            Err(e) => e == AuthError::UserCreationFailed && new == old,
        }
    }
}

/// A lookup or creation result, as plain values.
pub open spec fn user_result_view(r: Result<User, AuthError>) -> Result<UserView, AuthError> {
    match r {
        Ok(u) => Ok(u@),
        Err(e) => Err(e),
    }
}

/// The views of a list of records.
pub open spec fn record_views(v: Seq<User>) -> Seq<UserView> {
    v.map_values(|u: User| u@)
}

/// Adding a record whose email, user id and numeric id are all new keeps
/// the records distinct.
pub proof fn lemma_insert_keeps_distinct(users: Seq<UserView>, u: UserView)
    requires
        records_distinct(users),
        !has_email(users, u.email),
        !has_user_id(users, u.user_id),
        u.id > max_id(users),
    ensures
        records_distinct(users.push(u)),
{
    lemma_max_id_bounds(users);
    let after = users.push(u);
    assert forall|a: int, b: int|
        #![trigger after[a], after[b]]
        0 <= a < after.len() && 0 <= b < after.len() && a != b implies {
        &&& after[a].id != after[b].id
        &&& after[a].user_id != after[b].user_id
        &&& after[a].email != after[b].email
    } by {
        let last = users.len() as int;
        if a == last {
            assert(users[b] == after[b]);
        } else if b == last {
            assert(users[a] == after[a]);
        } else {
            assert(users[a] == after[a] && users[b] == after[b]);
        }
    }
}

/// In a consistent directory, two records with the same email are the same record.
pub proof fn lemma_email_identifies(users: Seq<UserView>, a: UserView, b: UserView)
    requires
        records_distinct(users),
        users.contains(a),
        users.contains(b),
        a.email == b.email,
    ensures
        a == b,
{
    let i = choose|i: int| 0 <= i < users.len() && users[i] == a;
    let j = choose|j: int| 0 <= j < users.len() && users[j] == b;
    if i != j {
        assert(users[i].email != users[j].email);
    }
}

/// Signing in twice with the same email creates at most one record: the
/// second sign-in returns the user the first one returned, and leaves the
/// directory as the first one left it.
pub proof fn lemma_sign_in_idempotent(
    d0: Seq<UserView>,
    d1: Seq<UserView>,
    d2: Seq<UserView>,
    email: Seq<char>,
    r1: Result<UserView, AuthError>,
    r2: Result<UserView, AuthError>,
)
    requires
        records_distinct(d0),
        sign_in_result(d0, d1, email, r1),
        sign_in_result(d1, d2, email, r2),
        r1 is Ok,
    ensures
        d2 == d1,
        r2 == r1,
        d1.len() <= d0.len() + 1,
{
    let u1 = r1->Ok_0;
    if !has_email(d0, email) {
        lemma_max_id_bounds(d0);
        lemma_insert_keeps_distinct(d0, u1);
        assert(d1[d0.len() as int] == u1);
    }
    assert(records_distinct(d1));
    assert(d1.contains(u1));
    assert(has_email(d1, email)) by {
        let i = choose|i: int| 0 <= i < d1.len() && d1[i] == u1;
        assert(d1[i].email == email);
    }
    lemma_email_identifies(d1, u1, r2->Ok_0);
}

/// The directories that successive insertions go through, from `states[0]`,
/// are consistent, and hold the first records followed by the created ones.
proof fn lemma_insertions_append(
    states: Seq<Seq<UserView>>,
    emails: Seq<Seq<char>>,
    created: Seq<UserView>,
    k: int,
)
    requires
        states.len() == created.len() + 1,
        emails.len() == created.len(),
        records_distinct(states[0]),
        forall|m: int|
            0 <= m < created.len() ==> #[trigger] insert_result(
                states[m],
                states[m + 1],
                emails[m],
                created[m].user_id,
                Ok(created[m]),
            ),
        0 <= k <= created.len(),
    ensures
        records_distinct(states[k]),
        states[k] == states[0] + created.subrange(0, k),
    decreases k,
{
    if k == 0 {
        assert(states[0] + created.subrange(0, 0) =~= states[0]);
    } else {
        lemma_insertions_append(states, emails, created, k - 1);
        let m = k - 1;
        assert(insert_result(states[m], states[m + 1], emails[m], created[m].user_id, Ok(created[m])));
        lemma_insert_keeps_distinct(states[m], created[m]);
        assert(states[0] + created.subrange(0, k) =~= (states[0] + created.subrange(0, m)).push(
            created[m],
        ));
    }
}

/// User ids handed out by successive insertions are pairwise distinct, and
/// none of them was held by a user of the starting directory.
pub proof fn lemma_inserted_user_ids_distinct(
    states: Seq<Seq<UserView>>,
    emails: Seq<Seq<char>>,
    created: Seq<UserView>,
)
    requires
        states.len() == created.len() + 1,
        emails.len() == created.len(),
        records_distinct(states[0]),
        forall|m: int|
            0 <= m < created.len() ==> #[trigger] insert_result(
                states[m],
                states[m + 1],
                emails[m],
                created[m].user_id,
                Ok(created[m]),
            ),
    ensures
        forall|a: int, b: int|
            0 <= a < created.len() && 0 <= b < created.len() && a != b
                ==> #[trigger] created[a].user_id != #[trigger] created[b].user_id,
        forall|a: int| 0 <= a < created.len() ==> !has_user_id(states[0], #[trigger] created[a].user_id),
{
    let n = created.len() as int;
    lemma_insertions_append(states, emails, created, n);
    let last = states[n];
    let base = states[0].len() as int;
    assert(created.subrange(0, n) =~= created);
    assert forall|a: int, b: int|
        0 <= a < created.len() && 0 <= b < created.len() && a != b implies #[trigger] created[a].user_id
        != #[trigger] created[b].user_id by {
        assert(last[base + a] == created[a]);
        assert(last[base + b] == created[b]);
    }
    assert forall|a: int| 0 <= a < created.len() implies !has_user_id(
        states[0],
        #[trigger] created[a].user_id,
    ) by {
        assert(last[base + a] == created[a]);
        if has_user_id(states[0], created[a].user_id) {
            let i = choose|i: int| 0 <= i < states[0].len() && #[trigger] states[0][i].user_id == created[a].user_id;
            assert(last[i] == states[0][i]);
        }
    }
}

/// The users of the service.
pub struct UserDirectory {
    users: Vec<User>,
}

impl View for UserDirectory {
    type V = Seq<UserView>;

    closed spec fn view(&self) -> Seq<UserView> {
        self.users@.map_values(|u: User| u@)
    }
}

impl UserDirectory {
    /// Whether the directory is consistent: no two records share a numeric
    /// id, a user id or an email.
    pub open spec fn wf(&self) -> bool {
        records_distinct(self@)
    }

    /// An empty directory.
    pub fn new() -> (r: UserDirectory)
        ensures
            r.wf(),
            r@ == Seq::<UserView>::empty(),
    {
        let r = UserDirectory { users: Vec::new() };
        assert(r@ =~= Seq::<UserView>::empty());
        r
    }

    /// In a consistent directory, a record is the only one with its user id.
    pub proof fn lemma_user_id_identifies(&self, u: UserView)
        requires
            self.wf(),
            self@.contains(u),
        ensures
            forall|i: int| 0 <= i < self@.len() && #[trigger] self@[i].user_id == u.user_id ==> self@[i] == u,
    {
        let j = choose|j: int| 0 <= j < self@.len() && self@[j] == u;
        assert forall|i: int| 0 <= i < self@.len() && #[trigger] self@[i].user_id == u.user_id implies self@[i] == u by {
            if i != j {
                assert(self@[i].user_id != self@[j].user_id);
            }
        }
    }

    /// The number of users.
    pub fn len(&self) -> (r: usize)
        ensures
            r == self@.len(),
    {
        self.users.len()
    }

    /// The user at a position.
    pub fn get(&self, i: usize) -> (r: &User)
        requires
            i < self@.len(),
        ensures
            r@ == self@[i as int],
    {
        &self.users[i]
    }

    /// The records, in the order they were added.
    pub fn records(&self) -> (r: &Vec<User>)
        ensures
            r@.map_values(|u: User| u@) == self@,
    {
        &self.users
    }

    /// A directory over existing records, if they are consistent.
    pub fn from_records(users: Vec<User>) -> (r: Option<UserDirectory>)
        ensures
            r is Some <==> records_distinct(record_views(users@)),
            r matches Some(d) ==> d.wf() && d@ == record_views(users@),
    {
        let n = users.len();
        let ghost v = record_views(users@);
        let mut i: usize = 0;
        while i < n
            invariant
                n == users@.len(),
                v == record_views(users@),
                i <= n,
                forall|a: int, b: int|
                    #![trigger v[a], v[b]]
                    0 <= a < i && 0 <= b < n && a != b ==> {
                        &&& v[a].id != v[b].id
                        &&& v[a].user_id != v[b].user_id
                        &&& v[a].email != v[b].email
                    },
            decreases n - i,
        {
            let mut j: usize = 0;
            while j < n
                invariant
                    n == users@.len(),
                    v == record_views(users@),
                    i < n,
                    j <= n,
                    forall|a: int, b: int|
                        #![trigger v[a], v[b]]
                        0 <= a < i && 0 <= b < n && a != b ==> {
                            &&& v[a].id != v[b].id
                            &&& v[a].user_id != v[b].user_id
                            &&& v[a].email != v[b].email
                        },
                    forall|b: int|
                        0 <= b < j && i != b ==> {
                            &&& v[i as int].id != (#[trigger] v[b]).id
                            &&& v[i as int].user_id != v[b].user_id
                            &&& v[i as int].email != v[b].email
                        },
                decreases n - j,
            {
                if i != j {
                    let a = &users[i];
                    let b = &users[j];
                    proof {
                        assert(v[i as int] == users@[i as int]@);
                        assert(v[j as int] == users@[j as int]@);
                    }
                    let same_id = a.id == b.id;
                    let same_user_id = str_eq(a.user_id.as_str(), b.user_id.as_str());
                    let same_email = str_eq(a.email.as_str(), b.email.as_str());
                    if same_id || same_user_id || same_email {
                        assert(v[i as int].id == v[j as int].id || v[i as int].user_id == v[
                            j as int
                        ].user_id || v[i as int].email == v[j as int].email);
                        assert(!records_distinct(v)) by {
                            assert(v.len() == n);
                            assert(0 <= i < v.len() && 0 <= j < v.len() && i != j);
                        }
                        return None;
                    }
                    assert(v[i as int].id != v[j as int].id);
                    assert(v[i as int].user_id != v[j as int].user_id);
                    assert(v[i as int].email != v[j as int].email);
                }
                j = j + 1;
            }
            i = i + 1;
        }
        let d = UserDirectory { users };
        assert(d@ == v);
        Some(d)
    }

    /// The position of the record with an email, if any.
    fn index_of_email(&self, email: &str) -> (r: Option<usize>)
        ensures
            match r {
                Some(i) => i < self@.len() && self@[i as int].email == email@,
                None => !has_email(self@, email@),
            },
    {
        let mut i: usize = 0;
        while i < self.users.len()
            invariant
                i <= self@.len(),
                self@.len() == self.users@.len(),
                forall|k: int| 0 <= k < i ==> #[trigger] self@[k].email != email@,
            decreases self@.len() - i,
        {
            if str_eq(self.users[i].email.as_str(), email) {
                return Some(i);
            }
            i = i + 1;
        }
        None
    }

    /// The position of the record with a user id, if any.
    fn index_of_user_id(&self, user_id: &str) -> (r: Option<usize>)
        ensures
            match r {
                Some(i) => i < self@.len() && self@[i as int].user_id == user_id@,
                None => !has_user_id(self@, user_id@),
            },
    {
        let mut i: usize = 0;
        while i < self.users.len()
            invariant
                i <= self@.len(),
                self@.len() == self.users@.len(),
                forall|k: int| 0 <= k < i ==> #[trigger] self@[k].user_id != user_id@,
            decreases self@.len() - i,
        {
            if str_eq(self.users[i].user_id.as_str(), user_id) {
                return Some(i);
            }
            i = i + 1;
        }
        None
    }

    /// The largest numeric id, or 0 for an empty directory.
    fn largest_id(&self) -> (r: i32)
        ensures
            r == max_id(self@),
    {
        let mut m: i32 = 0;
        let mut i: usize = 0;
        while i < self.users.len()
            invariant
                i <= self@.len(),
                self@.len() == self.users@.len(),
                m == max_id(self@.subrange(0, i as int)),
            decreases self@.len() - i,
        {
            assert(self@.subrange(0, i + 1).drop_last() =~= self@.subrange(0, i as int));
            if self.users[i].id > m {
                m = self.users[i].id;
            }
            i = i + 1;
        }
        assert(self@.subrange(0, i as int) =~= self@);
        m
    }
}

/// The user with an email, if any.
pub fn get_user_by_email<'a>(dir: &'a UserDirectory, email: &str) -> (r: Option<&'a User>)
    ensures
        match r {
            Some(u) => dir@.contains(u@) && u@.email == email@,
            None => !has_email(dir@, email@),
        },
{
    match dir.index_of_email(email) {
        Some(i) => Some(dir.get(i)),
        None => None,
    }
}

/// The user with a user id, if any.
pub fn get_user_by_user_id<'a>(dir: &'a UserDirectory, user_id: &str) -> (r: Option<&'a User>)
    ensures
        match r {
            Some(u) => dir@.contains(u@) && u@.user_id == user_id@,
            None => !has_user_id(dir@, user_id@),
        },
{
    match dir.index_of_user_id(user_id) {
        Some(i) => Some(dir.get(i)),
        None => None,
    }
}

/// The user with a numeric id, if any.
pub fn get_user_by_id(dir: &UserDirectory, id: i32) -> (r: Option<&User>)
    ensures
        match r {
            Some(u) => dir@.contains(u@) && u@.id == id,
            None => !has_id(dir@, id),
        },
{
    let mut i: usize = 0;
    while i < dir.len()
        invariant
            i <= dir@.len(),
            forall|k: int| 0 <= k < i ==> #[trigger] dir@[k].id != id,
        decreases dir@.len() - i,
    {
        let u = dir.get(i);
        if u.id == id {
            return Some(u);
        }
        i = i + 1;
    }
    None
}

/// Every user, in the order they were added.
pub fn dump_user_table(dir: &UserDirectory) -> (r: &Vec<User>)
    ensures
        record_views(r@) == dir@,
{
    dir.records()
}

/// Relies on `rand::Rng::gen_range` over the thread-local generator: a
/// number below the bound, which must be positive.
#[verifier::external_body]
fn random_below(bound: usize) -> (r: usize)
    requires
        bound > 0,
    ensures
        r < bound,
{
    rand::thread_rng().gen_range(0..bound)
}

/// The text whose characters are the alphabet's characters at the drawn
/// positions, in order.
pub fn text_from_draws(alphabet: &str, draws: &Vec<usize>) -> (r: String)
    requires
        forall|k: int| 0 <= k < draws@.len() ==> #[trigger] draws@[k] < alphabet@.len(),
    ensures
        r@.len() == draws@.len(),
        forall|k: int| 0 <= k < draws@.len() ==> #[trigger] r@[k] == alphabet@[draws@[k] as int],
{
    let mut r = String::new();
    let mut i: usize = 0;
    while i < draws.len()
        invariant
            i <= draws@.len(),
            forall|k: int| 0 <= k < draws@.len() ==> #[trigger] draws@[k] < alphabet@.len(),
            r@.len() == i,
            forall|k: int| 0 <= k < i ==> #[trigger] r@[k] == alphabet@[draws@[k] as int],
        decreases draws@.len() - i,
    {
        push_char(&mut r, alphabet.get_char(draws[i]));
        i = i + 1;
    }
    r
}

/// Whether `r` is the alphabet's characters at some drawn positions.
pub open spec fn drawn_from(r: Seq<char>, alphabet: Seq<char>, length: nat) -> bool {
    exists|draws: Seq<usize>|
        #![trigger draws.len()]
        draws.len() == length && r.len() == length && (forall|k: int|
            0 <= k < length ==> #[trigger] draws[k] < alphabet.len() && r[k] == alphabet[draws[k] as int])
}

/// A random text of `length` characters, each drawn from `alphabet`.
pub fn random_text(alphabet: &str, length: usize) -> (r: String)
    requires
        alphabet@.len() > 0,
    ensures
        r@.len() == length,
        forall|k: int| 0 <= k < r@.len() ==> alphabet@.contains(#[trigger] r@[k]),
        drawn_from(r@, alphabet@, length as nat),
{
    let n = alphabet.unicode_len();
    let mut draws: Vec<usize> = Vec::new();
    let mut i: usize = 0;
    while i < length
        invariant
            n == alphabet@.len(),
            n > 0,
            i <= length,
            draws@.len() == i,
            forall|k: int| 0 <= k < draws@.len() ==> #[trigger] draws@[k] < alphabet@.len(),
        decreases length - i,
    {
        draws.push(random_below(n));
        i = i + 1;
    }
    let r = text_from_draws(alphabet, &draws);
    assert forall|k: int| 0 <= k < r@.len() implies alphabet@.contains(#[trigger] r@[k]) by {
        assert(r@[k] == alphabet@[draws@[k] as int]);
    }
    assert(drawn_from(r@, alphabet@, length as nat)) by {
        assert(draws@.len() == length);
    }
    r
}

/// A random text of `length` characters drawn from the user id alphabet.
pub fn make_random_string(length: usize) -> (r: String)
    ensures
        r@.len() == length,
        forall|k: int| 0 <= k < r@.len() ==> USER_ID_CHARSET@.contains(#[trigger] r@[k]),
        drawn_from(r@, USER_ID_CHARSET@, length as nat),
{
    proof {
        reveal_strlit("ABCDEFGHIJKLMNOPQRSTUVWXYZ0123456789");
    }
    random_text(USER_ID_CHARSET, length)
}

/// Whether no user holds a user id of the generated shape, so that no
/// freshly drawn user id can collide with one.
pub open spec fn no_generated_ids(users: Seq<UserView>) -> bool {
    forall|i: int| 0 <= i < users.len() ==> !valid_user_id(#[trigger] users[i].user_id)
}

/// A fresh user id: random, and held by no user. Gives up, with `None`,
/// after a bounded number of draws that all collided; when no user holds an
/// id of the generated shape, the first draw is taken.
pub fn generate_new_user_id(dir: &UserDirectory) -> (r: Option<String>)
    ensures
        r matches Some(id) ==> valid_user_id(id@) && !has_user_id(dir@, id@),
        no_generated_ids(dir@) ==> r is Some,
{
    let mut attempt: usize = 0;
    while attempt < MAX_ID_ATTEMPTS
        invariant
            no_generated_ids(dir@) ==> attempt == 0,
        decreases MAX_ID_ATTEMPTS - attempt,
    {
        let candidate = make_random_string(USER_ID_LENGTH);
        match dir.index_of_user_id(candidate.as_str()) {
            None => {
                return Some(candidate);
            },
            Some(i) => {
                assert(valid_user_id(dir@[i as int].user_id));
                assert(!no_generated_ids(dir@));
            },
        }
        attempt = attempt + 1;
    }
    None
}

/// Adds a user with the given user id and email; see [`insert_result`].
pub fn insert_user_with_id(dir: &mut UserDirectory, email: &str, user_id: String) -> (r: Result<
    User,
    AuthError,
>)
    requires
        old(dir).wf(),
    ensures
        final(dir).wf(),
        insert_result(
            old(dir)@,
            final(dir)@,
            email@,
            user_id@,
            match r {
                Ok(u) => Ok(u@),
                Err(e) => Err(e),
            },
        ),
{
    if dir.index_of_email(email).is_some() || dir.index_of_user_id(user_id.as_str()).is_some() {
        return Err(AuthError::UserCreationFailed);
    }
    let largest = dir.largest_id();
    if largest == i32::MAX {
        return Err(AuthError::UserCreationFailed);
    }
    proof {
        lemma_max_id_bounds(dir@);
    }
    let id = largest + 1;
    let stored = User {
        id,
        user_id: user_id.clone(),
        email: email.to_owned(),
        displayname: email.to_owned(),
        permissions: Vec::new(),
    };
    let returned = User {
        id,
        user_id,
        email: email.to_owned(),
        displayname: email.to_owned(),
        permissions: Vec::new(),
    };
    let ghost before = dir@;
    dir.users.push(stored);
    proof {
        assert(dir@ =~= before.push(returned@));
        assert(returned@ == new_record(id, user_id@, email@)) by {
            assert(returned@.permissions =~= Seq::<i32>::empty());
        }
        lemma_insert_keeps_distinct(before, returned@);
    }
    Ok(returned)
}

/// Adds a user for an email that has none yet, with a fresh random user id.
/// Fails with [`AuthError::UserCreationFailed`], leaving the directory as it
/// was, when the email already has a user, when no free user id was found,
/// or when the numeric ids are used up. A new email always gets its user
/// while a numeric id is left and no user holds an id of the generated shape.
pub fn insert_user(dir: &mut UserDirectory, email: &str) -> (r: Result<User, AuthError>)
    requires
        old(dir).wf(),
    ensures
        final(dir).wf(),
        has_email(old(dir)@, email@) ==> r is Err,
        !has_email(old(dir)@, email@) && !ids_exhausted(old(dir)@) && no_generated_ids(old(dir)@)
            ==> r is Ok,
        match r {
            Ok(u) => insert_result(old(dir)@, final(dir)@, email@, u@.user_id, Ok(u@))
                && valid_user_id(u@.user_id),
            Err(e) => e == AuthError::UserCreationFailed && final(dir)@ == old(dir)@,
        },
{
    match generate_new_user_id(dir) {
        Some(user_id) => {
            let r = insert_user_with_id(dir, email, user_id);
            r
        },
        None => Err(AuthError::UserCreationFailed),
    }
}

/// The user for a verified email: the existing record when there is one,
/// otherwise a new one; see [`sign_in_result`].
pub fn find_or_insert_user(dir: &mut UserDirectory, email: &str) -> (r: Result<User, AuthError>)
    requires
        old(dir).wf(),
    ensures
        final(dir).wf(),
        !ids_exhausted(old(dir)@) && no_generated_ids(old(dir)@) ==> r is Ok,
        sign_in_result(
            old(dir)@,
            final(dir)@,
            email@,
            match r {
                Ok(u) => Ok(u@),
                Err(e) => Err(e),
            },
        ),
{
    match dir.index_of_email(email) {
        Some(i) => {
            let u = copy_user(dir.get(i));
            assert(dir@.contains(u@)) by {
                assert(dir@[i as int] == u@);
            }
            Ok(u)
        },
        None => insert_user(dir, email),
    }
}

/// Whether the user holds the administrator permission.
pub fn user_is_admin(user: &User) -> (r: bool)
    ensures
        r == user@.permissions.contains(ADMIN_PERMISSION),
{
    let mut i: usize = 0;
    while i < user.permissions.len()
        invariant
            i <= user.permissions@.len(),
            forall|k: int| 0 <= k < i ==> user.permissions@[k] != ADMIN_PERMISSION,
        decreases user.permissions@.len() - i,
    {
        if user.permissions[i] == ADMIN_PERMISSION {
            return true;
        }
        i = i + 1;
    }
    false
}

} // verus!
