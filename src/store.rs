use vstd::prelude::*;

use crate::error::AppError;
use crate::models::{
    copy_opt, FormCheckResponse, RegisterBodyModel, SSOBodyModel, UserModel, UserResponse,
};

verus! {

/// The optional field `f` holds a string whose text is `v`.
pub open spec fn field_is(f: Option<String>, v: Seq<char>) -> bool {
    f matches Some(s) && s@ == v
}

/// Both records are bound to the same provider and provider-issued id.
pub open spec fn same_sso(a: UserModel, b: UserModel) -> bool {
    a.sso_provider matches Some(p) && a.sso_id matches Some(s) && field_is(b.sso_provider, p@)
        && field_is(b.sso_id, s@)
}

/// The record is bound to the provider subject of the assertion `b`.
pub open spec fn sso_matches(u: UserModel, b: SSOBodyModel) -> bool {
    field_is(u.sso_provider, b.sso_provider@) && field_is(u.sso_id, b.id@)
}

pub open spec fn has_id(users: Seq<UserModel>, id: u128) -> bool {
    exists|k: int| 0 <= k < users.len() && (#[trigger] users[k]).id == Some(id)
}

pub open spec fn id_index(users: Seq<UserModel>, id: u128) -> int {
    choose|k: int| 0 <= k < users.len() && (#[trigger] users[k]).id == Some(id)
}

pub open spec fn sso_found(users: Seq<UserModel>, b: SSOBodyModel) -> bool {
    exists|k: int| 0 <= k < users.len() && #[trigger] sso_matches(users[k], b)
}

pub open spec fn sso_index(users: Seq<UserModel>, b: SSOBodyModel) -> int {
    choose|k: int| 0 <= k < users.len() && #[trigger] sso_matches(users[k], b)
}

/// Some identity other than `id` holds the email `email`.
pub open spec fn email_conflict(users: Seq<UserModel>, email: Seq<char>, id: u128) -> bool {
    exists|k: int|
        0 <= k < users.len() && #[trigger] field_is(users[k].email, email) && users[k].id != Some(
            id,
        )
}

/// Some identity other than `id` holds the phone `phone`.
pub open spec fn phone_conflict(users: Seq<UserModel>, phone: Seq<char>, id: u128) -> bool {
    exists|k: int|
        0 <= k < users.len() && #[trigger] field_is(users[k].phone, phone) && users[k].id != Some(
            id,
        )
}

/// The first colliding field, email before phone.
pub open spec fn conflict_field(
    users: Seq<UserModel>,
    email: Seq<char>,
    phone: Seq<char>,
    id: u128,
) -> Option<Seq<char>> {
    if email_conflict(users, email, id) {
        Some("email"@)
    } else if phone_conflict(users, phone, id) {
        Some("phone"@)
    } else {
        None
    }
}

/// Every record has an identifier, identifiers are unique, and no two
/// records are bound to the same provider subject.
pub open spec fn users_wf(users: Seq<UserModel>) -> bool {
    &&& forall|i: int| 0 <= i < users.len() ==> (#[trigger] users[i]).id is Some
    &&& forall|i: int, j: int|
        0 <= i < users.len() && 0 <= j < users.len() && i != j ==> (#[trigger] users[i]).id != (
        #[trigger] users[j]).id
    &&& forall|i: int, j: int|
        0 <= i < users.len() && 0 <= j < users.len() && i != j ==> !same_sso(
            #[trigger] users[i],
            #[trigger] users[j],
        )
}

/// The record that a local registration creates: pending until its
/// contact is confirmed.
pub open spec fn registered_record(b: RegisterBodyModel, now: u64) -> UserModel {
    UserModel {
        id: Some(b.id),
        first_name: Some(b.first_name),
        last_name: Some(b.last_name),
        email: Some(b.email),
        phone: b.phone,
        password: b.password,
        sso_provider: None,
        sso_id: None,
        is_active: Some(false),
        is_staff: Some(false),
        is_superuser: Some(false),
        date_joined: Some(now),
        last_login: Some(now),
    }
}

/// The record that a first single sign-on creates.
pub open spec fn sso_record(b: SSOBodyModel, id: u128, now: u64) -> UserModel {
    UserModel {
        id: Some(id),
        first_name: Some(b.first_name),
        last_name: Some(b.last_name),
        email: Some(b.email),
        phone: None,
        password: None,
        sso_provider: Some(b.sso_provider),
        sso_id: Some(b.id),
        is_active: Some(true),
        is_staff: Some(false),
        is_superuser: Some(false),
        date_joined: Some(now),
        last_login: Some(now),
    }
}

/// A record after a later single sign-on refreshed its profile.
pub open spec fn sso_refreshed(u: UserModel, b: SSOBodyModel, now: u64) -> UserModel {
    UserModel {
        first_name: Some(b.first_name),
        last_name: Some(b.last_name),
        email: Some(b.email),
        last_login: Some(now),
        ..u
    }
}

/// A record after a profile update.
pub open spec fn with_profile(u: UserModel, b: RegisterBodyModel, now: u64) -> UserModel {
    UserModel {
        first_name: Some(b.first_name),
        last_name: Some(b.last_name),
        email: Some(b.email),
        phone: b.phone,
        last_login: Some(now),
        ..u
    }
}

/// A record after its registration was confirmed.
pub open spec fn activated(u: UserModel, now: u64) -> UserModel {
    UserModel { is_active: Some(true), last_login: Some(now), ..u }
}

/// What a lookup hands out of a record: the credential, the administrative
/// flags and the instants stay in the store.
pub open spec fn snapshot(u: UserModel) -> UserModel {
    UserModel {
        password: None,
        is_staff: None,
        is_superuser: None,
        date_joined: None,
        last_login: None,
        ..u
    }
}

/// The store after the record of `id`, if any, was marked active at `now`.
pub open spec fn activate_in(users: Seq<UserModel>, id: u128, now: u64) -> Seq<UserModel> {
    if has_id(users, id) {
        let k = id_index(users, id);
        users.update(k, activated(users[k], now))
    } else {
        users
    }
}

/// The store after a profile update of the record of `b.id`, if any.
pub open spec fn update_in(users: Seq<UserModel>, b: RegisterBodyModel, now: u64) -> Seq<
    UserModel,
> {
    if has_id(users, b.id) {
        let k = id_index(users, b.id);
        users.update(k, with_profile(users[k], b, now))
    } else {
        users
    }
}

/// Replacing a record by one with the same identifier and provider binding
/// keeps the store well formed.
proof fn lemma_wf_update(users: Seq<UserModel>, k: int, u: UserModel)
    requires
        users_wf(users),
        0 <= k < users.len(),
        u.id == users[k].id,
        u.sso_provider == users[k].sso_provider,
        u.sso_id == users[k].sso_id,
    ensures
        users_wf(users.update(k, u)),
{
    let s = users.update(k, u);
    assert forall|i: int, j: int| 0 <= i < s.len() && 0 <= j < s.len() && i != j implies s[i].id
        != s[j].id && !same_sso(s[i], s[j]) by {
        assert(users[i].id != users[j].id);
        assert(!same_sso(users[i], users[j]));
    }
    assert forall|i: int| 0 <= i < s.len() implies (#[trigger] s[i]).id is Some by {
        assert(users[i].id is Some);
    }
}

/// Adding a record with a fresh identifier and no provider binding, or one
/// bound to a provider subject that no record holds, keeps the store well
/// formed.
proof fn lemma_wf_push(users: Seq<UserModel>, u: UserModel)
    requires
        users_wf(users),
        u.id matches Some(id) && !has_id(users, id),
        forall|i: int| 0 <= i < users.len() ==> !same_sso(#[trigger] users[i], u) && !same_sso(u, users[i]),
    ensures
        users_wf(users.push(u)),
{
    let s = users.push(u);
    assert forall|i: int, j: int| 0 <= i < s.len() && 0 <= j < s.len() && i != j implies s[i].id
        != s[j].id && !same_sso(s[i], s[j]) by {
        if i < users.len() && j < users.len() {
            assert(users[i].id != users[j].id);
            assert(!same_sso(users[i], users[j]));
        } else if i < users.len() {
            assert(users[i].id is Some);
            assert(!same_sso(users[i], u));
        } else {
            assert(users[j].id is Some);
            assert(!same_sso(u, users[j]));
        }
    }
    assert forall|i: int| 0 <= i < s.len() implies (#[trigger] s[i]).id is Some by {
        if i < users.len() {
            assert(users[i].id is Some);
        }
    }
}

/// Store and result after reconciling the assertion `b`, with `new_id` as
/// the identifier of a record that has to be created.
pub open spec fn sso_step(users: Seq<UserModel>, b: SSOBodyModel, new_id: u128, now: u64) -> (
    Seq<UserModel>,
    Result<UserResponse, AppError>,
) {
    if sso_found(users, b) {
        let k = sso_index(users, b);
        (
            users.update(k, sso_refreshed(users[k], b, now)),
            Ok(
                UserResponse {
                    user_id: users[k].id,
                    is_new: Some(false),
                    is_active: users[k].is_active,
                },
            ),
        )
    } else if has_id(users, new_id) {
        (users, Err(AppError::NotFound))
    } else {
        (
            users.push(sso_record(b, new_id, now)),
            Ok(UserResponse { user_id: Some(new_id), is_new: Some(true), is_active: Some(true) }),
        )
    }
}

/// Reconciling keeps the store well formed.
pub proof fn lemma_sso_step_wf(users: Seq<UserModel>, b: SSOBodyModel, new_id: u128, now: u64)
    requires
        users_wf(users),
    ensures
        users_wf(sso_step(users, b, new_id, now).0),
{
    if sso_found(users, b) {
        let k = sso_index(users, b);
        lemma_wf_update(users, k, sso_refreshed(users[k], b, now));
    } else if !has_id(users, new_id) {
        let u = sso_record(b, new_id, now);
        assert forall|k: int| 0 <= k < users.len() implies !same_sso(#[trigger] users[k], u)
            && !same_sso(u, users[k]) by {
            assert(!sso_matches(users[k], b));
        }
        lemma_wf_push(users, u);
    }
}

/// Reconciling the same provider subject twice: the first call reports a
/// new identity exactly when no record was bound to the subject; the second
/// call reports an existing identity with the same identifier, and creates
/// no record.
pub proof fn lemma_sso_reconcile_repeat(
    users: Seq<UserModel>,
    b: SSOBodyModel,
    first_id: u128,
    second_id: u128,
    first_now: u64,
    second_now: u64,
)
    requires
        users_wf(users),
        sso_step(users, b, first_id, first_now).1 is Ok,
    ensures
        ({
            let (after_first, r1) = sso_step(users, b, first_id, first_now);
            let (after_second, r2) = sso_step(after_first, b, second_id, second_now);
            &&& (r1->Ok_0.is_new == Some(true)) == !sso_found(users, b)
            &&& r2 is Ok
            &&& r2->Ok_0.is_new == Some(false)
            &&& r2->Ok_0.user_id == r1->Ok_0.user_id
            &&& after_second.len() == after_first.len()
            &&& users_wf(after_second)
        }),
{
    let (s1, r1) = sso_step(users, b, first_id, first_now);
    lemma_sso_step_wf(users, b, first_id, first_now);
    lemma_sso_step_wf(s1, b, second_id, second_now);
    let k1: int = if sso_found(users, b) {
        sso_index(users, b)
    } else {
        users.len() as int
    };
    assert(sso_matches(s1[k1], b));
    assert(sso_found(s1, b));
    let k2 = sso_index(s1, b);
    if k2 != k1 {
        assert(same_sso(s1[k1], s1[k2]));
    }
}

/// Confirming a registration makes its record active, leaves every other
/// record as it was, and a later confirmation keeps it active: the move from
/// pending to active is one-way.
pub proof fn lemma_activation_one_way(users: Seq<UserModel>, id: u128, now: u64, later: u64)
    requires
        users_wf(users),
        has_id(users, id),
    ensures
        ({
            let once = activate_in(users, id, now);
            let twice = activate_in(once, id, later);
            &&& once.len() == users.len()
            &&& once[id_index(users, id)].is_active == Some(true)
            &&& forall|k: int| 0 <= k < users.len() && k != id_index(users, id) ==> #[trigger] once[k] == users[k]
            &&& has_id(once, id)
            &&& twice[id_index(once, id)].is_active == Some(true)
        }),
{
    let k = id_index(users, id);
    let once = activate_in(users, id, now);
    assert(once[k].id == Some(id));
    assert(has_id(once, id));
}

/// A record that shares the email or phone is no conflict when it is the
/// identity being checked.
pub proof fn lemma_conflict_excludes_self(
    users: Seq<UserModel>,
    email: Seq<char>,
    phone: Seq<char>,
    id: u128,
)
    requires
        forall|k: int|
            0 <= k < users.len() && (field_is(users[k].email, email) || field_is(
                users[k].phone,
                phone,
            )) ==> (#[trigger] users[k]).id == Some(id),
    ensures
        conflict_field(users, email, phone, id) is None,
{
    assert(!email_conflict(users, email, id)) by {
        assert forall|k: int| 0 <= k < users.len() implies !(#[trigger] field_is(users[k].email, email)
            && users[k].id != Some(id)) by {
            if field_is(users[k].email, email) {
                assert(users[k].id == Some(id));
            }
        }
    }
    assert(!phone_conflict(users, phone, id)) by {
        assert forall|k: int| 0 <= k < users.len() implies !(#[trigger] field_is(users[k].phone, phone)
            && users[k].id != Some(id)) by {
            if field_is(users[k].phone, phone) {
                assert(users[k].id == Some(id));
            }
        }
    }
}

/// Whether the optional field holds the text of `v`.
fn field_eq(f: &Option<String>, v: &String) -> (r: bool)
    ensures
        r == field_is(*f, v@),
{
    match f {
        Some(s) => *s == *v,
        None => false,
    }
}

/// The identity table: the records that registration and single sign-on
/// create and that the flows read and update.
pub struct IdentityStore {
    users: Vec<UserModel>,
}

impl View for IdentityStore {
    type V = Seq<UserModel>;

    closed spec fn view(&self) -> Seq<UserModel> {
        self.users@
    }
}

impl IdentityStore {
    pub open spec fn wf(&self) -> bool {
        users_wf(self@)
    }

    /// An empty store.
    pub fn new() -> (r: IdentityStore)
        ensures
            r.wf(),
            r@ == Seq::<UserModel>::empty(),
    {
        IdentityStore { users: Vec::new() }
    }

    /// Position of the record of `id`.
    fn position_of_id(&self, id: u128) -> (r: Option<usize>)
        requires
            self.wf(),
        ensures
            r matches Some(k) ==> k < self@.len() && k == id_index(self@, id) && has_id(self@, id),
            r is None ==> !has_id(self@, id),
    {
        let mut i: usize = 0;
        while i < self.users.len()
            invariant
                self.wf(),
                self.users@ == self@,
                i <= self.users@.len(),
                forall|k: int| 0 <= k < i ==> #[trigger] self.users@[k].id != Some(id),
            decreases self.users@.len() - i,
        {
            if self.users[i].id == Some(id) {
                proof {
                    assert(self@[i as int].id == Some(id));
                    assert(has_id(self@, id));
                    let c = id_index(self@, id);
                    assert(self@[c].id == Some(id));
                    if c != i as int {
                        assert(self@[c].id != self@[i as int].id);
                    }
                }
                return Some(i);
            }
            i = i + 1;
        }
        None
    }

    /// The current record of `id`, as a lookup hands it out.
    pub fn get_user_info(&self, user_id: u128) -> (r: Result<UserModel, AppError>)
        requires
            self.wf(),
        ensures
            r == (if has_id(self@, user_id) {
                Ok(snapshot(self@[id_index(self@, user_id)]))
            } else {
                Err(AppError::NotFound)
            }),
    {
        match self.position_of_id(user_id) {
            Some(k) => {
                let u = &self.users[k];
                Ok(
                    UserModel {
                        id: u.id,
                        first_name: copy_opt(&u.first_name),
                        last_name: copy_opt(&u.last_name),
                        email: copy_opt(&u.email),
                        phone: copy_opt(&u.phone),
                        password: None,
                        sso_provider: copy_opt(&u.sso_provider),
                        sso_id: copy_opt(&u.sso_id),
                        is_active: u.is_active,
                        is_staff: None,
                        is_superuser: None,
                        date_joined: None,
                        last_login: None,
                    },
                )
            },
            None => Err(AppError::NotFound),
        }
    }

    /// The first field that collides with an identity other than `user_id`:
    /// `email` before `phone`, or none.
    pub fn check_register_field(&self, email: &str, phone: &str, user_id: u128) -> (r:
        FormCheckResponse)
        requires
            self.wf(),
        ensures
            crate::models::opt_view(r.existing_field) == conflict_field(
                self@,
                email@,
                phone@,
                user_id,
            ),
    {
        let e = String::from_str(email);
        let mut i: usize = 0;
        while i < self.users.len()
            invariant
                self.users@ == self@,
                e@ == email@,
                i <= self.users@.len(),
                forall|k: int|
                    0 <= k < i ==> !(#[trigger] field_is(self@[k].email, email@) && self@[k].id
                        != Some(user_id)),
            decreases self.users@.len() - i,
        {
            if field_eq(&self.users[i].email, &e) && self.users[i].id != Some(user_id) {
                assert(field_is(self@[i as int].email, email@));
                return FormCheckResponse { existing_field: Some(String::from_str("email")) };
            }
            i = i + 1;
        }
        let p = String::from_str(phone);
        let mut j: usize = 0;
        while j < self.users.len()
            invariant
                self.users@ == self@,
                p@ == phone@,
                !email_conflict(self@, email@, user_id),
                j <= self.users@.len(),
                forall|k: int|
                    0 <= k < j ==> !(#[trigger] field_is(self@[k].phone, phone@) && self@[k].id
                        != Some(user_id)),
            decreases self.users@.len() - j,
        {
            if field_eq(&self.users[j].phone, &p) && self.users[j].id != Some(user_id) {
                assert(field_is(self@[j as int].phone, phone@));
                return FormCheckResponse { existing_field: Some(String::from_str("phone")) };
            }
            j = j + 1;
        }
        FormCheckResponse { existing_field: None }
    }

    /// Adds the pending record of a local registration; the identifier must be
/// new.
    pub fn insert_user(&mut self, body: &RegisterBodyModel, now: u64) -> (r: Result<(), AppError>)
        requires
            old(self).wf(),
        ensures
            final(self).wf(),
            has_id(old(self)@, body.id) ==> r == Err::<(), AppError>(AppError::DatabaseError)
                && final(self)@ == old(self)@,
            !has_id(old(self)@, body.id) ==> r is Ok && final(self)@ == old(self)@.push(
                registered_record(*body, now),
            ),
    {
        if self.position_of_id(body.id).is_some() {
            return Err(AppError::DatabaseError);
        }
        let u = UserModel {
            id: Some(body.id),
            first_name: Some(body.first_name.clone()),
            last_name: Some(body.last_name.clone()),
            email: Some(body.email.clone()),
            phone: copy_opt(&body.phone),
            password: copy_opt(&body.password),
            sso_provider: None,
            sso_id: None,
            is_active: Some(false),
            is_staff: Some(false),
            is_superuser: Some(false),
            date_joined: Some(now),
            last_login: Some(now),
        };
        proof {
            lemma_wf_push(self@, u);
        }
        self.users.push(u);
        Ok(())
    }

    /// Replaces the profile fields of the record of `body.id`, if any, and
    /// refreshes its last login.
    pub fn update_user(&mut self, body: &RegisterBodyModel, now: u64) -> (r: Result<(), AppError>)
        requires
            old(self).wf(),
        ensures
            final(self).wf(),
            r is Ok,
            final(self)@ == update_in(old(self)@, *body, now),
    {
        if let Some(k) = self.position_of_id(body.id) {
            let u = UserModel {
                id: self.users[k].id,
                first_name: Some(body.first_name.clone()),
                last_name: Some(body.last_name.clone()),
                email: Some(body.email.clone()),
                phone: copy_opt(&body.phone),
                password: copy_opt(&self.users[k].password),
                sso_provider: copy_opt(&self.users[k].sso_provider),
                sso_id: copy_opt(&self.users[k].sso_id),
                is_active: self.users[k].is_active,
                is_staff: self.users[k].is_staff,
                is_superuser: self.users[k].is_superuser,
                date_joined: self.users[k].date_joined,
                last_login: Some(now),
            };
            proof {
                lemma_wf_update(self@, k as int, u);
            }
            self.users[k] = u;
        }
        Ok(())
    }

    /// Marks the record of `user_id`, if any, active and refreshes its last
    /// login.
    pub fn update_user_register_ok(&mut self, user_id: u128, now: u64) -> (r: Result<(), AppError>)
        requires
            old(self).wf(),
        ensures
            final(self).wf(),
            r is Ok,
            final(self)@ == activate_in(old(self)@, user_id, now),
    {
        if let Some(k) = self.position_of_id(user_id) {
            let u = UserModel {
                id: self.users[k].id,
                first_name: copy_opt(&self.users[k].first_name),
                last_name: copy_opt(&self.users[k].last_name),
                email: copy_opt(&self.users[k].email),
                phone: copy_opt(&self.users[k].phone),
                password: copy_opt(&self.users[k].password),
                sso_provider: copy_opt(&self.users[k].sso_provider),
                sso_id: copy_opt(&self.users[k].sso_id),
                is_active: Some(true),
                is_staff: self.users[k].is_staff,
                is_superuser: self.users[k].is_superuser,
                date_joined: self.users[k].date_joined,
                last_login: Some(now),
            };
            proof {
                lemma_wf_update(self@, k as int, u);
            }
            self.users[k] = u;
        }
        Ok(())
    }

    /// Reconciles a provider assertion into the store: refreshes the record
    /// bound to its provider subject, or creates one under `new_id`. Fails
    /// with `NotFound` when a record has to be created and `new_id` is taken.
    pub fn check_sso(&mut self, body: &SSOBodyModel, new_id: u128, now: u64) -> (r: Result<
        UserResponse,
        AppError,
    >)
        requires
            old(self).wf(),
        ensures
            final(self).wf(),
            (final(self)@, r) == sso_step(old(self)@, *body, new_id, now),
    {
        let mut i: usize = 0;
        while i < self.users.len()
            invariant
                self.wf(),
                self.users@ == self@,
                self@ == old(self)@,
                i <= self.users@.len(),
                forall|k: int| 0 <= k < i ==> !(#[trigger] sso_matches(self@[k], *body)),
            decreases self.users@.len() - i,
        {
            if field_eq(&self.users[i].sso_provider, &body.sso_provider) && field_eq(
                &self.users[i].sso_id,
                &body.id,
            ) {
                proof {
                    let k = i as int;
                    assert(sso_matches(self@[k], *body));
                    assert(sso_found(self@, *body));
                    let c = sso_index(self@, *body);
                    if c != k {
                        assert(same_sso(self@[c], self@[k]));
                    }
                }
                let response = UserResponse {
                    user_id: self.users[i].id,
                    is_new: Some(false),
                    is_active: self.users[i].is_active,
                };
                let u = UserModel {
                    id: self.users[i].id,
                    first_name: Some(body.first_name.clone()),
                    last_name: Some(body.last_name.clone()),
                    email: Some(body.email.clone()),
                    phone: copy_opt(&self.users[i].phone),
                    password: copy_opt(&self.users[i].password),
                    sso_provider: copy_opt(&self.users[i].sso_provider),
                    sso_id: copy_opt(&self.users[i].sso_id),
                    is_active: self.users[i].is_active,
                    is_staff: self.users[i].is_staff,
                    is_superuser: self.users[i].is_superuser,
                    date_joined: self.users[i].date_joined,
                    last_login: Some(now),
                };
                proof {
                    lemma_wf_update(self@, i as int, u);
                }
                self.users[i] = u;
                return Ok(response);
            }
            i = i + 1;
        }
        if self.position_of_id(new_id).is_some() {
            return Err(AppError::NotFound);
        }
        let u = UserModel {
            id: Some(new_id),
            first_name: Some(body.first_name.clone()),
            last_name: Some(body.last_name.clone()),
            email: Some(body.email.clone()),
            phone: None,
            password: None,
            sso_provider: Some(body.sso_provider.clone()),
            sso_id: Some(body.id.clone()),
            is_active: Some(true),
            is_staff: Some(false),
            is_superuser: Some(false),
            date_joined: Some(now),
            last_login: Some(now),
        };
        proof {
            assert forall|k: int| 0 <= k < self@.len() implies !same_sso(#[trigger] self@[k], u)
                && !same_sso(u, self@[k]) by {
                assert(!sso_matches(self@[k], *body));
            }
            lemma_wf_push(self@, u);
        }
        self.users.push(u);
        Ok(UserResponse { user_id: Some(new_id), is_new: Some(true), is_active: Some(true) })
    }
}

} // verus!
