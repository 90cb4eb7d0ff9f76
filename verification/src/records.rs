use vstd::prelude::*;

verus! {

/// A registered account, as stored in the `users` table.
pub struct User {
    pub id: i64,
    pub username: String,
    pub name: String,
    pub password_hash: String,
    pub created_at: String,
}

/// A statutory holiday day. `htype` is `"rest"` for a day off and
/// `"overtime"` for a make-up working day.
pub struct Holiday {
    pub id: i64,
    pub date: String,
    pub htype: String,
    pub note: String,
    pub created_at: String,
}

/// What the user list shows of an account: never its password hash.
pub struct PublicUser {
    pub id: i64,
    pub username: String,
    pub name: String,
}

/// The public part of an account.
pub open spec fn public_view(u: User) -> (i64, Seq<char>, Seq<char>) {
    (u.id, u.username@, u.name@)
}

/// The public profile shows an account's id, username and name exactly as
/// stored, and nothing else.
pub proof fn lemma_public_view_is_unchanged_fields(u: User)
    ensures
        public_view(u).0 == u.id,
        public_view(u).1 == u.username@,
        public_view(u).2 == u.name@,
{
}

impl PublicUser {
    pub open spec fn view_tuple(self) -> (i64, Seq<char>, Seq<char>) {
        (self.id, self.username@, self.name@)
    }
}

/// The profile of `user` that may be shown to other members.
pub fn public_profile(user: &User) -> (p: PublicUser)
    ensures
        p.view_tuple() == public_view(*user),
        p.id == user.id,
        p.username@ == user.username@,
        p.name@ == user.name@,
{
    PublicUser { id: user.id, username: user.username.clone(), name: user.name.clone() }
}

/// The profiles of all `users`, in the same order.
pub fn public_profiles(users: &Vec<User>) -> (ps: Vec<PublicUser>)
    ensures
        ps@.len() == users@.len(),
        forall|i: int| 0 <= i < users@.len() ==> #[trigger] ps@[i].view_tuple() == public_view(users@[i]),
        forall|i: int|
            0 <= i < users@.len() ==> {
                &&& #[trigger] ps@[i].id == users@[i].id
                &&& ps@[i].username@ == users@[i].username@
                &&& ps@[i].name@ == users@[i].name@
            },
{
    let mut ps: Vec<PublicUser> = Vec::new();
    let mut i: usize = 0;
    while i < users.len()
        invariant
            i <= users@.len(),
            ps@.len() == i,
            forall|k: int| 0 <= k < i ==> #[trigger] ps@[k].view_tuple() == public_view(users@[k]),
            forall|k: int|
                0 <= k < i ==> {
                    &&& #[trigger] ps@[k].id == users@[k].id
                    &&& ps@[k].username@ == users@[k].username@
                    &&& ps@[k].name@ == users@[k].name@
                },
        decreases users@.len() - i,
    {
        ps.push(public_profile(&users[i]));
        i = i + 1;
    }
    ps
}

/// A count of the report (members, tasks): the count the database gave, or
/// zero when its query failed.
pub fn count_or_zero(counted: Result<i64, String>) -> (n: i64)
    ensures
        n == match counted {
            Ok(c) => c,
            Err(_) => 0,
        },
{
    match counted {
        Ok(c) => c,
        Err(_) => 0,
    }
}

} // verus!
