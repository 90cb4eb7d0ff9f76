use vstd::prelude::*;
use crate::records::{User, PublicUser, public_view, public_profiles};
use crate::password::{
    password_matches, hash_password, check_password, account_hash_prefix, HashFailure,
};
use crate::text::{contains_text, text_contains};

verus! {

/// The HTTP status of an answer.
#[derive(Clone, Copy, PartialEq, Eq, Structural, Debug)]
pub enum Status {
    /// 200
    Success,
    /// 401
    Unauthorized,
    /// 409
    Conflict,
    /// 500
    InternalError,
}

/// The numeric HTTP status code.
pub open spec fn status_number(s: Status) -> u16 {
    match s {
        Status::Success => 200,
        Status::Unauthorized => 401,
        Status::Conflict => 409,
        Status::InternalError => 500,
    }
}

/// The numeric HTTP status code.
pub fn status_code(s: Status) -> (code: u16)
    ensures
        code == status_number(s),
{
    match s {
        Status::Success => 200,
        Status::Unauthorized => 401,
        Status::Conflict => 409,
        Status::InternalError => 500,
    }
}

/// The JSON body of an answer.
pub enum Body {
    /// `{"id": id}`: a record was created.
    Created { id: i64 },
    /// `{"ok": true}`: the request was carried out.
    Done,
    /// `{"id": id, "name": name}`: the signed-in member.
    Identity { id: i64, name: String },
    /// `{"error": message}`.
    Error { message: String },
}

/// An answer of the API.
pub struct Reply {
    pub status: Status,
    pub body: Body,
}

pub open spec fn is_error_reply(r: Reply, status: Status, message: Seq<char>) -> bool {
    &&& r.status == status
    &&& r.body matches Body::Error { message: m }
    &&& m@ == message
}

pub open spec fn is_created_reply(r: Reply, id: i64) -> bool {
    r.status == Status::Success && r.body == (Body::Created { id })
}

pub open spec fn is_done_reply(r: Reply) -> bool {
    r.status == Status::Success && r.body is Done
}

pub open spec fn is_identity_reply(r: Reply, id: i64, name: Seq<char>) -> bool {
    &&& r.status == Status::Success
    &&& r.body matches Body::Identity { id: i, name: n }
    &&& i == id
    &&& n@ == name
}

pub open spec fn not_logged_in_message() -> Seq<char> {
    "未登录"@
}

pub open spec fn username_taken_message() -> Seq<char> {
    "用户名已存在"@
}

pub open spec fn wrong_password_message() -> Seq<char> {
    "密码错误"@
}

pub open spec fn no_such_user_message() -> Seq<char> {
    "用户不存在"@
}

/// The text by which the database reports a broken uniqueness constraint.
pub open spec fn unique_violation_marker() -> Seq<char> {
    "UNIQUE"@
}

fn error_reply(status: Status, message: String) -> (r: Reply)
    ensures
        is_error_reply(r, status, message@),
{
    Reply { status, body: Body::Error { message } }
}

/// The answer to a request made without a signed-in member.
pub fn not_logged_in() -> (r: Reply)
    ensures
        is_error_reply(r, Status::Unauthorized, not_logged_in_message()),
{
    error_reply(Status::Unauthorized, String::from_str("未登录"))
}

/// The answer to a failed database operation: its message, with status 500.
pub fn database_failure(message: String) -> (r: Reply)
    ensures
        is_error_reply(r, Status::InternalError, message@),
{
    error_reply(Status::InternalError, message)
}

/// The signed-in member of a session, from what reading `"user_id"` from the
/// session gave: none when the key is missing or could not be read.
pub fn session_user(read: Result<Option<i64>, String>) -> (user: Option<i64>)
    ensures
        user == match read {
            Ok(u) => u,
            Err(_) => None,
        },
{
    match read {
        Ok(u) => u,
        Err(_) => None,
    }
}

/// The sign-in check in front of every request but registration, login,
/// logout and `me`: without a signed-in member the request is answered with
/// 401 and goes no further.
pub fn require_login(user: Option<i64>) -> (r: Result<i64, Reply>)
    ensures
        match user {
            Some(id) => r == Ok::<i64, Reply>(id),
            None => r matches Err(reply) && is_error_reply(
                reply,
                Status::Unauthorized,
                not_logged_in_message(),
            ),
        },
{
    match user {
        Some(id) => Ok(id),
        None => Err(not_logged_in()),
    }
}

/// The answer to `GET /me`: the signed-in member's id and name (empty when
/// the session holds no name), or 401.
pub fn me_reply(user: Option<i64>, name: Option<String>) -> (r: Reply)
    ensures
        match user {
            Some(id) => is_identity_reply(
                r,
                id,
                match name {
                    Some(n) => n@,
                    None => Seq::empty(),
                },
            ),
            None => is_error_reply(r, Status::Unauthorized, not_logged_in_message()),
        },
{
    match user {
        Some(id) => {
            let n = match name {
                Some(n) => n,
                None => String::new(),
            };
            Reply { status: Status::Success, body: Body::Identity { id, name: n } }
        },
        None => not_logged_in(),
    }
}

/// The answer to a request that was carried out: `{"ok": true}`.
pub fn acknowledged() -> (r: Reply)
    ensures
        is_done_reply(r),
{
    Reply { status: Status::Success, body: Body::Done }
}

/// The answer to creating a record (task, leave, overtime): its new id, or
/// the database's message with 500.
pub fn creation_reply(created: Result<i64, String>) -> (r: Reply)
    ensures
        match created {
            Ok(id) => is_created_reply(r, id),
            Err(m) => is_error_reply(r, Status::InternalError, m@),
        },
{
    match created {
        Ok(id) => Reply { status: Status::Success, body: Body::Created { id } },
        Err(m) => database_failure(m),
    }
}

/// The answer to changing or deleting a record: `{"ok": true}` whether or
/// not a row was touched, or the database's message with 500.
pub fn change_reply(changed: Result<usize, String>) -> (r: Reply)
    ensures
        match changed {
            Ok(_) => is_done_reply(r),
            Err(m) => is_error_reply(r, Status::InternalError, m@),
        },
{
    match changed {
        Ok(_) => acknowledged(),
        Err(m) => database_failure(m),
    }
}

/// The answer to a listing: the rows themselves, or the database's message
/// with 500.
pub fn listing_reply<T>(listed: Result<T, String>) -> (r: Result<T, Reply>)
    ensures
        match listed {
            Ok(rows) => r == Ok::<T, Reply>(rows),
            Err(m) => r matches Err(reply) && is_error_reply(reply, Status::InternalError, m@),
        },
{
    match listed {
        Ok(rows) => Ok(rows),
        Err(m) => Err(database_failure(m)),
    }
}

/// The answer to `GET /users`: every account's id, username and name, in
/// the order listed, never its password hash.
pub fn user_list_reply(listed: Result<Vec<User>, String>) -> (r: Result<Vec<PublicUser>, Reply>)
    ensures
        match listed {
            Ok(users) => r matches Ok(ps) && ps@.len() == users@.len() && (forall|i: int|
                0 <= i < users@.len() ==> #[trigger] ps@[i].view_tuple() == public_view(users@[i]))
                && (forall|i: int|
                0 <= i < users@.len() ==> {
                    &&& #[trigger] ps@[i].id == users@[i].id
                    &&& ps@[i].username@ == users@[i].username@
                    &&& ps@[i].name@ == users@[i].name@
                }),
            Err(m) => r matches Err(reply) && is_error_reply(reply, Status::InternalError, m@),
        },
{
    match listed {
        Ok(users) => Ok(public_profiles(&users)),
        Err(m) => Err(database_failure(m)),
    }
}

/// A registration refused before the account was stored: why hashing
/// failed, and the answer (500 with bcrypt's message).
pub struct RefusedRegistration {
    pub failure: HashFailure,
    pub reply: Reply,
}

/// The hash to store for a new account's password, a cost-4 bcrypt hash;
/// it fails only when the system gives no random bytes for the salt, and
/// then gives the answer to the registration (500 with bcrypt's message).
pub fn registration_hash(password: &str) -> (r: Result<String, RefusedRegistration>)
    ensures
        r matches Ok(h) ==> {
            &&& password_matches(password@, h@)
            &&& h@.len() == 60
            &&& h@.subrange(0, 7) == account_hash_prefix()
        },
        r matches Err(refused) ==> {
            &&& refused.failure == HashFailure::Rand
            &&& refused.reply.status == Status::InternalError
            &&& refused.reply.body is Error
        },
{
    match hash_password(password) {
        Ok(h) => Ok(h),
        Err(e) => Err(RefusedRegistration { failure: e.failure, reply: database_failure(e.message) }),
    }
}

/// The answer to a registration, from what inserting the account gave: its
/// id; 409 when the database refused a duplicate username (its message names
/// a UNIQUE constraint); otherwise the message with 500.
pub fn registration_reply(created: Result<i64, String>) -> (r: Reply)
    ensures
        match created {
            Ok(id) => is_created_reply(r, id),
            Err(m) => if contains_text(m@, unique_violation_marker()) {
                is_error_reply(r, Status::Conflict, username_taken_message())
            } else {
                is_error_reply(r, Status::InternalError, m@)
            },
        },
{
    match created {
        Ok(id) => Reply { status: Status::Success, body: Body::Created { id } },
        Err(m) => {
            if text_contains(m.as_str(), "UNIQUE") {
                error_reply(Status::Conflict, String::from_str("用户名已存在"))
            } else {
                database_failure(m)
            }
        },
    }
}

/// How a login attempt ends.
#[derive(Clone, Copy, PartialEq, Eq, Structural, Debug)]
pub enum LoginVerdict {
    /// The account could not be looked up.
    LookupFailed,
    /// No account has that username.
    NoSuchUser,
    /// The password does not match the account's hash.
    WrongPassword,
    /// The member is signed in.
    Accepted,
}

/// How a login ends, from the account lookup and the password given.
pub open spec fn login_verdict(lookup: Result<Option<User>, String>, password: Seq<char>) -> LoginVerdict {
    match lookup {
        Err(_) => LoginVerdict::LookupFailed,
        Ok(None) => LoginVerdict::NoSuchUser,
        Ok(Some(u)) => if password_matches(password, u.password_hash@) {
            LoginVerdict::Accepted
        } else {
            LoginVerdict::WrongPassword
        },
    }
}

/// What a successful login writes into the session: `"user_id"` and
/// `"user_name"`.
pub struct SessionIdentity {
    pub user_id: i64,
    pub user_name: String,
}

/// The result of a login attempt: how it ended, the answer, and what to
/// write into the session.
pub struct LoginOutcome {
    pub verdict: LoginVerdict,
    pub reply: Reply,
    pub session: Option<SessionIdentity>,
}

/// The answer to `POST /login`, from the lookup of the username and the
/// password given.
pub fn login(lookup: Result<Option<User>, String>, password: &str) -> (out: LoginOutcome)
    ensures
        out.verdict == login_verdict(lookup, password@),
        out.session is Some <==> out.verdict == LoginVerdict::Accepted,
        match lookup {
            Err(m) => is_error_reply(out.reply, Status::InternalError, m@),
            Ok(None) => is_error_reply(out.reply, Status::Unauthorized, no_such_user_message()),
            Ok(Some(u)) => if out.verdict == LoginVerdict::Accepted {
                &&& is_identity_reply(out.reply, u.id, u.name@)
                &&& out.session matches Some(s) && s.user_id == u.id && s.user_name@ == u.name@
            } else {
                is_error_reply(out.reply, Status::Unauthorized, wrong_password_message())
            },
        },
{
    match lookup {
        Err(m) => LoginOutcome {
            verdict: LoginVerdict::LookupFailed,
            reply: database_failure(m),
            session: None,
        },
        Ok(None) => LoginOutcome {
            verdict: LoginVerdict::NoSuchUser,
            reply: error_reply(Status::Unauthorized, String::from_str("用户不存在")),
            session: None,
        },
        Ok(Some(u)) => {
            if check_password(password, u.password_hash.as_str()) {
                let name = u.name.clone();
                LoginOutcome {
                    verdict: LoginVerdict::Accepted,
                    reply: Reply { status: Status::Success, body: Body::Identity { id: u.id, name: u.name } },
                    session: Some(SessionIdentity { user_id: u.id, user_name: name }),
                }
            } else {
                LoginOutcome {
                    verdict: LoginVerdict::WrongPassword,
                    reply: error_reply(Status::Unauthorized, String::from_str("密码错误")),
                    session: None,
                }
            }
        },
    }
}

/// An account registered with a password can sign in with that password:
/// once `registration_hash(p)` has given the hash stored for the account,
/// logging in to it with `p` is accepted.
pub proof fn lemma_registered_password_signs_in(user: User, password: Seq<char>)
    requires
        password_matches(password, user.password_hash@),
    ensures
        login_verdict(Ok(Some(user)), password) == LoginVerdict::Accepted,
{
}

/// Only the account's own password signs in: a login to an existing account
/// is accepted exactly when bcrypt confirms the password against its hash.
pub proof fn lemma_login_accepts_only_matching_password(user: User, password: Seq<char>)
    ensures
        login_verdict(Ok(Some(user)), password) == LoginVerdict::Accepted <==> password_matches(
            password,
            user.password_hash@,
        ),
{
}

} // verus!
