//! The login flow: decide from a fetched account list and submitted
//! credentials whether a session is opened, and describe the cookie to set.
//!
//! The decision is a pure function of the submitted credentials and the
//! outcome of the account fetch, which the surrounding HTTP layer performs.
//! Unknown name, inactive account and wrong password collapse into one
//! uniform rejection, so a caller cannot tell which factor failed; a failed
//! fetch is surfaced as a distinct, reportable outcome and never opens a
//! session.

use vstd::prelude::*;
use vstd::string::*;
use crate::status::DbApiError;
use crate::token::TokenService;
use crate::token::subject_claim;
use crate::token::token_of;
use crate::token::verify_model;

verus! {

/// An account record as the remote user-data collaborator reports it.
pub struct User {
    pub user_name: String,
    pub password_secret: String,
    pub active: bool,
}

/// The credentials a client submits to the login endpoint.
pub struct LoginInfo {
    user_name: String,
    user_password: String,
}

/// The cookie the HTTP layer must attach when a session is opened: scoped to
/// the serving host, HTTP-only, strict same-site, with a one-day expiry.
pub struct SessionCookie {
    pub name: String,
    pub value: String,
    pub domain: String,
    pub path: String,
    pub http_only: bool,
    pub same_site_strict: bool,
    pub max_age_minutes: u32,
}

/// Every attribute of a freshly issued session cookie except its value.
pub open spec fn standard_cookie_attrs(c: SessionCookie) -> bool {
    &&& c.name@ == "token"@
    &&& c.path@ == "/"@
    &&& c.domain@ == "127.0.0.1"@
    &&& c.http_only
    &&& c.same_site_strict
    &&& c.max_age_minutes == 1440
}

impl SessionCookie {
    /// Wrap a signed token in the cookie descriptor the HTTP layer applies.
    pub fn new(value: String) -> (c: SessionCookie)
        ensures
            c.value@ == value@,
            standard_cookie_attrs(c),
    {
        SessionCookie {
            name: String::from_str("token"),
            value,
            domain: String::from_str("127.0.0.1"),
            path: String::from_str("/"),
            http_only: true,
            same_site_strict: true,
            max_age_minutes: 1440,
        }
    }
}

/// What the login state machine decided.
pub enum LoginOutcome {
    /// Credentials accepted: the authenticated subject, and the session
    /// cookie the response must carry.
    Authenticated { subject: String, cookie: SessionCookie },
    /// The uniform rejection: unknown name, inactive account, or wrong
    /// password — never distinguished.
    Rejected,
    /// The account fetch itself failed; no credential judgement was made and
    /// no cookie is issued.
    BackendUnavailable(DbApiError),
}

impl LoginInfo {
    /// The submitted user name.
    pub closed spec fn name(&self) -> Seq<char> {
        self.user_name@
    }

    /// The submitted password.
    pub closed spec fn password(&self) -> Seq<char> {
        self.user_password@
    }

    pub fn new(user_name: String, user_password: String) -> (r: LoginInfo)
        ensures
            r.name() == user_name@,
            r.password() == user_password@,
    {
        LoginInfo { user_name, user_password }
    }

    /// Whether an account record carries this name and this password secret.
    pub open spec fn matches_user(&self, u: User) -> bool {
        u.user_name@ == self.name() && u.password_secret@ == self.password()
    }

    /// Compare the submitted credentials against one account record. The
    /// password comparison takes time independent of where a mismatch lies.
    pub fn equal(&self, user: &User) -> (r: bool)
        ensures
            r == self.matches_user(*user),
    {
        let names_equal = user.user_name == self.user_name;
        if !names_equal {
            return false;
        }
        ct_eq(user.password_secret.as_str(), self.user_password.as_str())
    }
}

/// String equality without an early exit on the first mismatching character,
/// so the comparison's duration does not reveal the mismatch's position.
fn ct_eq(a: &str, b: &str) -> (r: bool)
    ensures
        r == (a@ == b@),
{
    let la = a.unicode_len();
    let lb = b.unicode_len();
    if la != lb {
        return false;
    }
    let mut diff = false;
    let mut i: usize = 0;
    while i < la
        invariant
            la == a@.len(),
            la == b@.len(),
            i <= la,
            diff <==> exists|j: int| 0 <= j < i && a@[j] != b@[j],
        decreases la - i,
    {
        let ca = a.get_char(i);
        let cb = b.get_char(i);
        let ne = ca != cb;
        diff = diff || ne;
        i = i + 1;
    }
    if diff {
        proof {
            let j = choose|j: int| 0 <= j < la && a@[j] != b@[j];
            assert(a@[j] != b@[j]);
        }
    } else {
        proof {
            assert(a@ =~= b@);
        }
    }
    !diff
}

/// An account record that authenticates the submitted credentials: it must
/// be active and carry the submitted name and password.
pub open spec fn login_match(info: LoginInfo, u: User) -> bool {
    u.active && info.matches_user(u)
}

/// Whether any fetched record authenticates the submitted credentials.
pub open spec fn has_match(info: LoginInfo, users: Seq<User>) -> bool {
    exists|j: int| 0 <= j < users.len() && login_match(info, users[j])
}

/// The login state machine: from the submitted credentials and the outcome
/// of the account fetch, decide the session's fate.
///
/// A failed fetch short-circuits to [`LoginOutcome::BackendUnavailable`] and
/// never opens a session. Otherwise a session is opened exactly when some
/// fetched record is active and matches both name and password — then the
/// response carries a cookie whose token verifies back to the submitted
/// name. Everything else is the uniform rejection; an empty submitted name
/// is rejected outright, since it names no identity a credential could be
/// bound to.
pub fn login(service: &TokenService, info: &LoginInfo, fetch: Result<Vec<User>, DbApiError>) -> (r:
    LoginOutcome)
    ensures
        (fetch matches Err(e) ==> r matches LoginOutcome::BackendUnavailable(b) && b.kind == e.kind
            && b.message@ == e.message@),
        (fetch matches Ok(users) && (info.name().len() == 0 || !has_match(*info, users@)) ==> r
            is Rejected),
        (fetch matches Ok(users) && info.name().len() > 0 && has_match(*info, users@) ==> (r
            matches LoginOutcome::Authenticated { subject, cookie }
            && subject@ == info.name()
            && cookie.value@ == token_of(service.key(), subject_claim(), info.name())
            && verify_model(service.key(), cookie.value@) == Some(info.name())
            && standard_cookie_attrs(cookie))),
{
    let users = match fetch {
        Ok(u) => u,
        Err(e) => {
            return LoginOutcome::BackendUnavailable(e);
        },
    };
    if info.user_name.as_str().unicode_len() == 0 {
        return LoginOutcome::Rejected;
    }
    let n = users.len();
    let mut i: usize = 0;
    while i < n
        invariant
            fetch == Result::<Vec<User>, DbApiError>::Ok(users),
            n == users@.len(),
            i <= n,
            info.name().len() > 0,
            forall|j: int| 0 <= j < i ==> !login_match(*info, users@[j]),
        decreases n - i,
    {
        if users[i].active && info.equal(&users[i]) {
            proof {
                assert(login_match(*info, users@[i as int]));
                assert(has_match(*info, users@));
            }
            let subject = users[i].user_name.clone();
            let token = service.issue(info.user_name.as_str());
            let cookie = SessionCookie::new(token);
            return LoginOutcome::Authenticated { subject, cookie };
        }
        i = i + 1;
    }
    LoginOutcome::Rejected
}

} // verus!
