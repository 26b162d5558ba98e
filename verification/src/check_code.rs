//! Verification codes: the numeric record sent to the remote data API and
//! mailed to an account's address, and the delivery decision around it.

use vstd::prelude::*;
use crate::email::check_email;
use crate::email::email_ok;
use crate::email::sender;
use crate::status::DbApiError;

verus! {

/// How delivering a verification code ended.
pub enum CheckStatus {
    /// The code was mailed and stored.
    Success,
    /// The destination address was refused; nothing was sent or stored.
    InvalidEmailAddress,
    /// The mail could not be handed to the SMTP server; nothing was stored.
    SendEmailError,
    /// Storing the code with the remote data API failed.
    DbError(DbApiError),
}

/// A numeric verification code and the account it belongs to.
pub struct CheckCode {
    code: i32,
    owner: String,
}

impl CheckCode {
    /// The numeric code itself.
    pub closed spec fn code_val(&self) -> i32 {
        self.code
    }

    /// The name of the account the code verifies.
    pub closed spec fn owner_view(&self) -> Seq<char> {
        self.owner@
    }

    pub fn new(code: i32, owner: String) -> (r: CheckCode)
        ensures
            r.code_val() == code,
            r.owner_view() == owner@,
    {
        CheckCode { code, owner }
    }

    pub fn code(&self) -> (r: i32)
        ensures
            r == self.code_val(),
    {
        self.code
    }

    pub fn owner(&self) -> (r: String)
        ensures
            r@ == self.owner_view(),
    {
        self.owner.clone()
    }

    /// Decide how delivering this code to `email` ended, in the order the
    /// flow runs: an address the mail crate refuses stops everything; then a
    /// failed SMTP handoff; then the store's own verdict. `email_sent` and
    /// `stored` are the outcomes of the two I/O steps, which the application
    /// layer performs only when the preceding steps allowed them.
    pub fn to_db_and_email(&self, email: &str, email_sent: bool, stored: Result<
        (),
        DbApiError,
    >) -> (r: Result<CheckStatus, CheckStatus>)
        ensures
            !email_ok(email@, sender()) ==> r matches Err(CheckStatus::InvalidEmailAddress),
            email_ok(email@, sender()) && !email_sent ==> r matches Err(CheckStatus::SendEmailError),
            stored is Err && email_ok(email@, sender()) && email_sent ==> (r matches Err(
                CheckStatus::DbError(b),
            ) && b.kind == stored->Err_0.kind && b.message@ == stored->Err_0.message@),
            email_ok(email@, sender()) && email_sent && stored is Ok ==> r matches Ok(
                CheckStatus::Success,
            ),
    {
        if !check_email(email) {
            return Err(CheckStatus::InvalidEmailAddress);
        }
        if !email_sent {
            return Err(CheckStatus::SendEmailError);
        }
        match stored {
            Ok(()) => Ok(CheckStatus::Success),
            Err(e) => Err(CheckStatus::DbError(e)),
        }
    }
}

} // verus!
