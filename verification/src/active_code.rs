//! Account-activation codes: the record sent to the remote data API and
//! mailed to the new account's address, and the delivery decision around it.

use vstd::prelude::*;
use crate::email::check_email;
use crate::email::email_ok;
use crate::email::sender;
use crate::status::DbApiError;

verus! {

/// How delivering an activation code ended.
pub enum ActiveStatus {
    /// The code was mailed and stored.
    Success,
    /// The destination address was refused; nothing was sent or stored.
    InvalidEmailAddress,
    /// The mail could not be handed to the SMTP server; nothing was stored.
    SendEmailError,
    /// Storing the code with the remote data API failed.
    DbError(DbApiError),
}

/// An activation code and the account it belongs to.
pub struct ActiveCode {
    code: String,
    owner: String,
}

impl ActiveCode {
    /// The code string itself.
    pub closed spec fn code_view(&self) -> Seq<char> {
        self.code@
    }

    /// The name of the account the code activates.
    pub closed spec fn owner_view(&self) -> Seq<char> {
        self.owner@
    }

    pub fn new(code: String, owner: String) -> (r: ActiveCode)
        ensures
            r.code_view() == code@,
            r.owner_view() == owner@,
    {
        ActiveCode { code, owner }
    }

    pub fn code(&self) -> (r: String)
        ensures
            r@ == self.code_view(),
    {
        self.code.clone()
    }

    pub fn owner(&self) -> (r: String)
        ensures
            r@ == self.owner_view(),
    {
        self.owner.clone()
    }

    /// Decide how delivering this code to `email` ended, in the order the
    /// flow runs: an address the mail crate refuses stops everything; then a
    /// failed SMTP handoff; then the store's own verdict. `email_sent` and
    /// `stored` are the outcomes of the two I/O steps, which the application
    /// layer performs only when the preceding steps allowed them.
    pub fn to_db_and_email(&self, email: &str, email_sent: bool, stored: Result<
        (),
        DbApiError,
    >) -> (r: Result<ActiveStatus, ActiveStatus>)
        ensures
            !email_ok(email@, sender()) ==> r matches Err(ActiveStatus::InvalidEmailAddress),
            email_ok(email@, sender()) && !email_sent ==> r matches Err(
                ActiveStatus::SendEmailError,
            ),
            stored is Err && email_ok(email@, sender()) && email_sent ==> (r matches Err(
                ActiveStatus::DbError(b),
            ) && b.kind == stored->Err_0.kind && b.message@ == stored->Err_0.message@),
            email_ok(email@, sender()) && email_sent && stored is Ok ==> r matches Ok(
                ActiveStatus::Success,
            ),
    {
        if !check_email(email) {
            return Err(ActiveStatus::InvalidEmailAddress);
        }
        if !email_sent {
            return Err(ActiveStatus::SendEmailError);
        }
        match stored {
            Ok(()) => Ok(ActiveStatus::Success),
            Err(e) => Err(ActiveStatus::DbError(e)),
        }
    }
}

} // verus!
