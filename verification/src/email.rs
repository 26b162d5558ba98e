//! Address validation for outbound notification mail.
//!
//! Only the validity judgement lives here: it is a pure computation of the
//! mail-building crate. Actually handing a message to an SMTP server is I/O
//! and stays with the surrounding application layer.

use vstd::prelude::*;

verus! {

/// Whether the outbound-mail crate accepts a message built with destination
/// `to` and sender `from`. A pure function of the two address strings.
pub uninterp spec fn email_ok(to: Seq<char>, from: Seq<char>) -> bool;

/// The fixed sender identity this service builds notification mail from.
pub open spec fn sender() -> Seq<char> {
    "example@example.com"@
}

/// Relies on lettre_email's `EmailBuilder::build`: it performs no I/O, and
/// whether it succeeds depends on the two addresses alone — it fails exactly
/// when it refuses one of them.
#[verifier::external_body]
fn build_email_check(to: &str, from: &str) -> (r: bool)
    ensures
        r == email_ok(to@, from@),
{
    lettre_email::EmailBuilder::new().to(to).from(from).build().is_ok()
}

/// Whether `to` is an address a notification can be built for, judged
/// against this service's fixed sender.
pub fn check_email(to: &str) -> (r: bool)
    ensures
        r == email_ok(to@, sender()),
{
    build_email_check(to, "example@example.com")
}

} // verus!
