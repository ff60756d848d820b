//! The email address of a subscriber.
//!
//! Whether a string is a well-formed address is decided by the validator
//! crate; what this module pins down is that an accepted address always
//! has at least one character on each side of an `@`.

use vstd::prelude::*;

verus! {

/// An `@` with at least one character before it and one after it.
pub open spec fn email_shape(s: Seq<char>) -> bool {
    exists|k: int| 0 < k && k + 1 < s.len() && s[k] == '@'
}

/// What the validator crate's email check returns for `s`: a function of
/// the characters alone.
pub uninterp spec fn email_accepted(s: Seq<char>) -> bool;

/// Relies on validator's `ValidateEmail` for `str`: the verdict depends on
/// the characters alone, and an accepted address splits at an `@` into a
/// non-empty local part and a non-empty domain.
#[verifier::external_body]
fn validate_email_str(s: &str) -> (r: bool)
    ensures
        r == email_accepted(s@),
        r ==> email_shape(s@),
{
    validator::ValidateEmail::validate_email(&s)
}

/// A subscriber's email address, accepted by [`email_accepted`].
#[derive(Debug)]
pub struct SubscriberEmail(String);

impl View for SubscriberEmail {
    type V = Seq<char>;

    closed spec fn view(&self) -> Seq<char> {
        self.0@
    }
}

impl Clone for SubscriberEmail {
    fn clone(&self) -> (r: Self)
        ensures
            r@ == self@,
    {
        SubscriberEmail(self.0.clone())
    }
}

impl SubscriberEmail {
    /// Every value of this type wraps an accepted address.
    pub open spec fn wf(&self) -> bool {
        email_accepted(self@)
    }

    /// Accepts `s` as an email address, or gives it back unchanged.
    ///
    /// A string without an `@`, or without both a local part and a
    /// domain around one, is always rejected.
    pub fn parse(s: String) -> (r: Result<SubscriberEmail, String>)
        ensures
            r is Ok <==> email_accepted(s@),
            r matches Ok(email) ==> email@ == s@ && email.wf(),
            r matches Err(e) ==> e@ == s@,
            !email_shape(s@) ==> r is Err,
    {
        if validate_email_str(s.as_str()) {
            Ok(SubscriberEmail(s))
        } else {
            Err(s)
        }
    }

    /// Whether two values hold the same address.
    pub fn same_as(&self, other: &SubscriberEmail) -> (r: bool)
        ensures
            r == (self@ == other@),
    {
        self.0 == other.0
    }

    /// The accepted address, unchanged.
    pub fn as_str(&self) -> (r: &str)
        ensures
            r@ == self@,
    {
        self.0.as_str()
    }
}

} // verus!
