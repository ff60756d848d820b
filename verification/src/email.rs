//! The confirmation message sent to a new subscriber.
//!
//! Only the message itself is built here — the addresses, the subject and
//! the two bodies, each of which carries the confirmation link.  Handing
//! the message to an email provider over the network is the caller's
//! business.

use crate::domain::SubscriberEmail;
use vstd::prelude::*;
use vstd::string::StringExecFns;

verus! {

/// A confirmation message, ready to hand to an email provider.
pub struct EmailMessage {
    pub from: String,
    pub to: String,
    pub subject: String,
    pub html_body: String,
    pub text_body: String,
}

/// The provider URL a message is posted to: the `/email` endpoint under
/// the provider's base URL.
pub fn email_endpoint(base_url: &str) -> (r: String)
    ensures
        r@ == base_url@ + "/email"@,
{
    let mut url = String::from_str(base_url);
    url.append("/email");
    url
}

/// Builds the confirmation message for `recipient`: sent by `sender`,
/// carrying `link` both in the markup body and in the plain-text body.
pub fn build_confirmation_email(
    sender: &SubscriberEmail,
    recipient: &SubscriberEmail,
    link: &str,
) -> (m: EmailMessage)
    ensures
        m.from@ == sender@,
        m.to@ == recipient@,
        m.subject@ == "Welcome!"@,
        m.html_body@ == "Welcome to our newsletter!<br />Click <a href=\""@ + link@
            + "\">here</a> to confirm your subscription."@,
        m.text_body@ == "Welcome to our newsletter!\nVisit "@ + link@
            + " to confirm your subscription."@,
{
    let mut html_body = String::from_str("Welcome to our newsletter!<br />Click <a href=\"");
    html_body.append(link);
    html_body.append("\">here</a> to confirm your subscription.");
    let mut text_body = String::from_str("Welcome to our newsletter!\nVisit ");
    text_body.append(link);
    text_body.append(" to confirm your subscription.");
    EmailMessage {
        from: String::from_str(sender.as_str()),
        to: String::from_str(recipient.as_str()),
        subject: String::from_str("Welcome!"),
        html_body: html_body,
        text_body: text_body,
    }
}

} // verus!
