//! Orchestration of the subscription lifecycle.
//!
//! A submission is parsed, stored as a pending subscriber, given a fresh
//! confirmation token, and answered with the link that carries the token;
//! the caller then attempts the one notification and maps the result to
//! an outcome.  A confirmation looks the token up and promotes the
//! subscriber.  The transitions are stated once, as the specification
//! functions [`spec_submit`] and [`spec_confirm`], and the executable
//! functions are proved to implement them; the laws at the end of this
//! module are proved about the same functions.

use crate::domain::subscriber_email::email_accepted;
use crate::domain::subscriber_name::name_valid;
use crate::domain::{NewSubscriber, SubscriberEmail, SubscriberName};
use crate::store::{
    confirmed_row, email_taken, lemma_find_same_tokens, lemma_token_lookup_in_range, pending_row,
    row_with_token, store_wf, token_lookup, SubscriberRecord, SubscriberStore,
};
use crate::token::{confirmation_link, generate};
use vstd::prelude::*;

verus! {

/// The raw fields of the subscription form, exactly as submitted.
pub struct FormData {
    pub email: String,
    pub name: String,
}

impl NewSubscriber {
    /// Parses both form fields; accepted exactly when the name and the
    /// email both pass their parsers.  A rejection gives back the
    /// offending field.
    pub fn try_from(form: FormData) -> (r: Result<NewSubscriber, String>)
        ensures
            r is Ok <==> name_valid(form.name@) && email_accepted(form.email@),
            r matches Ok(n) ==> n.name@ == form.name@ && n.email@ == form.email@ && n.name.wf()
                && n.email.wf(),
            r matches Err(e) ==> (!name_valid(form.name@) && e@ == form.name@) || (name_valid(
                form.name@,
            ) && !email_accepted(form.email@) && e@ == form.email@),
    {
        let name = match SubscriberName::parse(form.name) {
            Ok(n) => n,
            Err(e) => {
                return Err(e);
            },
        };
        let email = match SubscriberEmail::parse(form.email) {
            Ok(e) => e,
            Err(e) => {
                return Err(e);
            },
        };
        Ok(NewSubscriber { email: email, name: name })
    }
}

/// The externally visible outcome of one submission.
#[derive(Clone, Copy, PartialEq, Eq, Structural, Debug)]
pub enum Outcome {
    /// Stored and notified.
    Accepted,
    /// The name or the email failed its parser; nothing stored.
    RejectedInput,
    /// The email is already subscribed; nothing stored.
    Conflict,
    /// Stored as pending, but the notification failed; the subscriber
    /// stays, unable to confirm until some later re-send.
    NotificationFailed,
}

/// The outcome of one confirmation.
#[derive(Clone, Copy, PartialEq, Eq, Structural, Debug)]
pub enum ConfirmOutcome {
    Confirmed,
    InvalidToken,
}

/// What a submission did to the store, without its payload.
#[derive(Clone, Copy, PartialEq, Eq, Structural, Debug)]
pub enum SubmissionKind {
    Rejected,
    Duplicate,
    Pending,
}

/// What a submission did: rejected input, a duplicate email, or a new
/// pending subscriber whose notification is now owed.
pub enum Submission {
    Rejected,
    Duplicate,
    Pending { id: usize, recipient: SubscriberEmail, token: String, link: String },
}

impl Submission {
    /// The kind of this submission result.
    pub open spec fn kind(&self) -> SubmissionKind {
        match self {
            Submission::Rejected => SubmissionKind::Rejected,
            Submission::Duplicate => SubmissionKind::Duplicate,
            Submission::Pending { .. } => SubmissionKind::Pending,
        }
    }
}

/// What a submission with these fields does to the store, without its
/// effect: rejected input, a duplicate email, or a new pending row.
pub open spec fn spec_submit_kind(
    rows: Seq<SubscriberRecord>,
    name: Seq<char>,
    email: Seq<char>,
) -> SubmissionKind {
    if !(name_valid(name) && email_accepted(email)) {
        SubmissionKind::Rejected
    } else if email_taken(rows, email) {
        SubmissionKind::Duplicate
    } else {
        SubmissionKind::Pending
    }
}

/// The store after a submission: one new pending row carrying the issued
/// token, or the store unchanged.
pub open spec fn spec_submit(
    rows: Seq<SubscriberRecord>,
    name: Seq<char>,
    email: Seq<char>,
    at: int,
    token: Seq<char>,
) -> Seq<SubscriberRecord> {
    if spec_submit_kind(rows, name, email) is Pending {
        rows.push(row_with_token(pending_row(email, name, at), token))
    } else {
        rows
    }
}

/// The store after a confirmation: the row the token references is
/// confirmed; an unknown token changes nothing.
pub open spec fn spec_confirm(rows: Seq<SubscriberRecord>, token: Seq<char>) -> Seq<
    SubscriberRecord,
> {
    match token_lookup(rows, token) {
        Some(i) => rows.update(i, confirmed_row(rows[i])),
        None => rows,
    }
}

/// The answer a confirmation gets.
pub open spec fn spec_confirm_outcome(rows: Seq<SubscriberRecord>, token: Seq<char>) -> ConfirmOutcome {
    if token_lookup(rows, token) is Some {
        ConfirmOutcome::Confirmed
    } else {
        ConfirmOutcome::InvalidToken
    }
}

/// The outcome owed for a submission once the notification, where one was
/// owed, has been attempted with verdict `delivered`.
pub open spec fn spec_outcome(kind: SubmissionKind, delivered: bool) -> Outcome {
    match kind {
        SubmissionKind::Rejected => Outcome::RejectedInput,
        SubmissionKind::Duplicate => Outcome::Conflict,
        SubmissionKind::Pending => if delivered {
            Outcome::Accepted
        } else {
            Outcome::NotificationFailed
        },
    }
}

/// Handles one submission with a caller-supplied token: parses the form,
/// stores a pending subscriber, records the token on the new row, and
/// returns the recipient and the confirmation link.  On rejected input or
/// a duplicate email the store is untouched.
pub fn submit_with_token(
    store: &mut SubscriberStore,
    form: FormData,
    base_url: &str,
    now: i64,
    token: String,
) -> (r: Submission)
    ensures
        final(store)@ == spec_submit(old(store)@, form.name@, form.email@, now as int, token@),
        r.kind() == spec_submit_kind(old(store)@, form.name@, form.email@),
        r matches Submission::Pending { id, recipient, token: tok, link } ==> {
            &&& id == old(store)@.len()
            &&& recipient@ == form.email@
            &&& tok@ == token@
            &&& link@ == base_url@ + "/subscriptions/confirm?token="@ + token@
        },
{
    let new_subscriber = match NewSubscriber::try_from(form) {
        Ok(n) => n,
        Err(_) => {
            return Submission::Rejected;
        },
    };
    let recipient = new_subscriber.email.clone();
    let id = match store.insert_pending(new_subscriber.email, new_subscriber.name, now) {
        Ok(id) => id,
        Err(_) => {
            return Submission::Duplicate;
        },
    };
    let link = confirmation_link(base_url, token.as_str());
    store.record_token(id, token.clone()).unwrap();
    proof {
        assert(store@ =~= spec_submit(old(store)@, form.name@, form.email@, now as int, token@));
    }
    Submission::Pending { id: id, recipient: recipient, token: token, link: link }
}

/// Handles one submission: as [`submit_with_token`], with a token issued
/// freshly from the secure random source.
pub fn submit(store: &mut SubscriberStore, form: FormData, base_url: &str, now: i64) -> (r:
    Submission)
    ensures
        r.kind() == spec_submit_kind(old(store)@, form.name@, form.email@),
        r matches Submission::Pending { id, recipient, token, link } ==> {
            &&& final(store)@ == spec_submit(
                old(store)@,
                form.name@,
                form.email@,
                now as int,
                token@,
            )
            &&& id == old(store)@.len()
            &&& recipient@ == form.email@
            &&& token@.len() == 32
            &&& link@ == base_url@ + "/subscriptions/confirm?token="@ + token@
        },
        !(r.kind() is Pending) ==> final(store)@ == old(store)@,
{
    let token = generate();
    submit_with_token(store, form, base_url, now, token)
}

/// Relies on chrono's `Utc::now`: the current time, as non-leap seconds
/// since the Unix epoch.  Nothing is promised of its value.
#[verifier::external_body]
fn current_unix_timestamp() -> (t: i64) {
    chrono::Utc::now().timestamp()
}

/// Handles one submission as [`submit`], stamping it with the current
/// time read from the system clock.
pub fn submit_now(store: &mut SubscriberStore, form: FormData, base_url: &str) -> (r: Submission)
    ensures
        r.kind() == spec_submit_kind(old(store)@, form.name@, form.email@),
        r matches Submission::Pending { id, recipient, token, link } ==> {
            &&& (exists|at: int| final(store)@ == spec_submit(
                old(store)@,
                form.name@,
                form.email@,
                at,
                token@,
            ))
            &&& id == old(store)@.len()
            &&& recipient@ == form.email@
            &&& token@.len() == 32
            &&& link@ == base_url@ + "/subscriptions/confirm?token="@ + token@
        },
        !(r.kind() is Pending) ==> final(store)@ == old(store)@,
{
    let now = current_unix_timestamp();
    submit(store, form, base_url, now)
}

/// Maps a submission and the verdict of its notification attempt to the
/// outcome the caller reports.  `delivered` matters only where a
/// notification was owed.
pub fn outcome_of(submission: &Submission, delivered: bool) -> (o: Outcome)
    ensures
        o == spec_outcome(submission.kind(), delivered),
{
    match submission {
        Submission::Rejected => Outcome::RejectedInput,
        Submission::Duplicate => Outcome::Conflict,
        Submission::Pending { .. } => {
            if delivered {
                Outcome::Accepted
            } else {
                Outcome::NotificationFailed
            }
        },
    }
}

/// Handles a confirmation-link visit: looks the token up and confirms
/// the subscriber it references.  An unknown token changes nothing.
pub fn confirm_by_token(store: &mut SubscriberStore, token: &String) -> (r: ConfirmOutcome)
    ensures
        final(store)@ == spec_confirm(old(store)@, token@),
        r == spec_confirm_outcome(old(store)@, token@),
{
    match store.find_subscriber_by_token(token) {
        None => ConfirmOutcome::InvalidToken,
        Some(id) => {
            proof {
                lemma_token_lookup_in_range(store@, token@);
            }
            store.confirm(id).unwrap();
            ConfirmOutcome::Confirmed
        },
    }
}

/// The HTTP status reported for a submission outcome: success is 200,
/// rejected input 400, and both a duplicate email and a failed
/// notification surface as a plain server error.
pub fn submit_status(o: Outcome) -> (s: u16)
    ensures
        o is Accepted ==> s == 200,
        o is RejectedInput ==> s == 400,
        o is Conflict ==> s == 500,
        o is NotificationFailed ==> s == 500,
{
    match o {
        Outcome::Accepted => 200,
        Outcome::RejectedInput => 400,
        Outcome::Conflict => 500,
        Outcome::NotificationFailed => 500,
    }
}

/// The HTTP status reported for a confirmation outcome: 200 on success,
/// 401 for a token that references no subscriber.
pub fn confirm_status(o: ConfirmOutcome) -> (s: u16)
    ensures
        o is Confirmed ==> s == 200,
        o is InvalidToken ==> s == 401,
{
    match o {
        ConfirmOutcome::Confirmed => 200,
        ConfirmOutcome::InvalidToken => 401,
    }
}

/// Law: a submission that goes through, followed at once by a
/// confirmation with the token it issued, leaves the new subscriber
/// confirmed, under their email.
pub proof fn lemma_submit_then_confirm(
    rows: Seq<SubscriberRecord>,
    name: Seq<char>,
    email: Seq<char>,
    at: int,
    token: Seq<char>,
)
    requires
        spec_submit_kind(rows, name, email) is Pending,
    ensures
        ({
            let rows1 = spec_submit(rows, name, email, at, token);
            let rows2 = spec_confirm(rows1, token);
            &&& spec_confirm_outcome(rows1, token) is Confirmed
            &&& rows2.len() == rows.len() + 1
            &&& rows2[rows.len() as int].email == email
            &&& rows2[rows.len() as int].status is Confirmed
        }),
{
    let rows1 = spec_submit(rows, name, email, at, token);
    assert(token_lookup(rows1, token) == Some(rows.len() as int));
}

/// Law: confirming is idempotent — a second confirmation with the same
/// valid token answers `Confirmed` again and changes nothing further.
pub proof fn lemma_confirm_idempotent(rows: Seq<SubscriberRecord>, token: Seq<char>)
    requires
        token_lookup(rows, token) is Some,
    ensures
        spec_confirm_outcome(rows, token) is Confirmed,
        spec_confirm_outcome(spec_confirm(rows, token), token) is Confirmed,
        spec_confirm(spec_confirm(rows, token), token) == spec_confirm(rows, token),
{
    lemma_token_lookup_in_range(rows, token);
    let rows1 = spec_confirm(rows, token);
    assert(forall|k: int| 0 <= k < rows.len() ==> rows[k].token == rows1[k].token);
    lemma_find_same_tokens(rows, rows1, token, rows.len() as int);
    match token_lookup(rows, token) {
        Some(i) => {
            assert(rows1[i] == confirmed_row(rows[i]));
            assert(confirmed_row(rows1[i]) == rows1[i]);
            assert(rows1.update(i, confirmed_row(rows1[i])) =~= rows1);
        },
        None => {},
    }
}

/// Law: submitting the same email a second time is a duplicate — the
/// store gains exactly one row for it, and the second submission changes
/// nothing.
pub proof fn lemma_duplicate_email(
    rows: Seq<SubscriberRecord>,
    name: Seq<char>,
    email: Seq<char>,
    at: int,
    token: Seq<char>,
    name2: Seq<char>,
    at2: int,
    token2: Seq<char>,
)
    requires
        spec_submit_kind(rows, name, email) is Pending,
        name_valid(name2),
    ensures
        ({
            let rows1 = spec_submit(rows, name, email, at, token);
            &&& rows1.len() == rows.len() + 1
            &&& spec_submit_kind(rows1, name2, email) is Duplicate
            &&& spec_submit(rows1, name2, email, at2, token2) == rows1
        }),
{
    let rows1 = spec_submit(rows, name, email, at, token);
    assert(rows1[rows.len() as int].email == email);
    assert(email_taken(rows1, email));
}

/// Law: a failed notification still leaves the submission's row in the
/// store, pending confirmation, and the reported outcome is
/// `NotificationFailed`, never `Accepted`.
pub proof fn lemma_notification_failure(
    rows: Seq<SubscriberRecord>,
    name: Seq<char>,
    email: Seq<char>,
    at: int,
    token: Seq<char>,
)
    requires
        spec_submit_kind(rows, name, email) is Pending,
    ensures
        spec_outcome(SubmissionKind::Pending, false) is NotificationFailed,
        ({
            let rows1 = spec_submit(rows, name, email, at, token);
            &&& rows1.len() == rows.len() + 1
            &&& rows1[rows.len() as int].email == email
            &&& rows1[rows.len() as int].status is PendingConfirmation
        }),
{
}

/// Law: a submission preserves the store invariant — emails stay unique —
/// and touches no existing row, so no subscriber's status ever reverts.
pub proof fn lemma_submit_preserves_invariants(
    rows: Seq<SubscriberRecord>,
    name: Seq<char>,
    email: Seq<char>,
    at: int,
    token: Seq<char>,
)
    requires
        store_wf(rows),
    ensures
        store_wf(spec_submit(rows, name, email, at, token)),
        forall|i: int| 0 <= i < rows.len() ==> spec_submit(rows, name, email, at, token)[i]
            == rows[i],
{
    let rows1 = spec_submit(rows, name, email, at, token);
    if spec_submit_kind(rows, name, email) is Pending {
        assert forall|i: int, j: int| 0 <= i < j < rows1.len() implies rows1[i].email
            != rows1[j].email by {
            if j == rows.len() {
                assert(!email_taken(rows, email));
                assert(rows[i].email != email);
            }
        }
    }
}

/// Law: a confirmation preserves the store invariant and changes nothing
/// but the one status, which only ever moves towards confirmed.
pub proof fn lemma_confirm_preserves_invariants(rows: Seq<SubscriberRecord>, token: Seq<char>)
    requires
        store_wf(rows),
    ensures
        store_wf(spec_confirm(rows, token)),
        spec_confirm(rows, token).len() == rows.len(),
        forall|i: int| #![auto] 0 <= i < rows.len() && rows[i].status is Confirmed ==> spec_confirm(
            rows,
            token,
        )[i].status is Confirmed,
        forall|i: int| #![auto] 0 <= i < rows.len() ==> spec_confirm(rows, token)[i].email
            == rows[i].email && spec_confirm(rows, token)[i].name == rows[i].name && spec_confirm(
            rows,
            token,
        )[i].token == rows[i].token && spec_confirm(rows, token)[i].subscribed_at
            == rows[i].subscribed_at,
{
    lemma_token_lookup_in_range(rows, token);
}

} // verus!
