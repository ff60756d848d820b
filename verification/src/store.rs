//! The durable record of subscribers.
//!
//! The store keeps one row per subscriber: the validated email and name,
//! the submission timestamp, the confirmation status, and the confirmation
//! token once one has been recorded (the token lives as a column on the
//! row).  Rows are keyed by their index, which serves as the opaque
//! subscriber id; rows are never removed.  Every operation is atomic: it
//! either applies in full or leaves the store unchanged.

use crate::domain::{SubscriberEmail, SubscriberName};
use vstd::prelude::*;

verus! {

/// The status of a subscriber: starts pending and moves at most once to
/// confirmed, never back.
#[derive(Clone, Copy, PartialEq, Eq, Structural, Debug)]
pub enum SubscriberStatus {
    PendingConfirmation,
    Confirmed,
}

/// One stored row.
pub struct StoredSubscriber {
    pub email: SubscriberEmail,
    pub name: SubscriberName,
    pub subscribed_at: i64,
    pub status: SubscriberStatus,
    pub token: Option<String>,
}

/// The mathematical image of one row.
pub struct SubscriberRecord {
    pub email: Seq<char>,
    pub name: Seq<char>,
    pub subscribed_at: int,
    pub status: SubscriberStatus,
    pub token: Option<Seq<char>>,
}

impl View for StoredSubscriber {
    type V = SubscriberRecord;

    open spec fn view(&self) -> SubscriberRecord {
        SubscriberRecord {
            email: self.email@,
            name: self.name@,
            subscribed_at: self.subscribed_at as int,
            status: self.status,
            token: match self.token {
                Some(t) => Some(t@),
                None => None,
            },
        }
    }
}

/// A fresh row, as [`SubscriberStore::insert_pending`] creates it.
pub open spec fn pending_row(email: Seq<char>, name: Seq<char>, at: int) -> SubscriberRecord {
    SubscriberRecord {
        email: email,
        name: name,
        subscribed_at: at,
        status: SubscriberStatus::PendingConfirmation,
        token: None,
    }
}

/// The same row, confirmed.
pub open spec fn confirmed_row(r: SubscriberRecord) -> SubscriberRecord {
    SubscriberRecord { status: SubscriberStatus::Confirmed, ..r }
}

/// The same row, with `token` recorded on it.
pub open spec fn row_with_token(r: SubscriberRecord, token: Seq<char>) -> SubscriberRecord {
    SubscriberRecord { token: Some(token), ..r }
}

/// Whether some row already holds this email.
pub open spec fn email_taken(rows: Seq<SubscriberRecord>, email: Seq<char>) -> bool {
    exists|i: int| 0 <= i < rows.len() && rows[i].email == email
}

/// The row among the first `i` rows whose token is `token`; of several,
/// the newest.
pub open spec fn find_token_upto(
    rows: Seq<SubscriberRecord>,
    token: Seq<char>,
    i: int,
) -> Option<int>
    decreases i,
{
    if i <= 0 {
        None
    } else if rows[i - 1].token == Some(token) {
        Some(i - 1)
    } else {
        find_token_upto(rows, token, i - 1)
    }
}

/// The id of the subscriber that `token` references, if any.
pub open spec fn token_lookup(rows: Seq<SubscriberRecord>, token: Seq<char>) -> Option<int> {
    find_token_upto(rows, token, rows.len() as int)
}

/// A successful token search among the first `i` rows names one of them.
proof fn lemma_find_token_upto_in_range(
    rows: Seq<SubscriberRecord>,
    token: Seq<char>,
    i: int,
)
    requires
        i <= rows.len(),
    ensures
        find_token_upto(rows, token, i) matches Some(j) ==> 0 <= j < rows.len(),
    decreases i,
{
    if i > 0 && !(rows[i - 1].token == Some(token)) {
        lemma_find_token_upto_in_range(rows, token, i - 1);
    }
}

/// Two stores whose rows carry the same tokens answer every token search
/// alike.
pub proof fn lemma_find_same_tokens(
    a: Seq<SubscriberRecord>,
    b: Seq<SubscriberRecord>,
    token: Seq<char>,
    i: int,
)
    requires
        a.len() == b.len(),
        forall|k: int| 0 <= k < a.len() ==> a[k].token == b[k].token,
        i <= a.len(),
    ensures
        find_token_upto(a, token, i) == find_token_upto(b, token, i),
    decreases i,
{
    if i > 0 {
        lemma_find_same_tokens(a, b, token, i - 1);
    }
}

/// A successful token lookup names a row of the store.
pub proof fn lemma_token_lookup_in_range(rows: Seq<SubscriberRecord>, token: Seq<char>)
    ensures
        token_lookup(rows, token) matches Some(j) ==> 0 <= j < rows.len(),
{
    lemma_find_token_upto_in_range(rows, token, rows.len() as int);
}

/// A token search among the first `i` rows succeeds exactly when one of
/// them carries the token, and what it finds carries the token.
proof fn lemma_find_token_upto_reaches(rows: Seq<SubscriberRecord>, token: Seq<char>, i: int)
    requires
        i <= rows.len(),
    ensures
        find_token_upto(rows, token, i) is Some <==> exists|k: int|
            0 <= k < i && rows[k].token == Some(token),
        find_token_upto(rows, token, i) matches Some(j) ==> 0 <= j < i && rows[j].token == Some(
            token,
        ),
    decreases i,
{
    if i > 0 {
        lemma_find_token_upto_reaches(rows, token, i - 1);
        if rows[i - 1].token == Some(token) {
        } else if exists|k: int| 0 <= k < i && rows[k].token == Some(token) {
            let k = choose|k: int| 0 <= k < i && rows[k].token == Some(token);
            assert(0 <= k < i - 1);
        }
    }
}

/// Law: a subscriber is reachable by token look-up exactly when some row
/// carries that token, and the row the look-up names does carry it.
pub proof fn lemma_token_reachability(rows: Seq<SubscriberRecord>, token: Seq<char>)
    ensures
        token_lookup(rows, token) is Some <==> exists|k: int|
            0 <= k < rows.len() && rows[k].token == Some(token),
        token_lookup(rows, token) matches Some(j) ==> 0 <= j < rows.len() && rows[j].token
            == Some(token),
{
    lemma_find_token_upto_reaches(rows, token, rows.len() as int);
}

/// The store's invariant: no two rows share an email.
pub open spec fn store_wf(rows: Seq<SubscriberRecord>) -> bool {
    forall|i: int, j: int| 0 <= i < j < rows.len() ==> rows[i].email != rows[j].email
}

/// Errors of the store operations.
#[derive(Clone, Copy, PartialEq, Eq, Structural, Debug)]
pub enum StoreError {
    /// The email is already subscribed.
    DuplicateEmail,
    /// The subscriber id names no row.
    NotFound,
}

/// The subscriber store.  Its view is the sequence of row images; the
/// subscriber id of a row is its index.
pub struct SubscriberStore {
    rows: Vec<StoredSubscriber>,
}

impl View for SubscriberStore {
    type V = Seq<SubscriberRecord>;

    closed spec fn view(&self) -> Seq<SubscriberRecord> {
        self.rows@.map_values(|r: StoredSubscriber| r@)
    }
}

impl SubscriberStore {
    /// An empty store.
    pub fn new() -> (s: SubscriberStore)
        ensures
            s@.len() == 0,
    {
        SubscriberStore { rows: Vec::new() }
    }

    /// How many rows the store holds.
    pub fn len(&self) -> (n: usize)
        ensures
            n == self@.len(),
    {
        self.rows.len()
    }

    /// The row of subscriber `id`.
    pub fn get(&self, id: usize) -> (r: &StoredSubscriber)
        requires
            id < self@.len(),
        ensures
            r@ == self@[id as int],
    {
        &self.rows[id]
    }

    /// Creates a pending subscriber and returns its id, unless the email
    /// is already subscribed; a duplicate leaves the store unchanged.
    pub fn insert_pending(
        &mut self,
        email: SubscriberEmail,
        name: SubscriberName,
        subscribed_at: i64,
    ) -> (r: Result<usize, StoreError>)
        ensures
            r is Ok <==> !email_taken(old(self)@, email@),
            r matches Ok(id) ==> id == old(self)@.len() && final(self)@ == old(self)@.push(
                pending_row(email@, name@, subscribed_at as int),
            ),
            r matches Err(e) ==> e == StoreError::DuplicateEmail && final(self)@ == old(self)@,
    {
        let n = self.rows.len();
        let mut i: usize = 0;
        while i < n
            invariant
                0 <= i <= n,
                n == self@.len(),
                self == old(self),
                forall|j: int| 0 <= j < i ==> self@[j].email != email@,
            decreases n - i,
        {
            if self.rows[i].email.same_as(&email) {
                proof {
                    assert(self@[i as int].email == email@);
                }
                return Err(StoreError::DuplicateEmail);
            }
            i = i + 1;
        }
        self.rows.push(StoredSubscriber {
            email: email,
            name: name,
            subscribed_at: subscribed_at,
            status: SubscriberStatus::PendingConfirmation,
            token: None,
        });
        Ok(n)
    }

    /// Associates `token` with subscriber `id`; fails, changing nothing,
    /// when the id names no row.  Re-recording replaces the row's earlier
    /// token.
    pub fn record_token(&mut self, id: usize, token: String) -> (r: Result<(), StoreError>)
        ensures
            r is Ok <==> id < old(self)@.len(),
            r is Ok ==> final(self)@ == old(self)@.update(
                id as int,
                row_with_token(old(self)@[id as int], token@),
            ),
            r matches Err(e) ==> e == StoreError::NotFound && final(self)@ == old(self)@,
    {
        if id >= self.rows.len() {
            return Err(StoreError::NotFound);
        }
        self.rows[id].token = Some(token);
        Ok(())
    }

    /// The id of the subscriber that `token` references, if any.
    pub fn find_subscriber_by_token(&self, token: &String) -> (r: Option<usize>)
        ensures
            match r {
                Some(id) => token_lookup(self@, token@) == Some(id as int),
                None => token_lookup(self@, token@) is None,
            },
    {
        let mut i: usize = self.rows.len();
        while i > 0
            invariant
                0 <= i <= self@.len(),
                find_token_upto(self@, token@, self@.len() as int) == find_token_upto(
                    self@,
                    token@,
                    i as int,
                ),
            decreases i,
        {
            let row = &self.rows[i - 1];
            let hit = match &row.token {
                Some(t) => *t == *token,
                None => false,
            };
            proof {
                assert(self@[i - 1] == row@);
                assert(hit == (self@[i - 1].token == Some(token@)));
            }
            if hit {
                return Some(i - 1);
            }
            i = i - 1;
        }
        None
    }

    /// Sets subscriber `id` to confirmed; confirming an already confirmed
    /// subscriber changes nothing and still succeeds.  Fails, changing
    /// nothing, when the id names no row.
    pub fn confirm(&mut self, id: usize) -> (r: Result<(), StoreError>)
        ensures
            r is Ok <==> id < old(self)@.len(),
            r is Ok ==> final(self)@ == old(self)@.update(
                id as int,
                confirmed_row(old(self)@[id as int]),
            ),
            r matches Err(e) ==> e == StoreError::NotFound && final(self)@ == old(self)@,
    {
        if id >= self.rows.len() {
            return Err(StoreError::NotFound);
        }
        self.rows[id].status = SubscriberStatus::Confirmed;
        Ok(())
    }
}

} // verus!
