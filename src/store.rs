use crate::domain::{email_is_valid, NewSubscriber, SubscriberEmail, ValidationError};
use vstd::prelude::*;

verus! {

/// Where a subscriber stands in the double opt-in.
#[derive(Debug, Clone, Copy, PartialEq, Eq, Structural)]
pub enum SubscriptionStatus {
    PendingConfirmation,
    Confirmed,
}

impl SubscriptionStatus {
    /// The label under which the status is stored.
    pub fn as_str(&self) -> (r: &'static str)
        ensures
            r@ == (if *self is Confirmed { "confirmed"@ } else { "pending_confirmation"@ }),
    {
        match self {
            SubscriptionStatus::PendingConfirmation => "pending_confirmation",
            SubscriptionStatus::Confirmed => "confirmed",
        }
    }
}

/// Why the store refused a write.
#[derive(Debug, Clone, Copy, PartialEq, Eq, Structural)]
pub enum StorageError {
    /// A subscriber id or a token is already taken.
    UniqueViolation,
    /// A token names a subscriber that does not exist.
    ForeignKeyViolation,
    /// The backing store could not be reached.
    Unavailable,
}

/// A stored subscriber, as the model sees it.
pub ghost struct SubscriberRow {
    pub id: u128,
    pub email: Seq<char>,
    pub name: Seq<char>,
    pub subscribed_at: i64,
    pub status: SubscriptionStatus,
}

/// A stored confirmation token, as the model sees it.
pub ghost struct TokenRow {
    pub token: Seq<char>,
    pub subscriber_id: u128,
}

/// The two tables of the store.
pub ghost struct StoreState {
    pub subscribers: Seq<SubscriberRow>,
    pub tokens: Seq<TokenRow>,
}

/// A stored subscriber. The email and name are kept as raw text: rows read
/// back are not trusted to be valid.
#[derive(Debug)]
pub struct SubscriberRecord {
    pub id: u128,
    pub email: String,
    pub name: String,
    pub subscribed_at: i64,
    pub status: SubscriptionStatus,
}

impl View for SubscriberRecord {
    type V = SubscriberRow;

    open spec fn view(&self) -> SubscriberRow {
        SubscriberRow {
            id: self.id,
            email: self.email@,
            name: self.name@,
            subscribed_at: self.subscribed_at,
            status: self.status,
        }
    }
}

/// A stored confirmation token and the subscriber that owns it.
#[derive(Debug)]
pub struct TokenRecord {
    pub token: String,
    pub subscriber_id: u128,
}

impl View for TokenRecord {
    type V = TokenRow;

    open spec fn view(&self) -> TokenRow {
        TokenRow { token: self.token@, subscriber_id: self.subscriber_id }
    }
}

/// The rows that stored subscriber records stand for.
pub open spec fn subscriber_rows(v: Seq<SubscriberRecord>) -> Seq<SubscriberRow> {
    v.map_values(|r: SubscriberRecord| r@)
}

/// The rows that stored token records stand for.
pub open spec fn token_rows(v: Seq<TokenRecord>) -> Seq<TokenRow> {
    v.map_values(|r: TokenRecord| r@)
}

/// Whether a subscriber with `id` is among `s`.
pub open spec fn has_subscriber(s: Seq<SubscriberRow>, id: u128) -> bool {
    exists|i: int| 0 <= i < s.len() && (#[trigger] s[i]).id == id
}

/// Whether `token` is among `t`.
pub open spec fn has_token(t: Seq<TokenRow>, token: Seq<char>) -> bool {
    exists|i: int| 0 <= i < t.len() && (#[trigger] t[i]).token == token
}

/// Whether `t` holds `token`, owned by subscriber `id`.
pub open spec fn token_owned_by(t: Seq<TokenRow>, token: Seq<char>, id: u128) -> bool {
    exists|i: int| 0 <= i < t.len() && (#[trigger] t[i]).token == token && t[i].subscriber_id == id
}

/// No two subscribers share an id.
pub open spec fn ids_unique(s: Seq<SubscriberRow>) -> bool {
    forall|i: int, j: int| 0 <= i < s.len() && 0 <= j < s.len() && i != j ==> (#[trigger] s[i]).id != (#[trigger] s[j]).id
}

/// No two token rows share a token.
pub open spec fn tokens_unique(t: Seq<TokenRow>) -> bool {
    forall|i: int, j: int| 0 <= i < t.len() && 0 <= j < t.len() && i != j ==> (#[trigger] t[i]).token != (#[trigger] t[j]).token
}

/// Every token of `t` names a subscriber of `s`.
pub open spec fn tokens_owned(s: Seq<SubscriberRow>, t: Seq<TokenRow>) -> bool {
    forall|j: int| 0 <= j < t.len() ==> has_subscriber(s, (#[trigger] t[j]).subscriber_id)
}

/// The row of a subscriber created from a signup.
pub open spec fn pending_row(id: u128, email: Seq<char>, name: Seq<char>, at: i64) -> SubscriberRow {
    SubscriberRow {
        id,
        email,
        name,
        subscribed_at: at,
        status: SubscriptionStatus::PendingConfirmation,
    }
}

/// A token row.
pub open spec fn token_row(token: Seq<char>, subscriber_id: u128) -> TokenRow {
    TokenRow { token, subscriber_id }
}

/// The outcome of writing `token` for `subscriber_id` where `s` is visible: a
/// token may be used once, and must name an existing subscriber.
pub open spec fn token_write(s: StoreState, subscriber_id: u128, token: Seq<char>) -> Result<(), StorageError> {
    if has_token(s.tokens, token) {
        Err(StorageError::UniqueViolation)
    } else if !has_subscriber(s.subscribers, subscriber_id) {
        Err(StorageError::ForeignKeyViolation)
    } else {
        Ok(())
    }
}

/// `r`, confirmed if it is subscriber `id`.
pub open spec fn confirm_row(r: SubscriberRow, id: u128) -> SubscriberRow {
    if r.id == id {
        SubscriberRow { status: SubscriptionStatus::Confirmed, ..r }
    } else {
        r
    }
}

/// The emails of the confirmed subscribers of `s`, in order.
pub open spec fn confirmed_emails(s: Seq<SubscriberRow>) -> Seq<Seq<char>>
    decreases s.len(),
{
    if s.len() == 0 {
        Seq::empty()
    } else {
        let rest = confirmed_emails(s.drop_last());
        if s.last().status == SubscriptionStatus::Confirmed {
            rest.push(s.last().email)
        } else {
            rest
        }
    }
}

/// Whether `r` is what parsing the raw address `raw` gives.
pub open spec fn parsed_email(r: Result<SubscriberEmail, ValidationError>, raw: Seq<char>) -> bool {
    match r {
        Ok(e) => email_is_valid(raw) && e@ == raw,
        Err(e) => !email_is_valid(raw) && e == ValidationError::InvalidEmail,
    }
}

impl StoreState {
    /// Ids and tokens are unique, and every token belongs to a stored subscriber.
    pub open spec fn wf(self) -> bool {
        &&& ids_unique(self.subscribers)
        &&& tokens_unique(self.tokens)
        &&& tokens_owned(self.subscribers, self.tokens)
    }

    /// The state after subscriber `id` is confirmed.
    pub open spec fn confirm(self, id: u128) -> StoreState {
        StoreState {
            subscribers: self.subscribers.map_values(|r: SubscriberRow| confirm_row(r, id)),
            tokens: self.tokens,
        }
    }

    /// Whether the writes `p` of a transaction can be added to this state.
    pub open spec fn accepts(self, p: StoreState) -> bool {
        &&& forall|k: int| 0 <= k < p.subscribers.len() ==> !has_subscriber(self.subscribers, (#[trigger] p.subscribers[k]).id)
        &&& forall|j: int| 0 <= j < p.tokens.len() ==> !has_token(self.tokens, (#[trigger] p.tokens[j]).token)
        &&& tokens_owned(self.subscribers + p.subscribers, p.tokens)
    }

    /// The error that a commit of `p` reports when this state does not accept it.
    pub open spec fn commit_error(self, p: StoreState) -> StorageError {
        if (exists|k: int| 0 <= k < p.subscribers.len() && has_subscriber(self.subscribers, (#[trigger] p.subscribers[k]).id))
            || (exists|j: int| 0 <= j < p.tokens.len() && has_token(self.tokens, (#[trigger] p.tokens[j]).token)) {
            StorageError::UniqueViolation
        } else {
            StorageError::ForeignKeyViolation
        }
    }

    /// This state with one more subscriber.
    pub open spec fn add_subscriber(self, r: SubscriberRow) -> StoreState {
        StoreState { subscribers: self.subscribers.push(r), tokens: self.tokens }
    }

    /// This state with one more token.
    pub open spec fn add_token(self, t: TokenRow) -> StoreState {
        StoreState { subscribers: self.subscribers, tokens: self.tokens.push(t) }
    }

    /// This state with the writes `p` added.
    pub open spec fn merge(self, p: StoreState) -> StoreState {
        StoreState { subscribers: self.subscribers + p.subscribers, tokens: self.tokens + p.tokens }
    }
}

fn contains_id(rows: &Vec<SubscriberRecord>, id: u128) -> (r: bool)
    ensures
        r == has_subscriber(subscriber_rows(rows@), id),
{
    let mut i: usize = 0;
    while i < rows.len()
        invariant
            i <= rows@.len(),
            forall|k: int| 0 <= k < i ==> (#[trigger] rows@[k]).id != id,
        decreases rows@.len() - i,
    {
        if rows[i].id == id {
            assert(subscriber_rows(rows@)[i as int].id == id);
            return true;
        }
        i = i + 1;
    }
    assert forall|k: int| 0 <= k < subscriber_rows(rows@).len() implies (#[trigger] subscriber_rows(rows@)[k]).id != id by {
        assert(rows@[k].id != id);
    }
    false
}

fn contains_token(rows: &Vec<TokenRecord>, token: &String) -> (r: bool)
    ensures
        r == has_token(token_rows(rows@), token@),
{
    let mut i: usize = 0;
    while i < rows.len()
        invariant
            i <= rows@.len(),
            forall|k: int| 0 <= k < i ==> (#[trigger] rows@[k]).token@ != token@,
        decreases rows@.len() - i,
    {
        if rows[i].token == *token {
            assert(token_rows(rows@)[i as int].token == token@);
            return true;
        }
        i = i + 1;
    }
    assert forall|k: int| 0 <= k < token_rows(rows@).len() implies (#[trigger] token_rows(rows@)[k]).token != token@ by {
        assert(rows@[k].token@ != token@);
    }
    false
}

/// A unit of atomic work: the rows it will add. Until it is committed nothing
/// of it is visible; abandoning it writes nothing.
#[derive(Debug)]
pub struct Transaction {
    subscribers: Vec<SubscriberRecord>,
    tokens: Vec<TokenRecord>,
}

impl View for Transaction {
    type V = StoreState;

    closed spec fn view(&self) -> StoreState {
        StoreState { subscribers: subscriber_rows(self.subscribers@), tokens: token_rows(self.tokens@) }
    }
}

/// The subscribers and their confirmation tokens.
#[derive(Debug)]
pub struct SubscriptionStore {
    subscribers: Vec<SubscriberRecord>,
    tokens: Vec<TokenRecord>,
}

impl View for SubscriptionStore {
    type V = StoreState;

    closed spec fn view(&self) -> StoreState {
        StoreState { subscribers: subscriber_rows(self.subscribers@), tokens: token_rows(self.tokens@) }
    }
}

impl Transaction {
    /// The pending ids and tokens are unique among themselves.
    pub open spec fn wf(&self) -> bool {
        ids_unique(self@.subscribers) && tokens_unique(self@.tokens)
    }

    /// Adds a subscriber with status pending confirmation, unless `id` is
    /// already taken in `store` or in this transaction.
    pub fn insert_subscriber(
        &mut self,
        store: &SubscriptionStore,
        new_subscriber: &NewSubscriber,
        id: u128,
        subscribed_at: i64,
    ) -> (r: Result<u128, StorageError>)
        requires
            old(self).wf(),
        ensures
            final(self).wf(),
            r is Ok <==> !has_subscriber(store@.subscribers + old(self)@.subscribers, id),
            r matches Ok(v) ==> v == id && final(self)@ == old(self)@.add_subscriber(
                pending_row(id, new_subscriber.email@, new_subscriber.name@, subscribed_at),
            ),
            r matches Err(e) ==> e == StorageError::UniqueViolation && final(self)@ == old(self)@,
    {
        let taken_before = contains_id(&store.subscribers, id);
        let taken_here = contains_id(&self.subscribers, id);
        proof {
            lemma_has_subscriber_concat(store@.subscribers, self@.subscribers, id);
        }
        if taken_before || taken_here {
            return Err(StorageError::UniqueViolation);
        }
        let record = SubscriberRecord {
            id: id,
            email: new_subscriber.email.as_ref().to_string(),
            name: new_subscriber.name.as_ref().to_string(),
            subscribed_at,
            status: SubscriptionStatus::PendingConfirmation,
        };
        let ghost before = self.subscribers@;
        self.subscribers.push(record);
        proof {
            assert(subscriber_rows(self.subscribers@) =~= subscriber_rows(before).push(record@));
        }
        Ok(id)
    }

    /// Adds a confirmation token for subscriber `subscriber_id`, unless the
    /// token is already taken, or no such subscriber is in `store` or in this
    /// transaction.
    pub fn store_token(
        &mut self,
        store: &SubscriptionStore,
        subscriber_id: u128,
        token: &str,
    ) -> (r: Result<(), StorageError>)
        requires
            old(self).wf(),
        ensures
            final(self).wf(),
            r == token_write(store@.merge(old(self)@), subscriber_id, token@),
            r is Ok ==> final(self)@ == old(self)@.add_token(token_row(token@, subscriber_id)),
            r is Err ==> final(self)@ == old(self)@,
    {
        let token = token.to_string();
        let taken_before = contains_token(&store.tokens, &token);
        let taken_here = contains_token(&self.tokens, &token);
        proof {
            lemma_has_token_concat(store@.tokens, self@.tokens, token@);
            lemma_has_subscriber_concat(store@.subscribers, self@.subscribers, subscriber_id);
        }
        if taken_before || taken_here {
            return Err(StorageError::UniqueViolation);
        }
        let owner_before = contains_id(&store.subscribers, subscriber_id);
        let owner_here = contains_id(&self.subscribers, subscriber_id);
        if !owner_before && !owner_here {
            return Err(StorageError::ForeignKeyViolation);
        }
        let record = TokenRecord { token, subscriber_id };
        let ghost before = self.tokens@;
        self.tokens.push(record);
        proof {
            assert(token_rows(self.tokens@) =~= token_rows(before).push(record@));
        }
        Ok(())
    }

    /// Abandons the transaction: nothing of it is written.
    pub fn rollback(self) {
    }
}

impl SubscriptionStore {
    /// Ids and tokens are unique, and every token belongs to a stored subscriber.
    pub open spec fn wf(&self) -> bool {
        self@.wf()
    }

    /// An empty store.
    pub fn new() -> (r: SubscriptionStore)
        ensures
            r.wf(),
            r@.subscribers.len() == 0,
            r@.tokens.len() == 0,
    {
        let r = SubscriptionStore { subscribers: Vec::new(), tokens: Vec::new() };
        assert(r@.subscribers =~= Seq::empty());
        assert(r@.tokens =~= Seq::empty());
        r
    }

    /// Opens a transaction with no writes yet.
    pub fn begin(&self) -> (r: Transaction)
        ensures
            r.wf(),
            r@.subscribers.len() == 0,
            r@.tokens.len() == 0,
    {
        let r = Transaction { subscribers: Vec::new(), tokens: Vec::new() };
        assert(r@.subscribers =~= Seq::empty());
        assert(r@.tokens =~= Seq::empty());
        r
    }

    /// Makes the writes of `tx` visible, all of them or, when an id or a
    /// token is taken by now or a token names no subscriber, none.
    pub fn commit(&mut self, tx: Transaction) -> (r: Result<(), StorageError>)
        requires
            old(self).wf(),
            tx.wf(),
        ensures
            final(self).wf(),
            r is Ok <==> old(self)@.accepts(tx@),
            r is Ok ==> final(self)@ == old(self)@.merge(tx@),
            r matches Err(e) ==> e == old(self)@.commit_error(tx@) && final(self)@ == old(self)@,
    {
        let ghost p = tx@;
        let ghost start = self@;
        let mut k: usize = 0;
        while k < tx.subscribers.len()
            invariant
                k <= tx.subscribers@.len(),
                p == tx@,
                self@ == start,
                start == old(self)@,
                start.wf(),
                forall|kk: int| 0 <= kk < k ==> !has_subscriber(self@.subscribers, (#[trigger] p.subscribers[kk]).id),
            decreases tx.subscribers@.len() - k,
        {
            if contains_id(&self.subscribers, tx.subscribers[k].id) {
                assert(has_subscriber(self@.subscribers, p.subscribers[k as int].id));
                return Err(StorageError::UniqueViolation);
            }
            k = k + 1;
        }
        let mut j: usize = 0;
        while j < tx.tokens.len()
            invariant
                j <= tx.tokens@.len(),
                p == tx@,
                self@ == start,
                start == old(self)@,
                start.wf(),
                forall|kk: int| 0 <= kk < p.subscribers.len() ==> !has_subscriber(self@.subscribers, (#[trigger] p.subscribers[kk]).id),
                forall|jj: int| 0 <= jj < j ==> !has_token(self@.tokens, (#[trigger] p.tokens[jj]).token),
            decreases tx.tokens@.len() - j,
        {
            if contains_token(&self.tokens, &tx.tokens[j].token) {
                assert(has_token(self@.tokens, p.tokens[j as int].token));
                return Err(StorageError::UniqueViolation);
            }
            j = j + 1;
        }
        j = 0;
        while j < tx.tokens.len()
            invariant
                j <= tx.tokens@.len(),
                p == tx@,
                self@ == start,
                start == old(self)@,
                start.wf(),
                forall|kk: int| 0 <= kk < p.subscribers.len() ==> !has_subscriber(self@.subscribers, (#[trigger] p.subscribers[kk]).id),
                forall|jj: int| 0 <= jj < p.tokens.len() ==> !has_token(self@.tokens, (#[trigger] p.tokens[jj]).token),
                forall|jj: int| 0 <= jj < j ==> has_subscriber(self@.subscribers + p.subscribers, (#[trigger] p.tokens[jj]).subscriber_id),
            decreases tx.tokens@.len() - j,
        {
            let owner = tx.tokens[j].subscriber_id;
            let known = contains_id(&self.subscribers, owner) || contains_id(&tx.subscribers, owner);
            proof {
                lemma_has_subscriber_concat(self@.subscribers, p.subscribers, owner);
            }
            if !known {
                assert(!has_subscriber(self@.subscribers + p.subscribers, p.tokens[j as int].subscriber_id));
                return Err(StorageError::ForeignKeyViolation);
            }
            j = j + 1;
        }
        let ghost before = self@;
        proof {
            lemma_merge_wf(before, p);
        }
        let Transaction { subscribers: mut new_subscribers, tokens: mut new_tokens } = tx;
        let ghost old_subscribers = self.subscribers@;
        let ghost old_tokens = self.tokens@;
        self.subscribers.append(&mut new_subscribers);
        self.tokens.append(&mut new_tokens);
        proof {
            assert(subscriber_rows(self.subscribers@) =~= before.subscribers + p.subscribers);
            assert(token_rows(self.tokens@) =~= before.tokens + p.tokens);
        }
        Ok(())
    }

    /// The stored subscribers, in order of creation.
    pub fn subscribers(&self) -> (r: &Vec<SubscriberRecord>)
        ensures
            subscriber_rows(r@) == self@.subscribers,
    {
        &self.subscribers
    }

    /// The stored confirmation tokens, in order of creation.
    pub fn tokens(&self) -> (r: &Vec<TokenRecord>)
        ensures
            token_rows(r@) == self@.tokens,
    {
        &self.tokens
    }

    /// The subscriber that owns `token`, or none when the token is unknown.
    pub fn resolve_token(&self, token: &str) -> (r: Option<u128>)
        requires
            self.wf(),
        ensures
            r is None <==> !has_token(self@.tokens, token@),
            r matches Some(id) ==> token_owned_by(self@.tokens, token@, id),
    {
        let wanted = token.to_string();
        let mut i: usize = 0;
        while i < self.tokens.len()
            invariant
                i <= self.tokens@.len(),
                wanted@ == token@,
                forall|k: int| 0 <= k < i ==> (#[trigger] self.tokens@[k]).token@ != token@,
            decreases self.tokens@.len() - i,
        {
            if self.tokens[i].token == wanted {
                assert(self@.tokens[i as int].token == token@);
                return Some(self.tokens[i].subscriber_id);
            }
            i = i + 1;
        }
        assert forall|k: int| 0 <= k < self@.tokens.len() implies (#[trigger] self@.tokens[k]).token != token@ by {
            assert(self.tokens@[k].token@ != token@);
        }
        None
    }

    /// Marks subscriber `id` confirmed. Confirming again, or an id that is not
    /// stored, changes nothing and is no error.
    pub fn confirm_subscriber(&mut self, id: u128)
        requires
            old(self).wf(),
        ensures
            final(self).wf(),
            final(self)@ == old(self)@.confirm(id),
    {
        let ghost start = self.subscribers@;
        let mut i: usize = 0;
        while i < self.subscribers.len()
            invariant
                i <= self.subscribers@.len(),
                start == old(self).subscribers@,
                self.tokens@ == old(self).tokens@,
                self.subscribers@.len() == start.len(),
                forall|k: int| 0 <= k < start.len() ==> (#[trigger] self.subscribers@[k])@ == (if k < i {
                    confirm_row(start[k]@, id)
                } else {
                    start[k]@
                }),
            decreases self.subscribers@.len() - i,
        {
            if self.subscribers[i].id == id {
                let record = SubscriberRecord {
                    id: self.subscribers[i].id,
                    email: self.subscribers[i].email.clone(),
                    name: self.subscribers[i].name.clone(),
                    subscribed_at: self.subscribers[i].subscribed_at,
                    status: SubscriptionStatus::Confirmed,
                };
                self.subscribers.set(i, record);
            }
            i = i + 1;
        }
        proof {
            let before = subscriber_rows(start);
            assert(subscriber_rows(self.subscribers@) =~= before.map_values(|r: SubscriberRow| confirm_row(r, id)));
            lemma_confirm_keeps_ids(before, id);
        }
    }

    /// The stored address of every confirmed subscriber, in store order, each
    /// parsed again: a stored address that is no longer valid gives an error
    /// in its place.
    pub fn list_confirmed(&self) -> (r: Vec<Result<SubscriberEmail, ValidationError>>)
        ensures
            r@.len() == confirmed_emails(self@.subscribers).len(),
            forall|i: int| 0 <= i < r@.len() ==> parsed_email(#[trigger] r@[i], confirmed_emails(self@.subscribers)[i]),
    {
        let ghost rows = self@.subscribers;
        let mut out: Vec<Result<SubscriberEmail, ValidationError>> = Vec::new();
        let mut i: usize = 0;
        while i < self.subscribers.len()
            invariant
                i <= self.subscribers@.len(),
                rows == self@.subscribers,
                out@.len() == confirmed_emails(rows.take(i as int)).len(),
                forall|k: int| 0 <= k < out@.len() ==> parsed_email(#[trigger] out@[k], confirmed_emails(rows.take(i as int))[k]),
            decreases self.subscribers@.len() - i,
        {
            proof {
                assert(rows.take(i + 1).drop_last() =~= rows.take(i as int));
                assert(rows.take(i + 1).last() == rows[i as int]);
            }
            if self.subscribers[i].status == SubscriptionStatus::Confirmed {
                let parsed = SubscriberEmail::parse(self.subscribers[i].email.clone());
                out.push(parsed);
            }
            i = i + 1;
        }
        proof {
            assert(rows.take(rows.len() as int) =~= rows);
        }
        out
    }
}

/// Confirmation is idempotent: confirming a subscriber a second time leaves
/// the store as the first time left it. The token that named the subscriber
/// still names it afterwards, so a second redemption succeeds too, and the
/// subscriber's row is then confirmed.
pub proof fn lemma_confirm_idempotent(s: StoreState, token: Seq<char>, id: u128)
    requires
        s.wf(),
        token_owned_by(s.tokens, token, id),
    ensures
        s.confirm(id).wf(),
        s.confirm(id).confirm(id) == s.confirm(id),
        token_owned_by(s.confirm(id).tokens, token, id),
        has_token(s.confirm(id).tokens, token),
        exists|i: int|
            0 <= i < s.confirm(id).subscribers.len() && (#[trigger] s.confirm(id).subscribers[i]).id == id
                && s.confirm(id).subscribers[i].status == SubscriptionStatus::Confirmed,
{
    let c = s.confirm(id);
    lemma_confirm_keeps_ids(s.subscribers, id);
    assert(c.confirm(id).subscribers =~= c.subscribers);
    let j = choose|j: int| 0 <= j < s.tokens.len() && (#[trigger] s.tokens[j]).token == token && s.tokens[j].subscriber_id == id;
    assert(has_subscriber(s.subscribers, s.tokens[j].subscriber_id));
    let i = choose|i: int| 0 <= i < s.subscribers.len() && (#[trigger] s.subscribers[i]).id == id;
    assert(c.subscribers[i].id == id);
}

proof fn lemma_confirm_keeps_ids(s: Seq<SubscriberRow>, id: u128)
    ensures
        forall|x: u128| has_subscriber(s.map_values(|r: SubscriberRow| confirm_row(r, id)), x) == #[trigger] has_subscriber(s, x),
        ids_unique(s) ==> ids_unique(s.map_values(|r: SubscriberRow| confirm_row(r, id))),
{
    let t = s.map_values(|r: SubscriberRow| confirm_row(r, id));
    assert forall|x: u128| has_subscriber(t, x) == #[trigger] has_subscriber(s, x) by {
        if has_subscriber(s, x) {
            let i = choose|i: int| 0 <= i < s.len() && (#[trigger] s[i]).id == x;
            assert(t[i].id == x);
        }
        if has_subscriber(t, x) {
            let i = choose|i: int| 0 <= i < t.len() && (#[trigger] t[i]).id == x;
            assert(s[i].id == x);
        }
    }
    if ids_unique(s) {
        assert forall|i: int, j: int| 0 <= i < t.len() && 0 <= j < t.len() && i != j implies (#[trigger] t[i]).id != (#[trigger] t[j]).id by {
            assert(s[i].id != s[j].id);
        }
    }
}

proof fn lemma_merge_wf(s: StoreState, p: StoreState)
    requires
        s.wf(),
        ids_unique(p.subscribers),
        tokens_unique(p.tokens),
        s.accepts(p),
    ensures
        s.merge(p).wf(),
{
    let a = s.subscribers;
    let b = p.subscribers;
    let ab = a + b;
    assert forall|i: int, j: int| 0 <= i < ab.len() && 0 <= j < ab.len() && i != j implies (#[trigger] ab[i]).id != (#[trigger] ab[j]).id by {
        if i < a.len() && j >= a.len() {
            assert(!has_subscriber(a, b[j - a.len()].id));
            assert(a[i].id != b[j - a.len()].id);
        } else if i >= a.len() && j < a.len() {
            assert(!has_subscriber(a, b[i - a.len()].id));
            assert(a[j].id != b[i - a.len()].id);
        } else if i >= a.len() && j >= a.len() {
            assert(b[i - a.len()].id != b[j - a.len()].id);
        } else {
            assert(a[i].id != a[j].id);
        }
    }
    let ta = s.tokens;
    let tb = p.tokens;
    let tab = ta + tb;
    assert forall|i: int, j: int| 0 <= i < tab.len() && 0 <= j < tab.len() && i != j implies (#[trigger] tab[i]).token != (#[trigger] tab[j]).token by {
        if i < ta.len() && j >= ta.len() {
            assert(!has_token(ta, tb[j - ta.len()].token));
            assert(ta[i].token != tb[j - ta.len()].token);
        } else if i >= ta.len() && j < ta.len() {
            assert(!has_token(ta, tb[i - ta.len()].token));
            assert(ta[j].token != tb[i - ta.len()].token);
        } else if i >= ta.len() && j >= ta.len() {
            assert(tb[i - ta.len()].token != tb[j - ta.len()].token);
        } else {
            assert(ta[i].token != ta[j].token);
        }
    }
    assert forall|j: int| 0 <= j < tab.len() implies has_subscriber(ab, (#[trigger] tab[j]).subscriber_id) by {
        lemma_has_subscriber_concat(a, b, tab[j].subscriber_id);
        if j < ta.len() {
            assert(has_subscriber(a, ta[j].subscriber_id));
        } else {
            assert(has_subscriber(ab, tb[j - ta.len()].subscriber_id));
        }
    }
}

proof fn lemma_has_subscriber_concat(a: Seq<SubscriberRow>, b: Seq<SubscriberRow>, id: u128)
    ensures
        has_subscriber(a + b, id) == (has_subscriber(a, id) || has_subscriber(b, id)),
{
    if has_subscriber(a + b, id) {
        let i = choose|i: int| 0 <= i < (a + b).len() && (#[trigger] (a + b)[i]).id == id;
        if i < a.len() {
            assert(a[i].id == id);
        } else {
            assert(b[i - a.len()].id == id);
        }
    }
    if has_subscriber(a, id) {
        let i = choose|i: int| 0 <= i < a.len() && (#[trigger] a[i]).id == id;
        assert((a + b)[i].id == id);
    }
    if has_subscriber(b, id) {
        let i = choose|i: int| 0 <= i < b.len() && (#[trigger] b[i]).id == id;
        assert((a + b)[i + a.len()].id == id);
    }
}

proof fn lemma_has_token_concat(a: Seq<TokenRow>, b: Seq<TokenRow>, token: Seq<char>)
    ensures
        has_token(a + b, token) == (has_token(a, token) || has_token(b, token)),
{
    if has_token(a + b, token) {
        let i = choose|i: int| 0 <= i < (a + b).len() && (#[trigger] (a + b)[i]).token == token;
        if i < a.len() {
            assert(a[i].token == token);
        } else {
            assert(b[i - a.len()].token == token);
        }
    }
    if has_token(a, token) {
        let i = choose|i: int| 0 <= i < a.len() && (#[trigger] a[i]).token == token;
        assert((a + b)[i].token == token);
    }
    if has_token(b, token) {
        let i = choose|i: int| 0 <= i < b.len() && (#[trigger] b[i]).token == token;
        assert((a + b)[i + a.len()].token == token);
    }
}

} // verus!
