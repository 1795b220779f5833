use crate::domain::{new_subscriber_verdict, NewSubscriber, SubscriberEmail, ValidationError};
use crate::store::{has_subscriber, has_token, pending_row, token_row, StoreState, SubscriptionStore};
use crate::token::{generate_subscription_token, is_token_shaped};
use vstd::prelude::*;

verus! {

/// The fields of a signup form.
#[derive(Debug)]
pub struct FormData {
    pub email: String,
    pub name: String,
}

/// A signup as first received: a raw email and name.
#[derive(Debug)]
pub struct Subscription {
    pub email: String,
    pub name: String,
}

/// Why a signup failed.
#[derive(Debug, PartialEq, Eq)]
pub enum SubscribeError {
    /// The email or the name was refused; the text says why.
    ValidationError(String),
    /// Storage or delivery failed; the text says which step.
    UnexpectedError(String),
}

impl SubscribeError {
    /// The HTTP status that reports this error.
    pub fn status_code(&self) -> (r: u16)
        ensures
            r == (if self is ValidationError { 400u16 } else { 500u16 }),
    {
        match self {
            SubscribeError::ValidationError(_) => 400,
            SubscribeError::UnexpectedError(_) => 500,
        }
    }
}

/// The message that asks a new subscriber to confirm.
#[derive(Debug)]
pub struct ConfirmationEmail {
    pub recipient: SubscriberEmail,
    pub subject: String,
    pub html_body: String,
    pub text_body: String,
}

/// The link that redeems `token`.
pub open spec fn confirmation_link(base_url: Seq<char>, token: Seq<char>) -> Seq<char> {
    base_url + "/subscriptions/confirm?subscription_token="@ + token
}

/// The plain-text body of a confirmation email with `link`.
pub open spec fn confirmation_text(link: Seq<char>) -> Seq<char> {
    "Welcome to our newsletter!\nVisit "@ + link + " to confirm your subscription."@
}

/// The HTML body of a confirmation email with `link`.
pub open spec fn confirmation_html(link: Seq<char>) -> Seq<char> {
    "Welcome to our newsletter!<br />Click <a href=\""@ + link + "\">here</a> to confirm your subscription."@
}

/// Whether `m` is the confirmation email to `email` for `token`.
pub open spec fn is_confirmation_email(m: ConfirmationEmail, email: Seq<char>, base_url: Seq<char>, token: Seq<char>) -> bool {
    &&& m.recipient@ == email
    &&& m.subject@ == "Welcome!"@
    &&& m.text_body@ == confirmation_text(confirmation_link(base_url, token))
    &&& m.html_body@ == confirmation_html(confirmation_link(base_url, token))
}

/// The link that redeems `token`, under `base_url`.
pub fn confirmation_link_for(base_url: &str, token: &str) -> (r: String)
    ensures
        r@ == confirmation_link(base_url@, token@),
{
    base_url.to_string().concat("/subscriptions/confirm?subscription_token=").concat(token)
}

/// The confirmation email to `recipient`: an HTML and a plain-text body, each
/// with the link that redeems `token`.
pub fn confirmation_email(recipient: SubscriberEmail, base_url: &str, token: &str) -> (r: ConfirmationEmail)
    ensures
        is_confirmation_email(r, recipient@, base_url@, token@),
{
    let link = confirmation_link_for(base_url, token);
    let text_body = "Welcome to our newsletter!\nVisit ".to_string().concat(link.as_str()).concat(
        " to confirm your subscription.",
    );
    let html_body = "Welcome to our newsletter!<br />Click <a href=\"".to_string().concat(link.as_str()).concat(
        "\">here</a> to confirm your subscription.",
    );
    ConfirmationEmail { recipient, subject: "Welcome!".to_string(), html_body, text_body }
}

/// Validates a signup form into a request, reporting a refusal as a
/// validation error with its explanation.
pub fn parse_form(form: FormData) -> (r: Result<NewSubscriber, SubscribeError>)
    ensures
        r is Ok <==> new_subscriber_verdict(form.email@, form.name@) is Ok,
        r matches Ok(n) ==> n.email@ == form.email@ && n.name@ == form.name@,
        r matches Err(SubscribeError::ValidationError(m)) ==> new_subscriber_verdict(form.email@, form.name@)
            == Err::<(), ValidationError>(validation_error_of(m@)),
        !(r matches Err(SubscribeError::UnexpectedError(_))),
{
    match NewSubscriber::new(form.email, form.name) {
        Ok(n) => Ok(n),
        Err(e) => {
            let m = e.message();
            proof {
                lemma_message_identifies(e);
            }
            Err(SubscribeError::ValidationError(m))
        },
    }
}

/// The validation error whose explanation is `m`.
pub open spec fn validation_error_of(m: Seq<char>) -> ValidationError {
    if m == ValidationError::InvalidEmail.message_spec() {
        ValidationError::InvalidEmail
    } else if m == ValidationError::EmptyName.message_spec() {
        ValidationError::EmptyName
    } else if m == ValidationError::NameTooLong.message_spec() {
        ValidationError::NameTooLong
    } else {
        ValidationError::ForbiddenCharacters
    }
}

proof fn lemma_message_identifies(e: ValidationError)
    ensures
        validation_error_of(e.message_spec()) == e,
{
    reveal_strlit("Invalid email format");
    reveal_strlit("Name cannot be empty or whitespace");
    reveal_strlit("Name cannot be longer than 256 characters");
    reveal_strlit("Name contains forbidden characters");
    assert(ValidationError::InvalidEmail.message_spec()[0] != ValidationError::EmptyName.message_spec()[0]);
    assert(ValidationError::InvalidEmail.message_spec()[0] != ValidationError::NameTooLong.message_spec()[0]);
    assert(ValidationError::InvalidEmail.message_spec()[0] != ValidationError::ForbiddenCharacters.message_spec()[0]);
    assert(ValidationError::EmptyName.message_spec()[15] != ValidationError::NameTooLong.message_spec()[15]);
    assert(ValidationError::EmptyName.message_spec()[6] != ValidationError::ForbiddenCharacters.message_spec()[6]);
    assert(ValidationError::NameTooLong.message_spec()[6] != ValidationError::ForbiddenCharacters.message_spec()[6]);
}

/// The store after a signup of `email` and `name` as subscriber `id` with
/// `token`, created at `at`.
pub open spec fn after_signup(s: StoreState, id: u128, email: Seq<char>, name: Seq<char>, at: i64, token: Seq<char>) -> StoreState {
    s.add_subscriber(pending_row(id, email, name, at)).add_token(token_row(token, id))
}

/// Whether subscriber id `id` or token `token` is already taken in `s`.
pub open spec fn collides(s: StoreState, id: u128, token: Seq<char>) -> bool {
    has_subscriber(s.subscribers, id) || has_token(s.tokens, token)
}

/// Relies on uuid's `Uuid::new_v4` (a random version 4 id), read as a `u128`.
#[verifier::external_body]
fn new_subscriber_id() -> (r: u128) {
    uuid::Uuid::new_v4().as_u128()
}

/// Relies on chrono's `Utc::now`, read as microseconds since the Unix epoch.
#[verifier::external_body]
fn now_micros() -> (r: i64) {
    chrono::Utc::now().timestamp_micros()
}

/// Signs up the subscriber of `form` as `id`, created at `subscribed_at`,
/// with confirmation token `token`: validates the form, then writes the
/// subscriber and its token in one transaction. Only once that is committed
/// is the confirmation email handed back, for the caller to send. On any
/// failure the store is left as it was.
pub fn subscribe_with(
    store: &mut SubscriptionStore,
    form: FormData,
    base_url: &str,
    id: u128,
    token: &str,
    subscribed_at: i64,
) -> (r: Result<ConfirmationEmail, SubscribeError>)
    requires
        old(store).wf(),
    ensures
        final(store).wf(),
        r matches Err(SubscribeError::ValidationError(_)) <==> new_subscriber_verdict(form.email@, form.name@) is Err,
        r matches Err(SubscribeError::ValidationError(m)) ==> new_subscriber_verdict(form.email@, form.name@)
            == Err::<(), ValidationError>(validation_error_of(m@)),
        r is Ok <==> new_subscriber_verdict(form.email@, form.name@) is Ok
            && !has_subscriber(old(store)@.subscribers, id) && !has_token(old(store)@.tokens, token@),
        r matches Ok(m) ==> is_confirmation_email(m, form.email@, base_url@, token@),
        r is Ok ==> final(store)@ == after_signup(old(store)@, id, form.email@, form.name@, subscribed_at, token@),
        r is Err ==> final(store)@ == old(store)@,
{
    let ghost email = form.email@;
    let ghost name = form.name@;
    let new_subscriber = match parse_form(form) {
        Ok(n) => n,
        Err(e) => return Err(e),
    };
    let mut tx = store.begin();
    let ghost empty = tx@;
    match tx.insert_subscriber(store, &new_subscriber, id, subscribed_at) {
        Ok(_) => {},
        Err(_) => {
            proof {
                assert(empty.subscribers =~= Seq::empty());
                assert(store@.subscribers + empty.subscribers =~= store@.subscribers);
            }
            tx.rollback();
            return Err(SubscribeError::UnexpectedError("Failed to insert new subscriber".to_string()));
        },
    }
    let ghost inserted = tx@;
    proof {
        assert(empty.tokens =~= Seq::empty());
        assert(store@.tokens + inserted.tokens =~= store@.tokens);
        assert(inserted.subscribers[0].id == id);
        assert((store@.subscribers + inserted.subscribers)[store@.subscribers.len() as int].id == id);
    }
    match tx.store_token(store, id, token) {
        Ok(()) => {},
        Err(_) => {
            tx.rollback();
            return Err(SubscribeError::UnexpectedError("Failed to store subscription token".to_string()));
        },
    }
    let ghost pending = tx@;
    let ghost before = store@;
    proof {
        assert(pending.subscribers.len() == 1);
        assert(pending.tokens.len() == 1);
        assert forall|j: int| 0 <= j < pending.tokens.len() implies has_subscriber(
            before.subscribers + pending.subscribers,
            (#[trigger] pending.tokens[j]).subscriber_id,
        ) by {
            assert((before.subscribers + pending.subscribers)[before.subscribers.len() as int].id == id);
        }
        assert(before.accepts(pending));
    }
    match store.commit(tx) {
        Ok(()) => {},
        Err(_) => {
            return Err(SubscribeError::UnexpectedError("Failed to commit transaction".to_string()));
        },
    }
    proof {
        assert(store@.subscribers =~= after_signup(before, id, email, name, subscribed_at, token@).subscribers);
        assert(store@.tokens =~= after_signup(before, id, email, name, subscribed_at, token@).tokens);
    }
    Ok(confirmation_email(new_subscriber.email, base_url, token))
}

/// Signs up the subscriber of `form` with a fresh random id and token, created
/// now. A refused form is reported as a validation error; otherwise the
/// subscriber and its token are stored together, pending confirmation, and the
/// confirmation email is handed back, or, should the store refuse the write,
/// nothing is stored.
pub fn subscribe(store: &mut SubscriptionStore, form: FormData, base_url: &str) -> (r: Result<ConfirmationEmail, SubscribeError>)
    requires
        old(store).wf(),
    ensures
        final(store).wf(),
        r matches Err(SubscribeError::ValidationError(_)) <==> new_subscriber_verdict(form.email@, form.name@) is Err,
        r matches Err(SubscribeError::ValidationError(m)) ==> new_subscriber_verdict(form.email@, form.name@)
            == Err::<(), ValidationError>(validation_error_of(m@)),
        r matches Ok(m) ==> exists|id: u128, token: Seq<char>, at: i64|
            is_token_shaped(token) && is_confirmation_email(m, form.email@, base_url@, token)
                && #[trigger] after_signup(old(store)@, id, form.email@, form.name@, at, token) == final(store)@,
        r matches Err(SubscribeError::UnexpectedError(_)) ==> exists|id: u128, token: Seq<char>|
            is_token_shaped(token) && #[trigger] collides(old(store)@, id, token),
        r is Err ==> final(store)@ == old(store)@,
{
    let id = new_subscriber_id();
    let token = generate_subscription_token();
    let at = now_micros();
    let r = subscribe_with(store, form, base_url, id, token.as_str(), at);
    proof {
        if r is Ok {
            assert(after_signup(old(store)@, id, form.email@, form.name@, at, token@) == store@);
        }
        if r matches Err(SubscribeError::UnexpectedError(_)) {
            assert(is_token_shaped(token@) && collides(old(store)@, id, token@));
        }
    }
    r
}

} // verus!
