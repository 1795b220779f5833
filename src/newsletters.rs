use crate::domain::{SubscriberEmail, ValidationError};
use crate::store::parsed_email;
use vstd::prelude::*;

verus! {

/// The two bodies of a newsletter issue.
#[derive(Debug)]
pub struct Content {
    pub html: String,
    pub text: String,
}

/// A newsletter issue to publish.
#[derive(Debug)]
pub struct BodyData {
    pub title: String,
    pub content: Content,
}

/// Why a publication failed.
#[derive(Debug, PartialEq, Eq)]
pub enum PublishError {
    /// Reading the recipients or sending an issue failed; the text says which.
    UnexpectedError(String),
}

impl PublishError {
    /// The HTTP status that reports this error.
    pub fn status_code(&self) -> (r: u16)
        ensures
            r == 500,
    {
        500
    }
}

/// The error that ends a publication when the issue cannot be sent to
/// `recipient`.
pub fn delivery_failure(recipient: &SubscriberEmail) -> (r: PublishError)
    ensures
        r matches PublishError::UnexpectedError(m) && m@ == "Failed to send newsletter issue to "@ + recipient@,
{
    PublishError::UnexpectedError("Failed to send newsletter issue to ".to_string().concat(recipient.as_ref()))
}

/// Parses each stored address of a confirmed subscriber again, keeping the
/// order: an address that is no longer valid gives an error in its place.
pub fn confirmed_recipients(stored: &Vec<String>) -> (r: Vec<Result<SubscriberEmail, ValidationError>>)
    ensures
        r@.len() == stored@.len(),
        forall|i: int| 0 <= i < r@.len() ==> parsed_email(#[trigger] r@[i], stored@[i]@),
{
    let mut out: Vec<Result<SubscriberEmail, ValidationError>> = Vec::new();
    let mut i: usize = 0;
    while i < stored.len()
        invariant
            i <= stored@.len(),
            out@.len() == i,
            forall|k: int| 0 <= k < i ==> parsed_email(#[trigger] out@[k], stored@[k]@),
        decreases stored@.len() - i,
    {
        out.push(SubscriberEmail::parse(stored[i].clone()));
        i = i + 1;
    }
    out
}

/// What a publication does next.
#[derive(Debug)]
pub enum PublishStep {
    /// Send the issue to this recipient; if that fails, the publication ends.
    Send(SubscriberEmail),
    /// Pass over the recipient at this position, whose stored address is
    /// invalid, with a warning.
    Skip(usize, ValidationError),
    /// Every recipient has been handled.
    Done,
}

/// A publication of one issue to a list of recipients, some of whose stored
/// addresses may be invalid. It hands out one step per recipient, in order.
#[derive(Debug)]
pub struct PublishRun {
    recipients: Vec<Result<SubscriberEmail, ValidationError>>,
    position: usize,
}

/// The step that recipient `r` at position `i` calls for.
pub open spec fn step_for(r: Result<SubscriberEmail, ValidationError>, i: int, s: PublishStep) -> bool {
    match r {
        Ok(e) => s matches PublishStep::Send(f) && f@ == e@,
        Err(v) => s matches PublishStep::Skip(j, w) && j == i && w == v,
    }
}

impl PublishRun {
    #[verifier::type_invariant]
    closed spec fn inv(self) -> bool {
        self.position <= self.recipients@.len()
    }

    /// The recipients, in the order in which they are handled.
    pub closed spec fn recipients(&self) -> Seq<Result<SubscriberEmail, ValidationError>> {
        self.recipients@
    }

    /// How many recipients have been handled.
    pub closed spec fn position(&self) -> nat {
        self.position as nat
    }

    /// A run that starts at the first recipient.
    pub fn new(recipients: Vec<Result<SubscriberEmail, ValidationError>>) -> (r: PublishRun)
        ensures
            r.recipients() == recipients@,
            r.position() == 0,
    {
        PublishRun { recipients, position: 0 }
    }

    /// The step for the next recipient: sending to a valid address, passing
    /// over an invalid one; then `Done`, once all are handled.
    pub fn next_step(&mut self) -> (r: PublishStep)
        ensures
            final(self).recipients() == old(self).recipients(),
            final(self).position() <= final(self).recipients().len(),
            old(self).position() < old(self).recipients().len() ==> final(self).position() == old(self).position() + 1
                && step_for(old(self).recipients()[old(self).position() as int], old(self).position() as int, r),
            old(self).position() >= old(self).recipients().len() ==> r is Done && final(self).position()
                == old(self).position(),
    {
        proof {
            use_type_invariant(&*self);
        }
        if self.position >= self.recipients.len() {
            return PublishStep::Done;
        }
        let i = self.position;
        let step = match &self.recipients[i] {
            Ok(e) => PublishStep::Send(e.clone()),
            Err(v) => PublishStep::Skip(i, *v),
        };
        self.position = i + 1;
        step
    }
}

} // verus!
