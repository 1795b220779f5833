use crate::store::{has_token, token_owned_by, StorageError, SubscriptionStore};
use vstd::prelude::*;

verus! {

/// The query of a confirmation link.
#[derive(Debug)]
pub struct Parameters {
    pub subscription_token: String,
}

/// Why a confirmation failed.
#[derive(Debug, PartialEq, Eq)]
pub enum ConfirmationError {
    /// The store failed; the text says at which step.
    UnexpectedError(String),
    /// No subscriber has the token.
    UnknownToken,
}

impl ConfirmationError {
    /// The HTTP status that reports this error.
    pub fn status_code(&self) -> (r: u16)
        ensures
            r == (if self is UnknownToken { 401u16 } else { 500u16 }),
    {
        match self {
            ConfirmationError::UnexpectedError(_) => 500,
            ConfirmationError::UnknownToken => 401,
        }
    }
}

/// Decides, from the lookup of a token, which subscriber to confirm: a failed
/// lookup is an unexpected error, an unknown token is reported as such.
pub fn confirmation_target(lookup: Result<Option<u128>, StorageError>) -> (r: Result<u128, ConfirmationError>)
    ensures
        lookup is Err ==> r matches Err(ConfirmationError::UnexpectedError(_)),
        lookup matches Ok(None) ==> r == Err::<u128, ConfirmationError>(ConfirmationError::UnknownToken),
        lookup matches Ok(Some(id)) ==> r == Ok::<u128, ConfirmationError>(id),
{
    match lookup {
        Err(_) => Err(ConfirmationError::UnexpectedError("Failed to retrieve subscriber id from token".to_string())),
        Ok(None) => Err(ConfirmationError::UnknownToken),
        Ok(Some(id)) => Ok(id),
    }
}

/// Redeems the token of `params`: confirms the subscriber that owns it, or
/// reports an unknown token and changes nothing. Redeeming a token again
/// succeeds again.
pub fn confirm(store: &mut SubscriptionStore, params: &Parameters) -> (r: Result<(), ConfirmationError>)
    requires
        old(store).wf(),
    ensures
        final(store).wf(),
        r is Ok <==> has_token(old(store)@.tokens, params.subscription_token@),
        r is Err ==> r == Err::<(), ConfirmationError>(ConfirmationError::UnknownToken) && final(store)@ == old(store)@,
        r is Ok ==> exists|id: u128|
            token_owned_by(old(store)@.tokens, params.subscription_token@, id) && #[trigger] old(store)@.confirm(id)
                == final(store)@,
{
    let lookup = store.resolve_token(params.subscription_token.as_str());
    let id = match confirmation_target(Ok(lookup)) {
        Ok(id) => id,
        Err(e) => return Err(e),
    };
    store.confirm_subscriber(id);
    Ok(())
}

} // verus!
