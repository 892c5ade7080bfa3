//! What can go wrong, and where the web flow sends the user for each.

use vstd::prelude::*;

verus! {

#[derive(Debug)]
pub enum AppError {
    /// The token is unknown, used up or past its lifetime.
    VerificationExpired,
    /// The account linked during the flow is not the one that asked.
    WrongDiscordAccount,
    /// The single-sign-on account is already linked to another account.
    AlreadyLinkedToDifferentAccount,
    /// The linking step ended without a linked account.
    DiscordNotLinked,
    /// An account is already bound to a different counterpart; it has to be
    /// unlinked first.
    IdentityConflict,
    /// The server is not set up for what was asked.
    Misconfiguration(String),
    /// The identity provider could not be reached or refused the call.
    KeycloakError(String),
    /// The store could not be reached or refused the call.
    RedisError(String),
    /// Anything else.
    InternalError(String),
}

/// The page that the web flow redirects to for each error.
pub open spec fn error_path(e: AppError) -> Seq<char> {
    match e {
        AppError::VerificationExpired => "/error?msg=expired"@,
        AppError::WrongDiscordAccount => "/error?msg=wrong_account"@,
        AppError::AlreadyLinkedToDifferentAccount => "/error?msg=already_linked"@,
        AppError::DiscordNotLinked => "/error?msg=not_linked"@,
        AppError::IdentityConflict => "/error?msg=already_linked"@,
        _ => "/error?msg=server_error"@,
    }
}

impl AppError {
    pub fn redirect_path(&self) -> (r: &'static str)
        ensures
            r@ == error_path(*self),
    {
        match self {
            AppError::VerificationExpired => "/error?msg=expired",
            AppError::WrongDiscordAccount => "/error?msg=wrong_account",
            AppError::AlreadyLinkedToDifferentAccount => "/error?msg=already_linked",
            AppError::DiscordNotLinked => "/error?msg=not_linked",
            AppError::IdentityConflict => "/error?msg=already_linked",
            _ => "/error?msg=server_error",
        }
    }

}

} // verus!
