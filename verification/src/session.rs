//! Session bootstrap: load the stored credential, or register and
//! authenticate and persist the result.
//!
//! The bootstrap is a state machine.  Every step that touches the outside
//! world — reading the store, prompting the user, calling the server — is an
//! action the caller performs; the caller reports what happened as an event,
//! and [`bootstrap_step`] decides the next state and the next action.  An
//! absent stored credential triggers the authorization flow; every other
//! failure aborts the run with a diagnostic.
use vstd::prelude::*;
use crate::auth::{
    ExchangeError, PendingRegistration, RegistrationError, RegistrationRequest,
    client_name_spec, redirect_target_spec, registration_request, requested_scopes_spec,
    website_spec,
};
use crate::credential::{Credential, LoadError, StoreError};

verus! {

/// Why the bootstrap aborted.
#[derive(Clone, Copy, Debug, PartialEq, Eq, Structural)]
pub enum BootstrapFailure {
    /// A credential is stored but unreadable.  Surfaced as a failure, never
    /// silently papered over by a fresh registration.
    CorruptCredential,
    /// The client registration failed.
    Registration(RegistrationError),
    /// The authorization code exchange failed.
    Exchange(ExchangeError),
    /// The fresh credential could not be persisted.
    Store,
}

/// Where the bootstrap stands.
pub enum BootstrapState {
    /// The stored credential is being read.
    LoadingCredential,
    /// No credential was stored; the user is being asked for a server name.
    AwaitingServerName,
    /// The registration request is on its way to the server.
    AwaitingRegistration { request: RegistrationRequest },
    /// The user is authorizing the client; the grant is being exchanged.
    AwaitingGrant { pending: PendingRegistration },
    /// The fresh credential is being persisted.
    SavingCredential { credential: Credential },
    /// Bootstrap finished: the session runs with this credential.
    Ready { credential: Credential },
    /// Bootstrap failed.
    Failed { failure: BootstrapFailure },
}

/// What the caller reports back after performing an action.
pub enum BootstrapEvent {
    /// The outcome of reading the store.
    CredentialLoaded(Result<Credential, LoadError>),
    /// The server name the user entered.
    ServerNameEntered(String),
    /// The outcome of the registration call.
    RegistrationCompleted(Result<PendingRegistration, RegistrationError>),
    /// The outcome of the authorization and code exchange.
    GrantExchanged(Result<Credential, ExchangeError>),
    /// The outcome of persisting the credential.
    CredentialSaved(Result<(), StoreError>),
}

/// What the caller must do next.
pub enum BootstrapAction {
    /// Read the stored credential and report [`BootstrapEvent::CredentialLoaded`].
    LoadCredential,
    /// Ask the user for a server name and report [`BootstrapEvent::ServerNameEntered`].
    PromptServerName,
    /// Register this request with its server and report
    /// [`BootstrapEvent::RegistrationCompleted`].
    RegisterClient { request: RegistrationRequest },
    /// Surface the pending registration's authorization URL (a failure to
    /// open a browser is not fatal: the URL can equally be printed), obtain
    /// the user's code, exchange it, and report
    /// [`BootstrapEvent::GrantExchanged`].
    RequestGrant { pending: PendingRegistration },
    /// Persist this credential and report [`BootstrapEvent::CredentialSaved`].
    SaveCredential { credential: Credential },
    /// Bootstrap is done: run the session with this credential.
    UseCredential { credential: Credential },
    /// Bootstrap failed: abort the run with this failure's diagnostic.
    Abort { failure: BootstrapFailure },
}

/// Whether an event is the report for the action the state is waiting on.
pub open spec fn event_fits(state: BootstrapState, event: BootstrapEvent) -> bool {
    match (state, event) {
        (BootstrapState::LoadingCredential, BootstrapEvent::CredentialLoaded(_)) => true,
        (BootstrapState::AwaitingServerName, BootstrapEvent::ServerNameEntered(_)) => true,
        (
            BootstrapState::AwaitingRegistration { .. },
            BootstrapEvent::RegistrationCompleted(_),
        ) => true,
        (BootstrapState::AwaitingGrant { .. }, BootstrapEvent::GrantExchanged(_)) => true,
        (BootstrapState::SavingCredential { .. }, BootstrapEvent::CredentialSaved(_)) => true,
        _ => false,
    }
}

/// The bootstrap's first state and action: read the store.
pub fn bootstrap_start() -> (r: (BootstrapState, BootstrapAction))
    ensures
        r.0 is LoadingCredential,
        r.1 is LoadCredential,
{
    (BootstrapState::LoadingCredential, BootstrapAction::LoadCredential)
}

/// One step of the bootstrap: from the current state and the reported event
/// to the next state and the next action.
///
/// A loaded credential is used as it is.  An absent one is no error: it
/// starts the authorization flow.  A corrupt one, and every failure of
/// registration, exchange or persisting, aborts.  A fresh credential is
/// persisted before the session starts.
pub fn bootstrap_step(state: BootstrapState, event: BootstrapEvent) -> (r: (
    BootstrapState,
    BootstrapAction,
))
    requires
        event_fits(state, event),
    ensures
        match (state, event) {
            (BootstrapState::LoadingCredential, BootstrapEvent::CredentialLoaded(res)) => match res {
                Ok(c) => {
                    &&& (r.0 matches BootstrapState::Ready { credential } && credential@ == c@)
                    &&& (r.1 matches BootstrapAction::UseCredential { credential: c2 } && c2@
                    == c@)
                },
                Err(LoadError::NotFound) => r.0 is AwaitingServerName && r.1 is PromptServerName,
                Err(LoadError::Corrupt) => r.0 == BootstrapState::Failed {
                    failure: BootstrapFailure::CorruptCredential,
                } && r.1 == BootstrapAction::Abort {
                    failure: BootstrapFailure::CorruptCredential,
                },
            },
            (BootstrapState::AwaitingServerName, BootstrapEvent::ServerNameEntered(name)) => {
                &&& r.0 matches BootstrapState::AwaitingRegistration { request }
                &&& request.server_base_url@ == name@
                &&& request.client_name@ == client_name_spec()
                &&& request.redirect_target@ == redirect_target_spec()
                &&& request.requested_scopes@ == requested_scopes_spec()
                &&& request.website@ == website_spec()
                &&& (r.1 matches BootstrapAction::RegisterClient { request: req2 } && (
                r.0 matches BootstrapState::AwaitingRegistration { request } && req2 == request))
            },
            (
                BootstrapState::AwaitingRegistration { .. },
                BootstrapEvent::RegistrationCompleted(res),
            ) => match res {
                Ok(p) => {
                    &&& (r.0 matches BootstrapState::AwaitingGrant { pending } && pending == p)
                    &&& (r.1 matches BootstrapAction::RequestGrant { pending: p2 } && p2 == p)
                },
                Err(e) => r.0 == BootstrapState::Failed {
                    failure: BootstrapFailure::Registration(e),
                } && r.1 == BootstrapAction::Abort {
                    failure: BootstrapFailure::Registration(e),
                },
            },
            (BootstrapState::AwaitingGrant { .. }, BootstrapEvent::GrantExchanged(res)) => match res {
                Ok(c) => {
                    &&& (r.0 matches BootstrapState::SavingCredential { credential } && credential@
                    == c@)
                    &&& (r.1 matches BootstrapAction::SaveCredential { credential: c2 } && c2@
                    == c@)
                },
                Err(e) => r.0 == BootstrapState::Failed {
                    failure: BootstrapFailure::Exchange(e),
                } && r.1 == BootstrapAction::Abort { failure: BootstrapFailure::Exchange(e) },
            },
            (BootstrapState::SavingCredential { credential: c }, BootstrapEvent::CredentialSaved(res)) => match res {
                Ok(_) => {
                    &&& (r.0 matches BootstrapState::Ready { credential } && credential@ == c@)
                    &&& (r.1 matches BootstrapAction::UseCredential { credential: c2 } && c2@
                    == c@)
                },
                Err(_) => r.0 == BootstrapState::Failed { failure: BootstrapFailure::Store }
                    && r.1 == BootstrapAction::Abort { failure: BootstrapFailure::Store },
            },
            _ => true,
        },
{
    match (state, event) {
        (BootstrapState::LoadingCredential, BootstrapEvent::CredentialLoaded(res)) => match res {
            Ok(c) => {
                let c2 = c.clone();
                (
                    BootstrapState::Ready { credential: c },
                    BootstrapAction::UseCredential { credential: c2 },
                )
            },
            Err(LoadError::NotFound) => (
                BootstrapState::AwaitingServerName,
                BootstrapAction::PromptServerName,
            ),
            Err(LoadError::Corrupt) => (
                BootstrapState::Failed { failure: BootstrapFailure::CorruptCredential },
                BootstrapAction::Abort { failure: BootstrapFailure::CorruptCredential },
            ),
        },
        (BootstrapState::AwaitingServerName, BootstrapEvent::ServerNameEntered(name)) => {
            let request = registration_request(name);
            let req2 = request.clone();
            (
                BootstrapState::AwaitingRegistration { request },
                BootstrapAction::RegisterClient { request: req2 },
            )
        },
        (
            BootstrapState::AwaitingRegistration { .. },
            BootstrapEvent::RegistrationCompleted(res),
        ) => match res {
            Ok(p) => {
                let p2 = p.clone();
                (
                    BootstrapState::AwaitingGrant { pending: p },
                    BootstrapAction::RequestGrant { pending: p2 },
                )
            },
            Err(e) => (
                BootstrapState::Failed { failure: BootstrapFailure::Registration(e) },
                BootstrapAction::Abort { failure: BootstrapFailure::Registration(e) },
            ),
        },
        (BootstrapState::AwaitingGrant { .. }, BootstrapEvent::GrantExchanged(res)) => match res {
            Ok(c) => {
                let c2 = c.clone();
                (
                    BootstrapState::SavingCredential { credential: c },
                    BootstrapAction::SaveCredential { credential: c2 },
                )
            },
            Err(e) => (
                BootstrapState::Failed { failure: BootstrapFailure::Exchange(e) },
                BootstrapAction::Abort { failure: BootstrapFailure::Exchange(e) },
            ),
        },
        (
            BootstrapState::SavingCredential { credential },
            BootstrapEvent::CredentialSaved(res),
        ) => match res {
            Ok(_) => {
                let c2 = credential.clone();
                (
                    BootstrapState::Ready { credential },
                    BootstrapAction::UseCredential { credential: c2 },
                )
            },
            Err(_) => (
                BootstrapState::Failed { failure: BootstrapFailure::Store },
                BootstrapAction::Abort { failure: BootstrapFailure::Store },
            ),
        },
        _ => {
            proof {
                assert(false);
            }
            (BootstrapState::LoadingCredential, BootstrapAction::LoadCredential)
        },
    }
}

} // verus!
