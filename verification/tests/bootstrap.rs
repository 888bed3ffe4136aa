use spike_mastodon::auth::{RegistrationError, RegistrationResponse, complete_authentication,
    pending_from_response, registration_request};
use spike_mastodon::credential::{Credential, LoadError, StoreError};
use spike_mastodon::session::{
    BootstrapAction, BootstrapEvent, BootstrapFailure, BootstrapState, bootstrap_start,
    bootstrap_step,
};

fn credential() -> Credential {
    Credential {
        server_base_url: String::from("https://example.social"),
        client_id: String::from("abc"),
        client_secret: String::from("sec"),
        access_token: String::from("tok"),
        granted_scopes: vec![String::from("read")],
    }
}

#[test]
fn bootstrap_starts_by_loading() {
    let (state, action) = bootstrap_start();
    assert!(matches!(state, BootstrapState::LoadingCredential));
    assert!(matches!(action, BootstrapAction::LoadCredential));
}

#[test]
fn loaded_credential_is_used_directly() {
    let (state, _) = bootstrap_start();
    let (state, action) = bootstrap_step(state, BootstrapEvent::CredentialLoaded(Ok(credential())));
    match state {
        BootstrapState::Ready { credential: c } => assert_eq!(c, credential()),
        _ => panic!("expected Ready"),
    }
    match action {
        BootstrapAction::UseCredential { credential: c } => assert_eq!(c, credential()),
        _ => panic!("expected UseCredential"),
    }
}

#[test]
fn absent_credential_starts_the_flow() {
    let (state, _) = bootstrap_start();
    let (state, action) =
        bootstrap_step(state, BootstrapEvent::CredentialLoaded(Err(LoadError::NotFound)));
    assert!(matches!(state, BootstrapState::AwaitingServerName));
    assert!(matches!(action, BootstrapAction::PromptServerName));
}

#[test]
fn corrupt_credential_aborts() {
    let (state, _) = bootstrap_start();
    let (state, action) =
        bootstrap_step(state, BootstrapEvent::CredentialLoaded(Err(LoadError::Corrupt)));
    assert!(matches!(
        state,
        BootstrapState::Failed { failure: BootstrapFailure::CorruptCredential }
    ));
    assert!(matches!(
        action,
        BootstrapAction::Abort { failure: BootstrapFailure::CorruptCredential }
    ));
}

#[test]
fn server_name_leads_to_registration() {
    let state = BootstrapState::AwaitingServerName;
    let (state, action) =
        bootstrap_step(state, BootstrapEvent::ServerNameEntered(String::from("example.social")));
    let held = match &state {
        BootstrapState::AwaitingRegistration { request } => request.clone(),
        _ => panic!("expected AwaitingRegistration"),
    };
    assert_eq!(held.server_base_url, "example.social");
    assert_eq!(held.client_name, "joshka-mastodon-async");
    match action {
        BootstrapAction::RegisterClient { request } => {
            assert_eq!(request.server_base_url, held.server_base_url);
            assert_eq!(request.redirect_target, "urn:ietf:wg:oauth:2.0:oob");
            assert_eq!(request.requested_scopes, "read");
        },
        _ => panic!("expected RegisterClient"),
    }
}

#[test]
fn whole_flow_reaches_ready_and_persists_first() {
    // first run: nothing stored, register, authorize, save, then use
    let (state, _) = bootstrap_start();
    let (state, _) =
        bootstrap_step(state, BootstrapEvent::CredentialLoaded(Err(LoadError::NotFound)));
    let (state, action) =
        bootstrap_step(state, BootstrapEvent::ServerNameEntered(String::from("https://example.social")));
    let request = match action {
        BootstrapAction::RegisterClient { request } => request,
        _ => panic!("expected RegisterClient"),
    };
    let resp = RegistrationResponse {
        client_id: String::from("abc"),
        client_secret: String::from("sec"),
    };
    let pending = pending_from_response(&request, Some(resp)).unwrap();
    let (state, action) =
        bootstrap_step(state, BootstrapEvent::RegistrationCompleted(Ok(pending)));
    let pending = match action {
        BootstrapAction::RequestGrant { pending } => pending,
        _ => panic!("expected RequestGrant"),
    };
    let fresh = complete_authentication(&pending, Some(String::from("tok"))).unwrap();
    let (state, action) = bootstrap_step(state, BootstrapEvent::GrantExchanged(Ok(fresh.clone())));
    match &action {
        BootstrapAction::SaveCredential { credential } => assert_eq!(*credential, fresh),
        _ => panic!("expected SaveCredential"),
    }
    let (state, action) = bootstrap_step(state, BootstrapEvent::CredentialSaved(Ok(())));
    match state {
        BootstrapState::Ready { credential } => assert_eq!(credential, fresh),
        _ => panic!("expected Ready"),
    }
    match action {
        BootstrapAction::UseCredential { credential } => assert_eq!(credential, fresh),
        _ => panic!("expected UseCredential"),
    }
}

#[test]
fn registration_failure_aborts() {
    let state = BootstrapState::AwaitingServerName;
    let (state, _) =
        bootstrap_step(state, BootstrapEvent::ServerNameEntered(String::from("example.social")));
    let (state, action) = bootstrap_step(
        state,
        BootstrapEvent::RegistrationCompleted(Err(RegistrationError::Refused)),
    );
    assert!(matches!(
        state,
        BootstrapState::Failed {
            failure: BootstrapFailure::Registration(RegistrationError::Refused)
        }
    ));
    assert!(matches!(action, BootstrapAction::Abort { .. }));
}

#[test]
fn exchange_failure_aborts() {
    let req = registration_request(String::from("https://example.social"));
    let resp = RegistrationResponse {
        client_id: String::from("abc"),
        client_secret: String::from("sec"),
    };
    let pending = pending_from_response(&req, Some(resp)).unwrap();
    let state = BootstrapState::AwaitingRegistration { request: req };
    let (state, _) = bootstrap_step(state, BootstrapEvent::RegistrationCompleted(Ok(pending)));
    let refused = complete_authentication(
        &match &state {
            BootstrapState::AwaitingGrant { pending } => pending.clone(),
            _ => panic!("expected AwaitingGrant"),
        },
        None,
    );
    let (state, action) = bootstrap_step(state, BootstrapEvent::GrantExchanged(refused));
    assert!(matches!(
        state,
        BootstrapState::Failed {
            failure: BootstrapFailure::Exchange(spike_mastodon::auth::ExchangeError::Refused)
        }
    ));
    assert!(matches!(action, BootstrapAction::Abort { .. }));
}

#[test]
fn save_failure_aborts() {
    let state = BootstrapState::SavingCredential { credential: credential() };
    let (state, action) =
        bootstrap_step(state, BootstrapEvent::CredentialSaved(Err(StoreError::Io)));
    assert!(matches!(state, BootstrapState::Failed { failure: BootstrapFailure::Store }));
    assert!(matches!(action, BootstrapAction::Abort { failure: BootstrapFailure::Store }));
}
