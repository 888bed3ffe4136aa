//! The client registration and authorization flow.
//!
//! The flow is two steps: register a client application with the chosen
//! server, then send the user to the returned authorization URL and exchange
//! the code they bring back for an access token.  The network calls live
//! outside this crate; here stand the request this client always makes, the
//! checks on what the server returned, and the assembly of the final
//! [`Credential`].
use vstd::prelude::*;
use vstd::string::*;
use crate::credential::{Credential, CredentialView, field_ok, valid_credential};

verus! {

/// The fixed client name every registration uses.
pub open spec fn client_name_spec() -> Seq<char> {
    "joshka-mastodon-async"@
}

/// The fixed out-of-band redirect target: the server shows the authorization
/// code to the user instead of redirecting anywhere.
pub open spec fn redirect_target_spec() -> Seq<char> {
    "urn:ietf:wg:oauth:2.0:oob"@
}

/// The fixed requested scope: read everything.
pub open spec fn requested_scopes_spec() -> Seq<char> {
    "read"@
}

/// The fixed website the registration names.
pub open spec fn website_spec() -> Seq<char> {
    "https://github.com/joshka/mastodon-async"@
}

/// What the flow sends to a server to register this client.
#[derive(Debug)]
pub struct RegistrationRequest {
    pub server_base_url: String,
    pub client_name: String,
    pub redirect_target: String,
    pub requested_scopes: String,
    pub website: String,
}

impl Clone for RegistrationRequest {
    fn clone(&self) -> (r: Self)
        ensures
            r == *self,
    {
        RegistrationRequest {
            server_base_url: self.server_base_url.clone(),
            client_name: self.client_name.clone(),
            redirect_target: self.redirect_target.clone(),
            requested_scopes: self.requested_scopes.clone(),
            website: self.website.clone(),
        }
    }
}

/// The one registration request this client makes for a server: the fixed
/// client name, the fixed out-of-band redirect target, the read-everything
/// scope and the fixed website, aimed at the given server.
pub fn registration_request(server_base_url: String) -> (r: RegistrationRequest)
    ensures
        r.server_base_url == server_base_url,
        r.client_name@ == client_name_spec(),
        r.redirect_target@ == redirect_target_spec(),
        r.requested_scopes@ == requested_scopes_spec(),
        r.website@ == website_spec(),
{
    RegistrationRequest {
        server_base_url,
        client_name: String::from_str("joshka-mastodon-async"),
        redirect_target: String::from_str("urn:ietf:wg:oauth:2.0:oob"),
        requested_scopes: String::from_str("read"),
        website: String::from_str("https://github.com/joshka/mastodon-async"),
    }
}

/// What the server answers a successful registration with.
#[derive(Debug)]
pub struct RegistrationResponse {
    pub client_id: String,
    pub client_secret: String,
}

/// Why registration produced no usable pending registration.
#[derive(Clone, Copy, Debug, PartialEq, Eq, Structural)]
pub enum RegistrationError {
    /// The server rejected the registration or was unreachable.
    Refused,
    /// The server answered, but with credentials this flow cannot carry
    /// through to a persistable credential.
    InvalidResponse,
}

/// Why the code exchange produced no credential.
#[derive(Clone, Copy, Debug, PartialEq, Eq, Structural)]
pub enum ExchangeError {
    /// The server rejected the authorization code, or the exchange did not
    /// reach it.
    Refused,
    /// The server accepted the code but granted a token this flow cannot
    /// carry through to a persistable credential.
    InvalidToken,
}

/// The complete, directly navigable authorization URL for a registered
/// client: no further construction is left to the caller.
pub open spec fn authorization_url_spec(
    base: Seq<char>,
    client_id: Seq<char>,
    redirect: Seq<char>,
    scope: Seq<char>,
) -> Seq<char> {
    base + "/oauth/authorize?client_id="@ + client_id + "&redirect_uri="@ + redirect + "&scope="@
        + scope + "&response_type=code"@
}

fn build_authorization_url(base: &str, client_id: &str, redirect: &str, scope: &str) -> (url:
    String)
    ensures
        url@ == authorization_url_spec(base@, client_id@, redirect@, scope@),
{
    let mut url = String::new();
    url.append(base);
    url.append("/oauth/authorize?client_id=");
    url.append(client_id);
    url.append("&redirect_uri=");
    url.append(redirect);
    url.append("&scope=");
    url.append(scope);
    url.append("&response_type=code");
    proof {
        assert(url@ =~= authorization_url_spec(base@, client_id@, redirect@, scope@));
    }
    url
}

/// A registration the server accepted, waiting for the user's authorization
/// grant.  Ephemeral: it lives only between the register and authenticate
/// steps of one run and is never persisted.
#[derive(Debug)]
pub struct PendingRegistration {
    pub server_base_url: String,
    pub client_id: String,
    pub client_secret: String,
    pub redirect_target: String,
    pub requested_scopes: String,
    pub authorization_url: String,
}

impl Clone for PendingRegistration {
    fn clone(&self) -> (r: Self)
        ensures
            r == *self,
    {
        PendingRegistration {
            server_base_url: self.server_base_url.clone(),
            client_id: self.client_id.clone(),
            client_secret: self.client_secret.clone(),
            redirect_target: self.redirect_target.clone(),
            requested_scopes: self.requested_scopes.clone(),
            authorization_url: self.authorization_url.clone(),
        }
    }
}

/// A pending registration the flow can finish: every field persistable and
/// the authorization URL fully built from the other fields.
pub open spec fn valid_pending(p: PendingRegistration) -> bool {
    &&& field_ok(p.server_base_url@)
    &&& field_ok(p.client_id@)
    &&& field_ok(p.client_secret@)
    &&& field_ok(p.redirect_target@)
    &&& field_ok(p.requested_scopes@)
    &&& p.authorization_url@ == authorization_url_spec(
        p.server_base_url@,
        p.client_id@,
        p.redirect_target@,
        p.requested_scopes@,
    )
}

/// Whether a registration answer, combined with the request it answers, can
/// be carried through the rest of the flow.
pub open spec fn usable_registration(req: RegistrationRequest, resp: RegistrationResponse) -> bool {
    &&& field_ok(req.server_base_url@)
    &&& field_ok(req.redirect_target@)
    &&& field_ok(req.requested_scopes@)
    &&& field_ok(resp.client_id@)
    &&& field_ok(resp.client_secret@)
}

/// Turns the server's answer to a registration request into a pending
/// registration, with the authorization URL already built.  An absent answer
/// (the server rejected the client or was unreachable) is
/// [`RegistrationError::Refused`]; an answer whose fields cannot be carried
/// through the flow is [`RegistrationError::InvalidResponse`].
pub fn pending_from_response(req: &RegistrationRequest, response: Option<RegistrationResponse>) -> (r:
    Result<PendingRegistration, RegistrationError>)
    ensures
        response is None ==> r == Result::<PendingRegistration, RegistrationError>::Err(
            RegistrationError::Refused,
        ),
        response matches Some(resp) ==> {
            if usable_registration(*req, resp) {
                r matches Ok(p) && p.server_base_url@ == req.server_base_url@ && p.client_id@
                    == resp.client_id@ && p.client_secret@ == resp.client_secret@
                    && p.redirect_target@ == req.redirect_target@ && p.requested_scopes@
                    == req.requested_scopes@ && valid_pending(p)
            } else {
                r == Result::<PendingRegistration, RegistrationError>::Err(
                    RegistrationError::InvalidResponse,
                )
            }
        },
{
    match response {
        Option::None => Err(RegistrationError::Refused),
        Option::Some(resp) => {
            if !crate::credential::persistable_field(&req.server_base_url)
                || !crate::credential::persistable_field(&req.redirect_target)
                || !crate::credential::persistable_field(&req.requested_scopes)
                || !crate::credential::persistable_field(&resp.client_id)
                || !crate::credential::persistable_field(&resp.client_secret) {
                return Err(RegistrationError::InvalidResponse);
            }
            let url = build_authorization_url(
                req.server_base_url.as_str(),
                resp.client_id.as_str(),
                req.redirect_target.as_str(),
                req.requested_scopes.as_str(),
            );
            Ok(
                PendingRegistration {
                    server_base_url: req.server_base_url.clone(),
                    client_id: resp.client_id,
                    client_secret: resp.client_secret,
                    redirect_target: req.redirect_target.clone(),
                    requested_scopes: req.requested_scopes.clone(),
                    authorization_url: url,
                },
            )
        },
    }
}

/// Finishes the flow: combines the pending registration with the token the
/// server granted for the user's authorization code.  An absent token (the
/// code was rejected or the exchange did not happen) is
/// [`ExchangeError::Refused`]; a token that cannot be persisted is
/// [`ExchangeError::InvalidToken`].  On success the credential carries the
/// pending registration's server and client identity, the granted token, and
/// the requested scope as its single granted scope — valid and ready to save.
pub fn complete_authentication(pending: &PendingRegistration, token_response: Option<String>) -> (r:
    Result<Credential, ExchangeError>)
    requires
        valid_pending(*pending),
    ensures
        token_response is None ==> r == Result::<Credential, ExchangeError>::Err(
            ExchangeError::Refused,
        ),
        token_response matches Some(tok) ==> {
            if field_ok(tok@) {
                r matches Ok(c) && c@ == (CredentialView {
                    server_base_url: pending.server_base_url@,
                    client_id: pending.client_id@,
                    client_secret: pending.client_secret@,
                    access_token: tok@,
                    granted_scopes: seq![pending.requested_scopes@],
                }) && valid_credential(c@)
            } else {
                r == Result::<Credential, ExchangeError>::Err(ExchangeError::InvalidToken)
            }
        },
{
    match token_response {
        Option::None => Err(ExchangeError::Refused),
        Option::Some(tok) => {
            if !crate::credential::persistable_field(&tok) {
                return Err(ExchangeError::InvalidToken);
            }
            let mut scopes: Vec<String> = Vec::new();
            scopes.push(pending.requested_scopes.clone());
            let c = Credential {
                server_base_url: pending.server_base_url.clone(),
                client_id: pending.client_id.clone(),
                client_secret: pending.client_secret.clone(),
                access_token: tok,
                granted_scopes: scopes,
            };
            proof {
                assert(c@.granted_scopes =~= seq![pending.requested_scopes@]);
            }
            Ok(c)
        },
    }
}

} // verus!
