//! Node identity and the registration protocol's decisions: what a
//! heartbeat status means for the stored identity, when registration may
//! persist a new identity, where the provisioning token comes from, and
//! the validity of a token a user supplies. The HTTP requests themselves
//! are made outside; every decision about their outcomes is made here.

use vstd::prelude::*;

verus! {

/// The node's identity: issued once by the control plane when a
/// provisioning token is redeemed, and destroyed only by unregistering.
#[derive(Clone)]
pub struct Identity {
    pub worker_id: String,
    pub secret_key: String,
    pub relay_url: String,
}

/// The compiled-in relay endpoint, used when a stored identity lacks one.
pub open spec fn spec_default_relay() -> Seq<char> {
    "wss://relay.zexio.io:443"@
}

/// The compiled-in relay endpoint.
pub fn default_relay() -> (r: String)
    ensures
        r@ == spec_default_relay(),
{
    String::from_str("wss://relay.zexio.io:443")
}

impl Identity {
    /// Assemble the identity a successful registration yields; a response
    /// without a relay endpoint gets the compiled-in default.
    pub fn from_registration(worker_id: String, secret_key: String, relay_url: Option<String>) -> (r:
        Identity)
        ensures
            r.worker_id@ == worker_id@,
            r.secret_key@ == secret_key@,
            relay_url matches Some(u) ==> r.relay_url@ == u@,
            relay_url is None ==> r.relay_url@ == spec_default_relay(),
    {
        let relay = match relay_url {
            Some(u) => u,
            None => default_relay(),
        };
        Identity { worker_id, secret_key, relay_url: relay }
    }
}

/// What a heartbeat's outcome means for the locally stored identity.
#[derive(Clone, Copy, PartialEq, Eq, Structural, Debug)]
pub enum HeartbeatAction {
    /// The identity is valid; the agent is online.
    Valid,
    /// The cloud no longer knows this node: delete the local identity so
    /// the next startup can re-bootstrap.
    RemoveIdentity,
    /// The cloud is unreachable or failing; keep the identity and run
    /// degraded.
    Degraded,
}

/// Decide from the heartbeat's HTTP status: success means the identity
/// holds; 403 and 404 mean it is gone from the cloud and must be removed
/// locally; anything else is non-fatal.
pub fn heartbeat_action(status: u16) -> (r: HeartbeatAction)
    ensures
        r is Valid <==> 200 <= status < 300,
        r is RemoveIdentity <==> (status == 403 || status == 404),
        r is Degraded <==> !(200 <= status < 300) && status != 403 && status != 404,
{
    if 200 <= status && status < 300 {
        HeartbeatAction::Valid
    } else if status == 403 || status == 404 {
        HeartbeatAction::RemoveIdentity
    } else {
        HeartbeatAction::Degraded
    }
}

/// What a registration attempt's outcome means.
#[derive(Clone, Copy, PartialEq, Eq, Structural, Debug)]
pub enum RegisterOutcome {
    /// Success: persist the identity and delete the one-shot token file.
    Persist,
    /// A client error: the token is bad; fail fatally with a hint.
    Fatal,
    /// A server error or no response: return an error, touch no local
    /// state.
    Retry,
}

/// Decide from the registration request's outcome; `None` is a network
/// error.
pub fn register_outcome(status: Option<u16>) -> (r: RegisterOutcome)
    ensures
        r is Persist <==> (status matches Some(s) && 200 <= s < 300),
        r is Fatal <==> (status matches Some(s) && 400 <= s < 500),
        r is Retry <==> (status is None || (status matches Some(s) && !(200 <= s < 300) && !(400
            <= s < 500))),
    {
    match status {
        Some(s) => {
            if 200 <= s && s < 300 {
                RegisterOutcome::Persist
            } else if 400 <= s && s < 500 {
                RegisterOutcome::Fatal
            } else {
                RegisterOutcome::Retry
            }
        },
        None => RegisterOutcome::Retry,
    }
}

/// Whether a successful unregister response allows deleting the local
/// identity file: only a success status does; on failure the file stays.
pub fn unregister_removes_identity(status: u16) -> (r: bool)
    ensures
        r <==> 200 <= status < 300,
{
    200 <= status && status < 300
}

/// Pick the provisioning token: configuration (or environment) first,
/// then the one-shot token file.
pub fn choose_token(config_token: Option<String>, file_token: Option<String>) -> (r: Option<
    String,
>)
    ensures
        config_token matches Some(t) ==> (r matches Some(u) && u@ == t@),
        config_token is None ==> (file_token matches Some(t) ==> (r matches Some(u) && u@ == t@)),
        config_token is None && file_token is None ==> r is None,
{
    match config_token {
        Some(t) => Some(t),
        None => file_token,
    }
}

/// Why a user-supplied provisioning token is refused.
#[derive(Clone, Copy, PartialEq, Eq, Structural, Debug)]
pub enum TokenError {
    /// The token is empty.
    Empty,
    /// The token is shorter than the minimum eight characters.
    TooShort,
}

/// Check the shape of a provisioning token before using it.
pub fn validate_token_format(token: &str) -> (r: Result<(), TokenError>)
    ensures
        token@.len() == 0 <==> r == Err::<(), TokenError>(TokenError::Empty),
        0 < token@.len() < 8 <==> r == Err::<(), TokenError>(TokenError::TooShort),
        token@.len() >= 8 <==> r is Ok,
{
    let n = token.unicode_len();
    if n == 0 {
        Err(TokenError::Empty)
    } else if n < 8 {
        Err(TokenError::TooShort)
    } else {
        Ok(())
    }
}

} // verus!
