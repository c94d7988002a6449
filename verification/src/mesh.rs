//! Mesh-proxy request decisions: bearer-token claims, tenant authorization
//! and the per-request outcome. The isolation rule is decided here, before
//! any byte is forwarded: a request whose token's organization differs
//! from the target's owning tenant never yields a `Forward` outcome.

use vstd::prelude::*;

use crate::resolver::Resolution;

verus! {

/// The issuer identifier every mesh token must carry.
pub open spec fn spec_mesh_issuer() -> Seq<char> {
    "zexio-service-mesh"@
}

/// The fixed issuer identifier of the mesh.
pub fn mesh_issuer() -> (r: &'static str)
    ensures
        r@ == spec_mesh_issuer(),
{
    "zexio-service-mesh"
}

/// The claims carried in a mesh bearer token.
#[derive(Clone)]
pub struct MeshClaims {
    pub user_id: String,
    pub org_id: String,
    pub source_service: String,
    pub target_service: String,
    pub worker_id: Option<String>,
}

/// Relies on jsonwebtoken::decode (HS256, with `set_issuer`): a token is
/// accepted only if its signature verifies under the secret, its issuer
/// matches, and it has not expired. Expiry depends on the clock, so
/// nothing is promised of the outcome; callers decide from whatever came
/// back. The claim fields `userId`, `orgId`, `sourceService` and
/// `targetService` must all be present.
#[verifier::external_body]
fn decode_mesh_claims(token: &str, secret: &[u8], issuer: &str) -> (r: Option<MeshClaims>) {
    let mut validation = jsonwebtoken::Validation::new(jsonwebtoken::Algorithm::HS256);
    validation.set_issuer(&[issuer]);
    let key = jsonwebtoken::DecodingKey::from_secret(secret);
    let data = jsonwebtoken::decode::<serde_json::Value>(token, &key, &validation).ok()?;
    Some(MeshClaims {
        user_id: data.claims.get("userId")?.as_str()?.to_string(),
        org_id: data.claims.get("orgId")?.as_str()?.to_string(),
        source_service: data.claims.get("sourceService")?.as_str()?.to_string(),
        target_service: data.claims.get("targetService")?.as_str()?.to_string(),
        worker_id: data.claims.get("workerId").and_then(|v| v.as_str()).map(|s| s.to_string()),
    })
}

/// The tenant check: the token's organization must equal the target's
/// owning tenant. A missing or rejected token authorizes nothing.
pub fn authorize(claims: Option<&MeshClaims>, owner_id: &str) -> (r: bool)
    ensures
        r <==> (claims matches Some(c) && c.org_id@ == owner_id@),
{
    match claims {
        Some(c) => crate::text::str_eq(c.org_id.as_str(), owner_id),
        None => false,
    }
}

/// What the proxy does with one request.
pub enum MeshOutcome {
    /// No `Host` header.
    BadRequest,
    /// The host resolves to no target.
    NotFound,
    /// The token is missing or rejected, or its organization is not the
    /// target's owning tenant.
    Forbidden,
    /// Forward to the upstream; the tenant check has passed.
    Forward { upstream_host: String, upstream_port: u16, owner_id: String },
}

/// Decide one mesh request from the presence of a `Host` header, the
/// resolver's answer, and the decoded token claims. The tenant check
/// stands before forwarding: `Forward` is returned only when the claims'
/// organization equals the resolution's owning tenant.
pub fn mesh_route(host_present: bool, resolution: Option<Resolution>, claims: Option<&MeshClaims>) -> (r:
    MeshOutcome)
    ensures
        r is BadRequest <==> !host_present,
        r is NotFound <==> (host_present && resolution is None),
        r is Forbidden <==> (host_present && (resolution matches Some(res) && !(
        claims matches Some(c) && c.org_id@ == res.owner_id@))),
        r is Forward <==> (host_present && (resolution matches Some(res) && (claims matches Some(c)
            && c.org_id@ == res.owner_id@))),
        r matches MeshOutcome::Forward { upstream_host, upstream_port, owner_id } ==> (
        resolution matches Some(res) && upstream_host@ == res.upstream_host@ && upstream_port
            == res.upstream_port && owner_id@ == res.owner_id@),
        r matches MeshOutcome::Forward { owner_id, .. } ==> (claims matches Some(c) && c.org_id@
            == owner_id@),
{
    if !host_present {
        return MeshOutcome::BadRequest;
    }
    match resolution {
        None => MeshOutcome::NotFound,
        Some(res) => {
            if authorize(claims, res.owner_id.as_str()) {
                MeshOutcome::Forward {
                    upstream_host: res.upstream_host,
                    upstream_port: res.upstream_port,
                    owner_id: res.owner_id,
                }
            } else {
                MeshOutcome::Forbidden
            }
        },
    }
}

/// Decide one mesh request from its bearer token: decode and validate
/// the token under the mesh secret and issuer, then route. Whatever the
/// token decoder answers, a request without a `Host` header is refused
/// with 400, an unresolved host with 404, a missing token with 403, and
/// a forwarded request goes to the resolver's target; the tenant rule
/// between the decoded claims and the target is `mesh_route`'s contract.
pub fn mesh_request(
    host_present: bool,
    resolution: Option<Resolution>,
    bearer_token: Option<&str>,
    secret: &[u8],
) -> (r: MeshOutcome)
    ensures
        r is BadRequest <==> !host_present,
        r is NotFound <==> (host_present && resolution is None),
        host_present && resolution is Some && bearer_token is None ==> r is Forbidden,
        r is Forward ==> (host_present && resolution is Some && bearer_token is Some),
        r matches MeshOutcome::Forward { upstream_host, upstream_port, owner_id } ==> (
        resolution matches Some(res) && upstream_host@ == res.upstream_host@ && upstream_port
            == res.upstream_port && owner_id@ == res.owner_id@),
{
    let claims = match bearer_token {
        Some(token) => decode_mesh_claims(token, secret, mesh_issuer()),
        None => None,
    };
    mesh_route(host_present, resolution, claims.as_ref())
}

/// The HTTP status of a locally answered outcome; a forwarded request's
/// status comes from the upstream.
pub fn outcome_status(r: &MeshOutcome) -> (s: Option<u16>)
    ensures
        r is BadRequest <==> s == Some(400u16),
        r is NotFound <==> s == Some(404u16),
        r is Forbidden <==> s == Some(403u16),
        r is Forward <==> s is None,
{
    match r {
        MeshOutcome::BadRequest => Some(400),
        MeshOutcome::NotFound => Some(404),
        MeshOutcome::Forbidden => Some(403),
        MeshOutcome::Forward { .. } => None,
    }
}

} // verus!
