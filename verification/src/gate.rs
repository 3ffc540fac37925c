//! The authorization gate: classifies the credential carried by a request as
//! authorized, expired, invalid or missing, and fixes the exact structured
//! response owed in each denied case.

use vstd::prelude::*;
use crate::jwt::{decode_jwt, jwt_claims_of};
use crate::masked_token::MaskedToken;
use vstd::string::StringExecFns;

verus! {

/// The four-way classification of a protected request's credential. Expiry is
/// deliberately told apart from tampering or malformation, so a legitimate
/// client can refresh instead of re-authenticating.
pub enum TokenStatus {
    /// Signature valid and the expiry instant still ahead: the request may
    /// proceed on behalf of the carried subject.
    Authorized { subject: String },
    /// Signature valid but the expiry instant reached: the caller should
    /// refresh.
    Expired,
    /// Structurally malformed, or the signature does not verify.
    Invalid,
    /// No credential presented at all.
    Missing,
}

/// The classification in specification terms.
pub enum SpecStatus {
    Authorized(Seq<char>),
    Expired,
    Invalid,
    Missing,
}

impl View for TokenStatus {
    type V = SpecStatus;

    open spec fn view(&self) -> SpecStatus {
        match self {
            TokenStatus::Authorized { subject } => SpecStatus::Authorized(subject@),
            TokenStatus::Expired => SpecStatus::Expired,
            TokenStatus::Invalid => SpecStatus::Invalid,
            TokenStatus::Missing => SpecStatus::Missing,
        }
    }
}

/// The view of an optionally-present header value.
pub open spec fn header_view(header: Option<&String>) -> Option<Seq<char>> {
    match header {
        Some(h) => Some(h@),
        None => None,
    }
}

/// What a credential classifies as under `secret` at instant `now`: missing
/// when absent, invalid when the signature does not verify, and otherwise
/// authorized strictly before the expiry instant and expired from it on.
pub open spec fn classify(secret: Seq<char>, header: Option<Seq<char>>, now: u64) -> SpecStatus {
    match header {
        None => SpecStatus::Missing,
        Some(token) => match jwt_claims_of(secret, token) {
            None => SpecStatus::Invalid,
            Some(claims) => if now < claims.1 {
                SpecStatus::Authorized(claims.0)
            } else {
                SpecStatus::Expired
            },
        },
    }
}

/// Classifies the raw `Authorization` header value of a protected request,
/// taken at instant `now` (seconds since the epoch).
pub fn classify_token(secret: &MaskedToken, header: Option<&String>, now: u64) -> (r: TokenStatus)
    ensures
        r@ == classify(secret.secret(), header_view(header), now),
{
    match header {
        None => TokenStatus::Missing,
        Some(token) => match decode_jwt(secret.as_str(), token.as_str()) {
            None => TokenStatus::Invalid,
            Some(claims) => {
                if now < claims.1 {
                    TokenStatus::Authorized { subject: claims.0 }
                } else {
                    TokenStatus::Expired
                }
            },
        },
    }
}

/// Authorized strictly before the expiry instant, expired from the expiry
/// instant on, and never both: the two outcomes share no instant.
pub proof fn lemma_expiry_boundary(
    secret: Seq<char>,
    token: Seq<char>,
    sub: Seq<char>,
    exp: u64,
    now: u64,
)
    requires
        jwt_claims_of(secret, token) == Some((sub, exp)),
    ensures
        classify(secret, Some(token), now) == SpecStatus::Authorized(sub) <==> now < exp,
        classify(secret, Some(token), now) == SpecStatus::Expired <==> now >= exp,
{
}

/// A credential that does not verify under the secret, for instance one
/// signed with a different secret, classifies as invalid at every instant:
/// never as expired.
pub proof fn lemma_unverified_never_expired(secret: Seq<char>, token: Seq<char>, now: u64)
    requires
        jwt_claims_of(secret, token) is None,
    ensures
        classify(secret, Some(token), now) == SpecStatus::Invalid,
        classify(secret, Some(token), now) != SpecStatus::Expired,
{
}

/// The structured denial a protected request receives when it may not
/// proceed: always status 401, with a stable machine-readable error code.
pub struct DenyResponse {
    /// The HTTP status: always 401.
    pub status: u16,
    /// The stable error code of the response body.
    pub error: String,
    /// The human-readable explanation of the response body.
    pub message: String,
    /// In the expired case only: where to refresh.
    pub refresh_url: Option<String>,
    /// In the expired case only: the `WWW-Authenticate` challenge naming the
    /// refresh path.
    pub www_authenticate: Option<String>,
}

/// The action owed for a classified request.
pub enum GateOutcome {
    /// Hand the request to the downstream handler on behalf of `subject`.
    Proceed { subject: String },
    /// Stop the request and send this denial.
    Deny(DenyResponse),
}

/// Shared, rarely written configuration naming where to refresh. Exposed
/// only through accessors; callers that share it across requests wrap a
/// value of this type in a lock of their own.
pub struct RefreshPathConfig {
    path: String,
}

impl RefreshPathConfig {
    /// The configured path of the refresh endpoint.
    pub closed spec fn path_spec(&self) -> Seq<char> {
        self.path@
    }

    /// The default configuration: the refresh endpoint lives at `/refresh`.
    pub fn new() -> (r: Self)
        ensures
            r.path_spec() == "/refresh"@,
    {
        Self { path: String::from_str("/refresh") }
    }

    /// Reads the configured path.
    pub fn get(&self) -> (r: &String)
        ensures
            r@ == self.path_spec(),
    {
        &self.path
    }

    /// Reconfigures the path.
    pub fn set(&mut self, path: String)
        ensures
            final(self).path_spec() == path@,
    {
        self.path = path;
    }
}

/// The `WWW-Authenticate` challenge sent with an expired-token denial.
pub open spec fn www_authenticate_spec(refresh_path: Seq<char>) -> Seq<char> {
    "Bearer error=\"invalid_token\", error_description=\"The access token expired\", refresh_url=\""@
        + refresh_path + "\""@
}

/// Builds the `WWW-Authenticate` challenge for the configured refresh path.
fn www_authenticate_value(refresh_path: &String) -> (r: String)
    ensures
        r@ == www_authenticate_spec(refresh_path@),
{
    let mut r = String::from_str(
        "Bearer error=\"invalid_token\", error_description=\"The access token expired\", refresh_url=\"",
    );
    r.append(refresh_path.as_str());
    r.append("\"");
    r
}

/// The denial owed for each non-authorized classification, as the response
/// table fixes it: a missing credential, an expired one (naming the refresh
/// path), and an invalid one each get status 401 and their own error code.
pub open spec fn gate_outcome_spec(status: SpecStatus, refresh_path: Seq<char>, r: GateOutcome) -> bool {
    match status {
        SpecStatus::Authorized(sub) => {
            &&& r matches GateOutcome::Proceed { subject }
            &&& subject@ == sub
        },
        SpecStatus::Missing => {
            &&& r matches GateOutcome::Deny(d)
            &&& d.status == 401
            &&& d.error@ == "missing_token"@
            &&& d.message@ == "Authorization token is missing."@
            &&& d.refresh_url is None
            &&& d.www_authenticate is None
        },
        SpecStatus::Expired => {
            &&& r matches GateOutcome::Deny(d)
            &&& d.status == 401
            &&& d.error@ == "token_expired"@
            &&& d.message@ == "Your token has expired. Please refresh the token."@
            &&& d.refresh_url matches Some(u)
            &&& u@ == refresh_path
            &&& d.www_authenticate matches Some(w)
            &&& w@ == www_authenticate_spec(refresh_path)
        },
        SpecStatus::Invalid => {
            &&& r matches GateOutcome::Deny(d)
            &&& d.status == 401
            &&& d.error@ == "invalid_token"@
            &&& d.message@ == "The provided token is invalid."@
            &&& d.refresh_url is None
            &&& d.www_authenticate is None
        },
    }
}

/// Turns a classification into the response the table owes for it.
pub fn respond(status: TokenStatus, refresh_path: &String) -> (r: GateOutcome)
    ensures
        gate_outcome_spec(status@, refresh_path@, r),
{
    match status {
        TokenStatus::Authorized { subject } => GateOutcome::Proceed { subject },
        TokenStatus::Missing => GateOutcome::Deny(
            DenyResponse {
                status: 401,
                error: String::from_str("missing_token"),
                message: String::from_str("Authorization token is missing."),
                refresh_url: None,
                www_authenticate: None,
            },
        ),
        TokenStatus::Expired => GateOutcome::Deny(
            DenyResponse {
                status: 401,
                error: String::from_str("token_expired"),
                message: String::from_str("Your token has expired. Please refresh the token."),
                refresh_url: Some(refresh_path.clone()),
                www_authenticate: Some(www_authenticate_value(refresh_path)),
            },
        ),
        TokenStatus::Invalid => GateOutcome::Deny(
            DenyResponse {
                status: 401,
                error: String::from_str("invalid_token"),
                message: String::from_str("The provided token is invalid."),
                refresh_url: None,
                www_authenticate: None,
            },
        ),
    }
}

/// The whole gate: classifies the presented credential at instant `now` and
/// returns the action the response table owes for that classification.
pub fn authorize(
    secret: &MaskedToken,
    header: Option<&String>,
    now: u64,
    refresh_path: &String,
) -> (r: GateOutcome)
    ensures
        gate_outcome_spec(classify(secret.secret(), header_view(header), now), refresh_path@, r),
{
    let status = classify_token(secret, header, now);
    respond(status, refresh_path)
}

} // verus!
