//! The per-request authorization gateway.
//!
//! A wrapped request runs a small state machine: the two named
//! credentials are extracted from request-scoped storage; if either is
//! missing the request short-circuits at once. Otherwise the pair is sent
//! to the external verifier in exactly one outbound call, whose reply
//! settles the request: a 200 status lets the wrapped handler run and its
//! response pass through unchanged, any other status is a rejection — not
//! an error — and a transport fault alone counts as an infrastructure
//! failure. The gateway caches nothing across requests and never retries.

use crate::models::GatewayError;
use vstd::prelude::*;

verus! {

/// The credential pair of one protected request, as the verification
/// call sends it.
pub struct Verify {
    pub username: String,
    pub access_token: String,
}

/// The mathematical value of a [`Verify`].
pub ghost struct VerifyView {
    pub username: Seq<char>,
    pub access_token: Seq<char>,
}

impl View for Verify {
    type V = VerifyView;

    open spec fn view(&self) -> VerifyView {
        VerifyView { username: self.username@, access_token: self.access_token@ }
    }
}

/// How one verification call went: the status of the verifier's
/// response, or a fault before any response arrived.
#[derive(Clone, Copy, PartialEq, Eq, Structural, Debug)]
pub enum VerifierReply {
    Status(u16),
    TransportFault,
}

/// The gateway's decision for one wrapped request.
#[derive(Clone, Copy, PartialEq, Eq, Structural, Debug)]
pub enum GatewayDecision {
    /// The wrapped handler runs; its response passes through unchanged.
    Proceed,
    /// The wrapped handler never runs; the request fails with the given
    /// error.
    ShortCircuit(GatewayError),
}

/// One request's run through the gateway: the decision reached, and
/// whether the verifier was consulted on the way.
pub struct GatewayRun {
    pub decision: GatewayDecision,
    pub verifier_called: bool,
}

/// The authorization gateway wrapped around protected routes.
pub struct Author;

impl Author {
    /// Extracts the credential pair. A request missing either credential
    /// is refused as malformed, before any verification.
    pub fn extract_credentials(username: Option<String>, access_token: Option<String>) -> (r:
        Result<Verify, GatewayError>)
        ensures
            match r {
                Ok(v) => {
                    &&& username matches Some(u)
                    &&& v@.username == u@
                    &&& access_token matches Some(t)
                    &&& v@.access_token == t@
                },
                Err(e) => e == GatewayError::BadRequest && (username is None || access_token
                    is None),
            },
    {
        let u = match username {
            Some(u) => u,
            None => {
                return Err(GatewayError::BadRequest);
            },
        };
        let t = match access_token {
            Some(t) => t,
            None => {
                return Err(GatewayError::BadRequest);
            },
        };
        Ok(Verify { username: u, access_token: t })
    }

    /// Interprets the verifier's reply: a 200 status verifies the
    /// request, any other status rejects it — a normal outcome, not an
    /// error — and only a transport fault is an infrastructure failure.
    pub fn interpret_verifier(reply: &VerifierReply) -> (r: Result<bool, GatewayError>)
        ensures
            match *reply {
                VerifierReply::Status(s) => r == Ok::<bool, GatewayError>(s == 200),
                VerifierReply::TransportFault => r == Err::<bool, GatewayError>(
                    GatewayError::ServiceUnavailable,
                ),
            },
    {
        match reply {
            VerifierReply::Status(s) => Ok(*s == 200),
            VerifierReply::TransportFault => Err(GatewayError::ServiceUnavailable),
        }
    }

    /// One whole run of the gateway for one wrapped request, `reply`
    /// being what the verifier answers when consulted.
    ///
    /// A request missing either credential never reaches the wrapped
    /// handler — the verifier is not even called — and fails as
    /// malformed. With both credentials present the verifier is consulted
    /// exactly once: a 200 reply lets the handler run, any other status
    /// denies the request as unauthorized, and a transport fault reports
    /// the verification service unavailable, in every case without the
    /// handler running.
    pub fn gate(username: Option<String>, access_token: Option<String>, reply: &VerifierReply) -> (run:
        GatewayRun)
        ensures
            run.verifier_called <==> username is Some && access_token is Some,
            username is None || access_token is None ==> run.decision
                == GatewayDecision::ShortCircuit(GatewayError::BadRequest),
            username is Some && access_token is Some ==> match *reply {
                VerifierReply::Status(s) => if s == 200 {
                    run.decision == GatewayDecision::Proceed
                } else {
                    run.decision == GatewayDecision::ShortCircuit(GatewayError::Unauthorized)
                },
                VerifierReply::TransportFault => run.decision == GatewayDecision::ShortCircuit(
                    GatewayError::ServiceUnavailable,
                ),
            },
    {
        let _credentials = match Self::extract_credentials(username, access_token) {
            Ok(v) => v,
            Err(e) => {
                return GatewayRun { decision: GatewayDecision::ShortCircuit(e), verifier_called: false };
            },
        };
        match Self::interpret_verifier(reply) {
            Ok(true) => GatewayRun { decision: GatewayDecision::Proceed, verifier_called: true },
            Ok(false) => GatewayRun {
                decision: GatewayDecision::ShortCircuit(GatewayError::Unauthorized),
                verifier_called: true,
            },
            Err(e) => GatewayRun {
                decision: GatewayDecision::ShortCircuit(e),
                verifier_called: true,
            },
        }
    }
}

} // verus!
