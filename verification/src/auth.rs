//! The authentication guard: admits or rejects a request by comparing
//! the request's secret header against the configured shared secret.

use vstd::prelude::*;

use crate::opt_text;

verus! {

/// Why a request was rejected: the secret header was absent, or it was
/// present but did not match the configured secret.
#[derive(Clone, Copy, Debug, PartialEq, Eq, Structural)]
pub enum AuthError {
    Missing,
    Invalid,
}

/// The guard's decision for one request.
#[derive(Clone, Copy, Debug, PartialEq, Eq, Structural)]
pub enum AuthOutcome {
    Admitted,
    Rejected(AuthError),
}

/// Authentication is enabled only by a configured, non-empty secret.
pub open spec fn secret_configured(secret: Option<Seq<char>>) -> bool {
    match secret {
        Option::Some(s) => s.len() > 0,
        Option::None => false,
    }
}

/// The guard's decision table. With no configured secret every request
/// is admitted; with one, a request without the header is rejected as
/// `Missing`, one whose header differs is rejected as `Invalid`, and one
/// whose header matches exactly (case-sensitive, no normalization) is
/// admitted.
pub open spec fn authorize_spec(secret: Option<Seq<char>>, header: Option<Seq<char>>) -> AuthOutcome {
    if !secret_configured(secret) {
        AuthOutcome::Admitted
    } else {
        match header {
            Option::None => AuthOutcome::Rejected(AuthError::Missing),
            Option::Some(h) => if h == secret->0 {
                AuthOutcome::Admitted
            } else {
                AuthOutcome::Rejected(AuthError::Invalid)
            },
        }
    }
}

/// Decides whether a request may trigger the checks. `secret` is the
/// process-wide configured secret, `header` the request's secret header.
/// A pure decision: rejection carries the reason, and nothing is retried.
pub fn authorize(secret: &Option<String>, header: &Option<String>) -> (o: AuthOutcome)
    ensures
        o == authorize_spec(opt_text(*secret), opt_text(*header)),
{
    match secret {
        Option::None => AuthOutcome::Admitted,
        Option::Some(s) => {
            if s.as_str().is_empty() {
                AuthOutcome::Admitted
            } else {
                match header {
                    Option::None => AuthOutcome::Rejected(AuthError::Missing),
                    Option::Some(h) => {
                        if *h == *s {
                            AuthOutcome::Admitted
                        } else {
                            AuthOutcome::Rejected(AuthError::Invalid)
                        }
                    },
                }
            }
        },
    }
}

/// Law: whenever no secret is configured (unset or empty), every request
/// is admitted, with or without the header.
pub proof fn lemma_admits_when_unset(secret: Option<Seq<char>>, header: Option<Seq<char>>)
    requires
        !secret_configured(secret),
    ensures
        authorize_spec(secret, header) == AuthOutcome::Admitted,
{
}

/// Law: whenever a secret is configured, a request is admitted exactly
/// when its header is present and matches the secret.
pub proof fn lemma_admits_only_match(secret: Option<Seq<char>>, header: Option<Seq<char>>)
    requires
        secret_configured(secret),
    ensures
        authorize_spec(secret, header) == AuthOutcome::Admitted <==> header == Option::Some(
            secret->0,
        ),
        header is None ==> authorize_spec(secret, header) == AuthOutcome::Rejected(
            AuthError::Missing,
        ),
        header is Some && header != Option::Some(secret->0) ==> authorize_spec(secret, header)
            == AuthOutcome::Rejected(AuthError::Invalid),
{
}

} // verus!
