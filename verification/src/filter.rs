//! The filter orchestrator. A request runs through a strictly linear chain:
//! token extraction, one introspection call, the ordered claim checks, then
//! either the phantom-token substitution or a denial response. The host
//! performs the extraction and the POST; the decisions before and after that
//! single suspension point stand here.

use vstd::prelude::*;
use vstd::string::StringExecFns;

use crate::config::{Config, ConfigView};
use crate::introspect::{
    build_introspection_request, handle_introspection_response, introspection_headers,
    introspection_outcome, IntrospectionRequest, IntrospectionView,
};
use crate::codec::form_encoded_token;
use crate::respond::{error_to_response, header_views, response_for, HttpResponse};
use crate::strutil::str_eq;
use crate::validate::{validate_claims, validation_error};
use crate::FilterError;

verus! {

/// What the filter decides before any network traffic: either the
/// introspection request the host must send, or an immediate denial.
pub enum StartOutcome {
    Introspect(IntrospectionRequest),
    Deny(HttpResponse),
}

/// What the host hands back for the introspection call: the authority's
/// status and body, or a transport failure (connection error, timeout).
pub enum IntrospectionEvent {
    Response(u16, Vec<u8>),
    TransportError,
}

/// The filter's verdict on a request: let it proceed with the given phantom
/// token as its `Authorization` value, or answer it with a denial response.
pub enum Flow {
    Continue(String),
    Break(HttpResponse),
}

/// The first half of the pipeline, up to the single suspension point. A
/// request without an extractable token is denied at once — no introspection
/// request is produced for it. For every extracted token the introspection
/// POST is owed, with exactly the configured headers and the form-encoded
/// token as its body.
pub fn start_filter(config: &Config, token: Option<String>) -> (r: StartOutcome)
    ensures
        token is None ==> r is Deny && r->Deny_0@ == response_for(FilterError::NoToken),
        token is Some ==> r is Introspect && r->Introspect_0.body@ == form_encoded_token(
            token->Some_0@,
        ) && introspection_headers(config@, r->Introspect_0.headers@),
{
    match token {
        Some(token) => StartOutcome::Introspect(
            build_introspection_request(config, token.as_str()),
        ),
        None => StartOutcome::Deny(error_to_response(&FilterError::NoToken)),
    }
}

/// How the second half of the pipeline decides: the authority's reply is
/// normalised, then — with the wall clock read, whose failure is an
/// unexpected fault — the ordered claim checks run; what survives is the
/// validated response.
pub open spec fn finish_decision(
    c: ConfigView,
    status: u16,
    body: Seq<u8>,
    now: Option<u64>,
) -> Result<IntrospectionView, FilterError> {
    match introspection_outcome(c.use_application_jwt_header, status, body) {
        Err(e) => Err(e),
        Ok(v) => match now {
            None => Err(FilterError::Unexpected),
            Some(n) => match validation_error(v, c, n) {
                Some(e) => Err(e),
                None => Ok(v),
            },
        },
    }
}

/// The second half of the pipeline: takes what came back from the
/// introspection call and the current time in Unix seconds (`None` when the
/// clock failed), and returns the verdict. On success the flow continues
/// with the validated response's phantom token; every failure is mapped to
/// its protocol response.
pub fn finish_filter(config: &Config, event: IntrospectionEvent, now: Option<u64>) -> (r: Flow)
    ensures
        event is TransportError ==> r is Break && r->Break_0@ == response_for(
            FilterError::ClientError,
        ),
        event matches IntrospectionEvent::Response(status, body) ==> match finish_decision(
            config@,
            status,
            body@,
            now,
        ) {
            Ok(v) => r is Continue && r->Continue_0@ == v.phantom_token,
            Err(e) => r is Break && r->Break_0@ == response_for(e),
        },
{
    let (status, body) = match event {
        IntrospectionEvent::TransportError => {
            return Flow::Break(error_to_response(&FilterError::ClientError));
        },
        IntrospectionEvent::Response(status, body) => (status, body),
    };
    let response = match handle_introspection_response(config, status, body.as_slice()) {
        Ok(response) => response,
        Err(e) => {
            return Flow::Break(error_to_response(&e));
        },
    };
    let now = match now {
        Some(now) => now,
        None => {
            return Flow::Break(error_to_response(&FilterError::Unexpected));
        },
    };
    match validate_claims(&response, config, now) {
        Ok(()) => Flow::Continue(response.phantom_token),
        Err(e) => Flow::Break(error_to_response(&e)),
    }
}

/// A header list with every `Authorization` entry removed and one carrying
/// the phantom token appended: the credential is replaced exactly once, and
/// no other header is altered.
pub open spec fn with_phantom_credential(
    headers: Seq<(Seq<char>, Seq<char>)>,
    phantom: Seq<char>,
) -> Seq<(Seq<char>, Seq<char>)> {
    strip_authorization(headers).push(("Authorization"@, phantom))
}

/// The header list without its `Authorization` entries, order kept.
pub open spec fn strip_authorization(headers: Seq<(Seq<char>, Seq<char>)>) -> Seq<
    (Seq<char>, Seq<char>),
>
    decreases headers.len(),
{
    if headers.len() == 0 {
        Seq::empty()
    } else if headers[0].0 == "Authorization"@ {
        strip_authorization(headers.subrange(1, headers.len() as int))
    } else {
        seq![headers[0]] + strip_authorization(headers.subrange(1, headers.len() as int))
    }
}

/// Replaces the request's credential: removes every `Authorization` header
/// and appends one whose value is the phantom token.
pub fn apply_phantom_token(headers: &mut Vec<(String, String)>, phantom_token: &str)
    ensures
        header_views(final(headers)@) == with_phantom_credential(
            header_views(old(headers)@),
            phantom_token@,
        ),
{
    let ghost hv = header_views(headers@);
    let mut kept: Vec<(String, String)> = Vec::new();
    let mut i: usize = 0;
    proof {
        assert(hv.subrange(0, hv.len() as int) =~= hv);
        assert(header_views(kept@) =~= Seq::<(Seq<char>, Seq<char>)>::empty());
        assert(Seq::<(Seq<char>, Seq<char>)>::empty() + strip_authorization(hv)
            =~= strip_authorization(hv));
    }
    while i < headers.len()
        invariant
            i <= headers@.len(),
            *headers == *old(headers),
            hv == header_views(headers@),
            hv.len() == headers@.len(),
            strip_authorization(hv) == header_views(kept@) + strip_authorization(
                hv.subrange(i as int, hv.len() as int),
            ),
        decreases headers@.len() - i,
    {
        let ghost kept0 = kept@;
        let ghost suffix = hv.subrange(i as int, hv.len() as int);
        let (name, value) = (&headers[i].0, &headers[i].1);
        if !str_eq(name.as_str(), "Authorization") {
            kept.push((name.clone(), value.clone()));
        }
        proof {
            assert(suffix[0] == hv[i as int]);
            assert(suffix.subrange(1, suffix.len() as int) =~= hv.subrange(
                i + 1,
                hv.len() as int,
            ));
            if hv[i as int].0 == "Authorization"@ {
                assert(header_views(kept@) =~= header_views(kept0));
            } else {
                assert(header_views(kept@) =~= header_views(kept0).push(hv[i as int]));
                assert(header_views(kept0) + seq![hv[i as int]] =~= header_views(kept@));
                assert(header_views(kept@) + strip_authorization(
                    hv.subrange(i + 1, hv.len() as int),
                ) =~= header_views(kept0) + strip_authorization(suffix));
            }
        }
        i = i + 1;
    }
    proof {
        assert(hv.subrange(i as int, hv.len() as int) =~= Seq::empty());
        assert(header_views(kept@) + Seq::empty() =~= header_views(kept@));
    }
    kept.push((String::from_str("Authorization"), String::from_str(phantom_token)));
    proof {
        assert(header_views(kept@) =~= strip_authorization(hv).push(
            ("Authorization"@, phantom_token@),
        ));
    }
    *headers = kept;
}

} // verus!
