//! The introspection client's verifiable halves: assembling the POST that
//! carries the token to the authority, and normalising the authority's reply
//! into one internal response shape, under either of the two wire contracts.

use vstd::prelude::*;
use vstd::string::StringExecFns;
use vstd::utf8::{decode_utf8, encode_utf8, valid_utf8};

use crate::codec::{
    base64_encode_standard, base64_standard_encoding, form_encode_token, form_encoded_token,
    string_from_utf8,
};
use crate::config::{Config, ConfigView};
use crate::jwt::{decode_jwt, jwt_claims};
use crate::FilterError;

verus! {

/// The mathematical content of an [`IntrospectionResponse`].
pub ghost struct IntrospectionView {
    pub active: bool,
    pub exp: Option<u64>,
    pub nbf: Option<u64>,
    pub scope: Seq<char>,
    pub aud: Seq<char>,
    pub iss: Seq<char>,
    pub phantom_token: Seq<char>,
}

/// The normalised introspection reply, one per request. In JSON mode it is
/// parsed directly from the authority's body and carries its own
/// `phantom_token` claim; in JWT-header mode it is synthesised from decoded
/// JWT claims, with `active` forced to `true` and `phantom_token` set to the
/// raw JWT string.
#[derive(Debug, Clone)]
pub struct IntrospectionResponse {
    pub active: bool,
    pub exp: Option<u64>,
    pub nbf: Option<u64>,
    pub scope: String,
    pub aud: String,
    pub iss: String,
    pub phantom_token: String,
}

impl View for IntrospectionResponse {
    type V = IntrospectionView;

    open spec fn view(&self) -> IntrospectionView {
        IntrospectionView {
            active: self.active,
            exp: self.exp,
            nbf: self.nbf,
            scope: self.scope@,
            aud: self.aud@,
            iss: self.iss@,
            phantom_token: self.phantom_token@,
        }
    }
}

/// What JSON deserialization makes of an introspection document: the
/// normalised response, or nothing when the bytes do not hold one.
pub uninterp spec fn json_introspection(bytes: Seq<u8>) -> Option<IntrospectionView>;

/// Relies on serde_json to parse an introspection document: `active` a
/// mandatory boolean, `exp` and `nbf` optional non-negative integers,
/// `scope`, `aud`, `iss` and `phantom_token` mandatory strings; the outcome
/// depends on the bytes alone.
#[verifier::external_body]
fn parse_introspection_json(bytes: &[u8]) -> (r: Option<IntrospectionResponse>)
    ensures
        r is Some <==> json_introspection(bytes@) is Some,
        r is Some ==> r->Some_0@ == json_introspection(bytes@)->Some_0,
{
    let v: serde_json::Value = serde_json::from_slice(bytes).ok()?;
    let exp = match v.get("exp") { Some(x) if !x.is_null() => Some(x.as_u64()?), _ => None };
    let nbf = match v.get("nbf") { Some(x) if !x.is_null() => Some(x.as_u64()?), _ => None };
    Some(IntrospectionResponse {
        active: v.get("active")?.as_bool()?,
        exp,
        nbf,
        scope: v.get("scope")?.as_str()?.to_string(),
        aud: v.get("aud")?.as_str()?.to_string(),
        iss: v.get("iss")?.as_str()?.to_string(),
        phantom_token: v.get("phantom_token")?.as_str()?.to_string(),
    })
}

/// The POST the host must send to the introspection endpoint: a header list
/// and a form-encoded body.
#[derive(Debug, Clone)]
pub struct IntrospectionRequest {
    pub headers: Vec<(String, String)>,
    pub body: String,
}

/// The HTTP Basic credential the introspection request carries: base64 of
/// the literal `client:secret` string.
pub open spec fn basic_auth_value(client: Seq<char>, secret: Seq<char>) -> Seq<char> {
    "Basic "@ + base64_standard_encoding(encode_utf8(client + ":"@ + secret))
}

/// The exact header list of the introspection POST: content type, Basic
/// credentials, and — in JWT-header mode — the `application/jwt` accept
/// header.
pub open spec fn introspection_headers(c: ConfigView, headers: Seq<(String, String)>) -> bool {
    &&& headers.len() == if c.use_application_jwt_header {
        3int
    } else {
        2int
    }
    &&& headers[0].0@ == "content-type"@
    &&& headers[0].1@ == "application/x-www-form-urlencoded"@
    &&& headers[1].0@ == "Authorization"@
    &&& headers[1].1@ == basic_auth_value(c.introspection_client, c.introspection_secret)
    &&& c.use_application_jwt_header ==> headers[2].0@ == "Accept"@ && headers[2].1@
        == "application/jwt"@
}

/// Assembles the introspection POST around an already form-encoded body.
pub fn assemble_introspection_request(config: &Config, body: String) -> (r: IntrospectionRequest)
    ensures
        r.body == body,
        introspection_headers(config@, r.headers@),
{
    let mut credentials = String::new();
    credentials.append(config.introspection_client.as_str());
    credentials.append(":");
    credentials.append(config.introspection_secret.as_str());
    proof {
        assert(credentials@ =~= config@.introspection_client + ":"@ + config@.introspection_secret);
    }
    let encoded = base64_encode_standard(credentials.as_str().as_bytes());
    let mut authorization = String::new();
    authorization.append("Basic ");
    authorization.append(encoded.as_str());
    proof {
        assert(authorization@ =~= basic_auth_value(
            config@.introspection_client,
            config@.introspection_secret,
        ));
    }
    let mut headers: Vec<(String, String)> = Vec::new();
    headers.push(
        (
            String::from_str("content-type"),
            String::from_str("application/x-www-form-urlencoded"),
        ),
    );
    headers.push((String::from_str("Authorization"), authorization));
    if config.use_application_jwt_header {
        headers.push((String::from_str("Accept"), String::from_str("application/jwt")));
    }
    IntrospectionRequest { headers, body }
}

/// Builds the introspection POST for a token: the body form-encodes
/// `token=<token>`, and the header list is exactly the configured one.
pub fn build_introspection_request(config: &Config, token: &str) -> (r: IntrospectionRequest)
    ensures
        r.body@ == form_encoded_token(token@),
        introspection_headers(config@, r.headers@),
{
    assemble_introspection_request(config, form_encode_token(token))
}

/// How the authority's reply normalises, by status code and configured mode.
/// A status other than 200 — 204 included — means the token is not active.
/// In JWT-header mode a 200 body is a raw JWT whose claims are copied
/// verbatim, `active` is forced to `true`, and the phantom token is the raw
/// body itself; a body that is not UTF-8 or does not decode is not
/// parsable. In JSON mode the body must hold an introspection document.
pub open spec fn introspection_outcome(jwt_mode: bool, status: u16, body: Seq<u8>) -> Result<
    IntrospectionView,
    FilterError,
> {
    if status != 200 {
        Err(FilterError::InactiveToken)
    } else if jwt_mode {
        if !valid_utf8(body) {
            Err(FilterError::NonParsableIntrospectionBody)
        } else {
            match jwt_claims(decode_utf8(body)) {
                Some(claims) => Ok(
                    IntrospectionView {
                        active: true,
                        exp: claims.exp,
                        nbf: claims.nbf,
                        scope: claims.scope,
                        aud: claims.aud,
                        iss: claims.iss,
                        phantom_token: decode_utf8(body),
                    },
                ),
                None => Err(FilterError::NonParsableIntrospectionBody),
            }
        }
    } else {
        match json_introspection(body) {
            Some(v) => Ok(v),
            None => Err(FilterError::NonParsableIntrospectionBody),
        }
    }
}

/// A reply whose status is anything but 200 — 204 included — normalises to
/// an inactive token, whichever mode is configured and whatever its body
/// holds.
pub proof fn lemma_non_200_status_is_inactive(jwt_mode: bool, status: u16, body: Seq<u8>)
    requires
        status != 200,
    ensures
        introspection_outcome(jwt_mode, status, body) == Err::<IntrospectionView, FilterError>(
            FilterError::InactiveToken,
        ),
{
}

/// In JWT-header mode, a 200 reply whose body is a syntactically valid
/// three-segment JWT normalises to a response that copies the decoded
/// claims verbatim, is forced active, and carries the raw body as the
/// phantom token.
pub proof fn lemma_jwt_mode_copies_claims(body: Seq<u8>)
    requires
        valid_utf8(body),
        jwt_claims(decode_utf8(body)) is Some,
    ensures
        ({
            let claims = jwt_claims(decode_utf8(body))->Some_0;
            introspection_outcome(true, 200, body) == Ok::<IntrospectionView, FilterError>(
                IntrospectionView {
                    active: true,
                    exp: claims.exp,
                    nbf: claims.nbf,
                    scope: claims.scope,
                    aud: claims.aud,
                    iss: claims.iss,
                    phantom_token: decode_utf8(body),
                },
            )
        }),
{
}

/// Normalises the authority's reply into the single internal response shape.
pub fn handle_introspection_response(config: &Config, status: u16, body: &[u8]) -> (r: Result<
    IntrospectionResponse,
    FilterError,
>)
    ensures
        r is Ok <==> introspection_outcome(config@.use_application_jwt_header, status, body@)
            is Ok,
        r is Ok ==> r->Ok_0@ == introspection_outcome(
            config@.use_application_jwt_header,
            status,
            body@,
        )->Ok_0,
        r is Err ==> r->Err_0 == introspection_outcome(
            config@.use_application_jwt_header,
            status,
            body@,
        )->Err_0,
{
    if status != 200 {
        return Err(FilterError::InactiveToken);
    }
    if config.use_application_jwt_header {
        let jwt = match string_from_utf8(body) {
            Some(jwt) => jwt,
            None => {
                return Err(FilterError::NonParsableIntrospectionBody);
            },
        };
        match decode_jwt(jwt.as_str()) {
            Some(claims) => Ok(
                IntrospectionResponse {
                    active: true,
                    exp: claims.exp,
                    nbf: claims.nbf,
                    scope: claims.scope,
                    aud: claims.aud,
                    iss: claims.iss,
                    phantom_token: jwt,
                },
            ),
            None => Err(FilterError::NonParsableIntrospectionBody),
        }
    } else {
        match parse_introspection_json(body) {
            Some(response) => Ok(response),
            None => Err(FilterError::NonParsableIntrospectionBody),
        }
    }
}

} // verus!
