//! The response mapper: every denial reason becomes a concrete protocol
//! response. Client-correctable failures get a specific 401; server-side
//! faults get a bare 500 that discloses nothing.

use vstd::prelude::*;
use vstd::string::StringExecFns;

use crate::FilterError;

verus! {

/// The mathematical content of an [`HttpResponse`].
pub ghost struct HttpResponseView {
    pub status: u16,
    pub headers: Seq<(Seq<char>, Seq<char>)>,
    pub body: Seq<char>,
}

/// The character content of a header list.
pub open spec fn header_views(headers: Seq<(String, String)>) -> Seq<(Seq<char>, Seq<char>)> {
    headers.map_values(|p: (String, String)| (p.0@, p.1@))
}

/// A protocol response the filter answers a denied request with.
#[derive(Debug)]
pub struct HttpResponse {
    pub status: u16,
    pub headers: Vec<(String, String)>,
    pub body: String,
}

impl View for HttpResponse {
    type V = HttpResponseView;

    open spec fn view(&self) -> HttpResponseView {
        HttpResponseView {
            status: self.status,
            headers: header_views(self.headers@),
            body: self.body@,
        }
    }
}

/// The JSON document a 401 response carries: a fixed `unauthorized` error
/// with the given description framed in. The description is spliced in
/// verbatim, with no JSON escaping: the document is well-formed exactly for
/// descriptions free of `"` and `\`, as every description of the error
/// taxonomy is.
pub open spec fn json_error_body(description: Seq<char>) -> Seq<char> {
    "{\"error\":\"unauthorized\",\"error_description\":\""@ + description + "\"}"@
}

/// The denial response: 401, a bearer challenge for the `oauth2` realm, and
/// the JSON error document.
pub open spec fn unauthorized_view(description: Seq<char>) -> HttpResponseView {
    HttpResponseView {
        status: 401,
        headers: seq![("WWW-Authenticate"@, "Bearer realm=\"oauth2\""@)],
        body: json_error_body(description),
    }
}

/// The server-fault response: 500 with nothing disclosed.
pub open spec fn server_error_view() -> HttpResponseView {
    HttpResponseView { status: 500, headers: Seq::empty(), body: Seq::empty() }
}

/// Builds the standard 401 response around a failure description. The
/// description goes into the JSON body verbatim, unescaped, so it must not
/// carry `"` or `\`: [`error_to_response`] is the intended entry and only
/// passes the fixed taxonomy texts, which are free of both.
pub fn unauthorized_response(error_description: &str) -> (r: HttpResponse)
    ensures
        r@ == unauthorized_view(error_description@),
{
    let mut body = String::new();
    body.append("{\"error\":\"unauthorized\",\"error_description\":\"");
    body.append(error_description);
    body.append("\"}");
    let mut headers: Vec<(String, String)> = Vec::new();
    headers.push(
        (String::from_str("WWW-Authenticate"), String::from_str("Bearer realm=\"oauth2\"")),
    );
    proof {
        assert(body@ =~= json_error_body(error_description@));
        assert(header_views(headers@) =~= unauthorized_view(error_description@).headers);
    }
    HttpResponse { status: 401, headers, body }
}

/// Builds the bare 500 response for server-side faults.
pub fn server_error_response() -> (r: HttpResponse)
    ensures
        r@ == server_error_view(),
{
    let r = HttpResponse { status: 500, headers: Vec::new(), body: String::new() };
    proof {
        assert(header_views(r.headers@) =~= Seq::<(Seq<char>, Seq<char>)>::empty());
    }
    r
}

/// The failures that are the server's fault: the caller learns nothing
/// beyond the 500.
pub open spec fn is_server_fault(e: FilterError) -> bool {
    e == FilterError::Unexpected || e == FilterError::ClientError
        || e == FilterError::NonParsableIntrospectionBody || e == FilterError::ParseJwt
}

/// The human text a 401 response describes its reason with.
pub open spec fn error_description_text(e: FilterError) -> Seq<char> {
    match e {
        FilterError::NoToken => "No authorization token was provided"@,
        FilterError::InactiveToken => "Inactive token"@,
        FilterError::ExpiredToken => "Token has expired"@,
        FilterError::NotYetActive => "Token is not yet valid"@,
        FilterError::MissingScope => "Missing required scope"@,
        FilterError::InvalidToken => "Invalid token"@,
        FilterError::WrongAud => "Invalid audience"@,
        FilterError::WrongIss => "Invalid issuer"@,
        _ => Seq::empty(),
    }
}

/// The protocol response each denial reason maps to.
pub open spec fn response_for(e: FilterError) -> HttpResponseView {
    if is_server_fault(e) {
        server_error_view()
    } else {
        unauthorized_view(error_description_text(e))
    }
}

/// Converts a denial reason into its protocol response.
pub fn error_to_response(error: &FilterError) -> (r: HttpResponse)
    ensures
        r@ == response_for(*error),
{
    match error {
        FilterError::Unexpected => server_error_response(),
        FilterError::NoToken => unauthorized_response("No authorization token was provided"),
        FilterError::InactiveToken => unauthorized_response("Inactive token"),
        FilterError::ExpiredToken => unauthorized_response("Token has expired"),
        FilterError::NotYetActive => unauthorized_response("Token is not yet valid"),
        FilterError::ClientError => server_error_response(),
        FilterError::NonParsableIntrospectionBody => server_error_response(),
        FilterError::MissingScope => unauthorized_response("Missing required scope"),
        FilterError::InvalidToken => unauthorized_response("Invalid token"),
        FilterError::ParseJwt => server_error_response(),
        FilterError::WrongAud => unauthorized_response("Invalid audience"),
        FilterError::WrongIss => unauthorized_response("Invalid issuer"),
    }
}

} // verus!
