//! The filter's configuration: loaded once by the host, shared read-only
//! across requests.

use vstd::prelude::*;

verus! {

/// The mathematical content of a [`Config`].
pub ghost struct ConfigView {
    pub introspection_client: Seq<char>,
    pub introspection_endpoint: Seq<char>,
    pub introspection_secret: Seq<char>,
    pub required_aud: Seq<char>,
    pub required_iss: Seq<char>,
    pub required_scope: Option<Seq<char>>,
    pub use_application_jwt_header: bool,
}

/// Filter configuration. All fields but the optional scope are mandatory;
/// the host validates and deserialises the configuration payload before
/// constructing this value.
pub struct Config {
    /// Client identifier presented to the introspection authority.
    pub introspection_client: String,
    /// Where the introspection POST is sent (kept for the host's use).
    pub introspection_endpoint: String,
    /// Shared secret presented to the introspection authority.
    pub introspection_secret: String,
    /// The audience the token must carry, compared exactly.
    pub required_aud: String,
    /// The issuer the token must carry, compared exactly.
    pub required_iss: String,
    /// Whitespace-separated scopes that must all be present, if configured.
    pub required_scope: Option<String>,
    /// Selects the introspection response contract: `application/jwt`
    /// (`true`) or a JSON body carrying a phantom-token claim (`false`).
    pub use_application_jwt_header: bool,
}

impl View for Config {
    type V = ConfigView;

    open spec fn view(&self) -> ConfigView {
        ConfigView {
            introspection_client: self.introspection_client@,
            introspection_endpoint: self.introspection_endpoint@,
            introspection_secret: self.introspection_secret@,
            required_aud: self.required_aud@,
            required_iss: self.required_iss@,
            required_scope: match self.required_scope {
                Some(ref s) => Some(s@),
                None => None,
            },
            use_application_jwt_header: self.use_application_jwt_header,
        }
    }
}

} // verus!
