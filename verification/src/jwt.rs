//! The JWT payload decoder: split a compact token into its three segments,
//! decode the payload segment with URL-safe base64, and parse the decoded
//! bytes as a claim set. The signature segment is never inspected; trust is
//! delegated to the introspection authority.

use vstd::prelude::*;
use vstd::string::StrSliceExecFns;

use crate::codec::{base64_decode_url_safe, base64_url_safe_decoding};

verus! {

/// The mathematical content of a [`Claims`] value.
pub ghost struct ClaimsView {
    pub exp: Option<u64>,
    pub nbf: Option<u64>,
    pub scope: Seq<char>,
    pub aud: Seq<char>,
    pub iss: Seq<char>,
}

/// The claim set carried by a JWT payload: optional expiry and not-before
/// times in Unix seconds, a whitespace-separated scope string, an audience
/// and an issuer.
#[derive(Debug, Clone)]
pub struct Claims {
    pub exp: Option<u64>,
    pub nbf: Option<u64>,
    pub scope: String,
    pub aud: String,
    pub iss: String,
}

impl View for Claims {
    type V = ClaimsView;

    open spec fn view(&self) -> ClaimsView {
        ClaimsView {
            exp: self.exp,
            nbf: self.nbf,
            scope: self.scope@,
            aud: self.aud@,
            iss: self.iss@,
        }
    }
}

/// What JSON deserialization makes of a claim-set document: the claim set,
/// or nothing when the bytes do not hold one.
pub uninterp spec fn json_claims(bytes: Seq<u8>) -> Option<ClaimsView>;

/// Relies on serde_json to parse a claim-set document: `exp` and `nbf` are
/// optional non-negative integers, `scope`, `aud` and `iss` mandatory
/// strings, and the outcome depends on the bytes alone.
#[verifier::external_body]
fn parse_claims_json(bytes: &[u8]) -> (r: Option<Claims>)
    ensures
        r is Some <==> json_claims(bytes@) is Some,
        r is Some ==> r->Some_0@ == json_claims(bytes@)->Some_0,
{
    let v: serde_json::Value = serde_json::from_slice(bytes).ok()?;
    let exp = match v.get("exp") { Some(x) if !x.is_null() => Some(x.as_u64()?), _ => None };
    let nbf = match v.get("nbf") { Some(x) if !x.is_null() => Some(x.as_u64()?), _ => None };
    Some(Claims {
        exp,
        nbf,
        scope: v.get("scope")?.as_str()?.to_string(),
        aud: v.get("aud")?.as_str()?.to_string(),
        iss: v.get("iss")?.as_str()?.to_string(),
    })
}

/// Positions `i < j` are the only two dots of `s`: exactly this shape splits
/// a compact token into three segments (header, payload, signature).
pub open spec fn dots_at(s: Seq<char>, i: int, j: int) -> bool {
    &&& 0 <= i < j < s.len()
    &&& s[i] == '.'
    &&& s[j] == '.'
    &&& forall|k: int| 0 <= k < s.len() && s[k] == '.' ==> k == i || k == j
}

/// The token consists of exactly three dot-separated segments.
pub open spec fn has_three_segments(s: Seq<char>) -> bool {
    exists|i: int, j: int| dots_at(s, i, j)
}

/// The payload segment of a three-segment token: what stands between the
/// two dots.
pub open spec fn jwt_payload(s: Seq<char>) -> Seq<char>
    recommends
        has_three_segments(s),
{
    let (i, j) = choose|i: int, j: int| dots_at(s, i, j);
    s.subrange(i + 1, j)
}

/// What decoding a compact token yields: nothing unless the token has
/// exactly three segments whose payload is valid URL-safe base64 over a
/// JSON claim set; otherwise that claim set.
pub open spec fn jwt_claims(s: Seq<char>) -> Option<ClaimsView> {
    if has_three_segments(s) {
        match base64_url_safe_decoding(jwt_payload(s)) {
            Some(bytes) => json_claims(bytes),
            None => None,
        }
    } else {
        None
    }
}

/// Two dot pairs of the same token agree.
proof fn lemma_dots_at_unique(s: Seq<char>, i1: int, j1: int, i2: int, j2: int)
    requires
        dots_at(s, i1, j1),
        dots_at(s, i2, j2),
    ensures
        i1 == i2 && j1 == j2,
{
}

/// Decodes the payload of a compact three-segment JWT into its claim set,
/// without inspecting or verifying the signature segment. Returns `None` on
/// any malformation: wrong segment count, payload that is not URL-safe
/// base64, or decoded bytes that do not hold a claim-set document.
pub fn decode_jwt(token: &str) -> (r: Option<Claims>)
    ensures
        r is Some <==> jwt_claims(token@) is Some,
        r is Some ==> r->Some_0@ == jwt_claims(token@)->Some_0,
{
    let len = token.unicode_len();
    let mut idx: usize = 0;
    let mut d0: usize = 0;
    let mut d1: usize = 0;
    let mut count: usize = 0;
    while idx < len
        invariant
            idx <= len,
            count <= idx,
            len == token@.len(),
            count == 0 ==> forall|k: int| 0 <= k < idx ==> token@[k] != '.',
            count >= 1 ==> 0 <= d0 < idx && token@[d0 as int] == '.' && forall|k: int|
                0 <= k < d0 ==> token@[k] != '.',
            count >= 2 ==> d0 < d1 < idx && token@[d1 as int] == '.' && forall|k: int|
                d0 < k < d1 ==> token@[k] != '.',
            count == 1 ==> forall|k: int| d0 < k < idx ==> token@[k] != '.',
            count == 2 ==> forall|k: int| d1 < k < idx ==> token@[k] != '.',
            count >= 3 ==> exists|k: int|
                d1 < k < idx && #[trigger] token@[k] == '.' && token@[d0 as int] == '.'
                    && token@[d1 as int] == '.' && d0 < d1,
        decreases len - idx,
    {
        let c = token.get_char(idx);
        if c == '.' {
            if count == 0 {
                d0 = idx;
            } else if count == 1 {
                d1 = idx;
            }
            count = count + 1;
        }
        idx = idx + 1;
    }
    if count != 2 {
        proof {
            assert(!has_three_segments(token@)) by {
                if count == 0 || count == 1 {
                    assert forall|i: int, j: int| !dots_at(token@, i, j) by {
                        if dots_at(token@, i, j) {
                            assert(token@[i] == '.' && token@[j] == '.' && i < j);
                        }
                    }
                } else {
                    let w = choose|k: int|
                        d1 < k < len && #[trigger] token@[k] == '.' && token@[d0 as int] == '.'
                            && token@[d1 as int] == '.' && d0 < d1;
                    assert forall|i: int, j: int| !dots_at(token@, i, j) by {
                        if dots_at(token@, i, j) {
                            assert(d0 == i || d0 == j);
                            assert(d1 == i || d1 == j);
                            assert(w == i || w == j);
                        }
                    }
                }
            }
        }
        return None;
    }
    proof {
        assert(dots_at(token@, d0 as int, d1 as int));
    }
    let payload = token.substring_char(d0 + 1, d1);
    proof {
        let (ci, cj) = choose|i: int, j: int| dots_at(token@, i, j);
        lemma_dots_at_unique(token@, ci, cj, d0 as int, d1 as int);
        assert(payload@ == jwt_payload(token@));
    }
    let decoded = match base64_decode_url_safe(payload) {
        Some(bytes) => bytes,
        None => {
            return None;
        },
    };
    parse_claims_json(decoded.as_slice())
}

} // verus!
