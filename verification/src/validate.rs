//! The ordered claim-validation chain and the scope policy. A scope string
//! is a whitespace-separated set of permission identifiers; the policy asks
//! that every required identifier be present among the held ones.

use vstd::prelude::*;
use vstd::string::{StrSliceExecFns, StringExecFns};

use crate::config::{Config, ConfigView};
use crate::introspect::{IntrospectionResponse, IntrospectionView};
use crate::strutil::{is_space, is_whitespace_char, str_eq};
use crate::FilterError;

verus! {

/// `[i, j)` delimits one scope identifier of `s`: a maximal nonempty run of
/// non-whitespace characters.
pub open spec fn is_scope_token(s: Seq<char>, i: int, j: int) -> bool {
    &&& 0 <= i < j <= s.len()
    &&& forall|k: int| i <= k < j ==> !is_space(#[trigger] s[k])
    &&& (i == 0 || is_space(s[i - 1]))
    &&& (j == s.len() || is_space(s[j]))
}

/// `t` is one of the scope identifiers of `s`.
pub open spec fn has_scope_token(s: Seq<char>, t: Seq<char>) -> bool {
    exists|i: int, j: int| is_scope_token(s, i, j) && s.subrange(i, j) == t
}

/// Every scope identifier of `required` is also one of `held`. Containment,
/// not equality: identifiers of `held` beyond the required ones are no
/// failure.
pub open spec fn scopes_satisfied(required: Seq<char>, held: Seq<char>) -> bool {
    forall|i: int, j: int|
        is_scope_token(required, i, j) ==> has_scope_token(held, required.subrange(i, j))
}

/// Splits a string into its scope identifiers. The result lists exactly the
/// whitespace-separated identifiers of `s`.
pub fn split_scope_tokens(s: &str) -> (r: Vec<String>)
    ensures
        forall|k: int| 0 <= k < r@.len() ==> has_scope_token(s@, #[trigger] r@[k]@),
        forall|i: int, j: int|
            is_scope_token(s@, i, j) ==> exists|k: int|
                0 <= k < r@.len() && #[trigger] r@[k]@ == s@.subrange(i, j),
{
    let len = s.unicode_len();
    let mut out: Vec<String> = Vec::new();
    let mut i: usize = 0;
    while i < len
        invariant
            i <= len,
            len == s@.len(),
            0 < i < len && !is_space(s@[i as int]) ==> is_space(s@[i - 1]),
            forall|k: int| 0 <= k < out@.len() ==> has_scope_token(s@, #[trigger] out@[k]@),
            forall|a: int, b: int|
                is_scope_token(s@, a, b) && b <= i ==> exists|k: int|
                    0 <= k < out@.len() && #[trigger] out@[k]@ == s@.subrange(a, b),
        decreases len - i,
    {
        let c = s.get_char(i);
        if is_whitespace_char(c) {
            i = i + 1;
        } else {
            let start = i;
            let mut j = i;
            while j < len && !is_whitespace_char(s.get_char(j))
                invariant
                    start <= j <= len,
                    len == s@.len(),
                    forall|k: int| start <= k < j ==> !is_space(#[trigger] s@[k]),
                decreases len - j,
            {
                j = j + 1;
            }
            proof {
                assert(is_scope_token(s@, start as int, j as int));
            }
            let token = String::from_str(s.substring_char(start, j));
            let ghost out0 = out@;
            out.push(token);
            proof {
                assert forall|a: int, b: int| is_scope_token(s@, a, b) && b <= j implies exists|
                    k: int,
                |
                    0 <= k < out@.len() && #[trigger] out@[k]@ == s@.subrange(a, b) by {
                    if b <= start {
                        let k = choose|k: int|
                            0 <= k < out0.len() && #[trigger] out0[k]@ == s@.subrange(a, b);
                        assert(out0.push(token)[k] == out0[k]);
                        assert(out@[k]@ == s@.subrange(a, b));
                    } else {
                        // A scope token reaching past `start` coincides with
                        // the one just pushed: its bounds cannot cross the
                        // whitespace boundaries around [start, j).
                        if a < start {
                            assert(a <= start - 1 < b);
                            assert(!is_space(s@[start - 1]));
                            assert(false);
                        }
                        if a > start {
                            assert(start <= a - 1 < j);
                            assert(is_space(s@[a - 1]));
                            assert(false);
                        }
                        if b < j {
                            assert(start <= b < j);
                            assert(is_space(s@[b as int]));
                            assert(false);
                        }
                        if b > j {
                            assert(j < s@.len() && is_space(s@[j as int]));
                            assert(a <= j < b && !is_space(s@[j as int]));
                            assert(false);
                        }
                        assert(out@[out@.len() - 1]@ == s@.subrange(a, b));
                    }
                }
            }
            i = j;
        }
    }
    out
}

/// Does the list hold a string whose characters are exactly `s`?
fn contains_string(v: &Vec<String>, s: &str) -> (r: bool)
    ensures
        r == exists|k: int| 0 <= k < v@.len() && #[trigger] v@[k]@ == s@,
{
    let mut i: usize = 0;
    while i < v.len()
        invariant
            i <= v@.len(),
            forall|k: int| 0 <= k < i ==> #[trigger] v@[k]@ != s@,
        decreases v@.len() - i,
    {
        if str_eq(v[i].as_str(), s) {
            return true;
        }
        i = i + 1;
    }
    false
}

/// Decides the scope policy: every scope identifier of `required` must be
/// present among those of `held`.
pub fn check_scopes(required: &str, held: &str) -> (r: bool)
    ensures
        r == scopes_satisfied(required@, held@),
{
    let required_tokens = split_scope_tokens(required);
    let held_tokens = split_scope_tokens(held);
    let mut i: usize = 0;
    while i < required_tokens.len()
        invariant
            i <= required_tokens@.len(),
            forall|k: int| 0 <= k < required_tokens@.len() ==> has_scope_token(
                required@,
                #[trigger] required_tokens@[k]@,
            ),
            forall|a: int, b: int|
                is_scope_token(required@, a, b) ==> exists|k: int|
                    0 <= k < required_tokens@.len() && #[trigger] required_tokens@[k]@
                        == required@.subrange(a, b),
            forall|k: int| 0 <= k < held_tokens@.len() ==> has_scope_token(
                held@,
                #[trigger] held_tokens@[k]@,
            ),
            forall|a: int, b: int|
                is_scope_token(held@, a, b) ==> exists|k: int|
                    0 <= k < held_tokens@.len() && #[trigger] held_tokens@[k]@ == held@.subrange(
                        a,
                        b,
                    ),
            forall|k: int| 0 <= k < i ==> has_scope_token(held@, #[trigger] required_tokens@[k]@),
        decreases required_tokens@.len() - i,
    {
        if !contains_string(&held_tokens, required_tokens[i].as_str()) {
            proof {
                let t = required_tokens@[i as int]@;
                assert(has_scope_token(required@, t));
                assert(!has_scope_token(held@, t)) by {
                    if has_scope_token(held@, t) {
                        let (a, b) = choose|a: int, b: int|
                            is_scope_token(held@, a, b) && held@.subrange(a, b) == t;
                        assert(exists|k: int|
                            0 <= k < held_tokens@.len() && #[trigger] held_tokens@[k]@
                                == held@.subrange(a, b));
                    }
                }
                let (ri, rj) = choose|a: int, b: int|
                    is_scope_token(required@, a, b) && required@.subrange(a, b) == t;
                assert(is_scope_token(required@, ri, rj) && !has_scope_token(
                    held@,
                    required@.subrange(ri, rj),
                ));
            }
            return false;
        }
        i = i + 1;
    }
    proof {
        assert forall|a: int, b: int| is_scope_token(required@, a, b) implies has_scope_token(
            held@,
            required@.subrange(a, b),
        ) by {
            let k = choose|k: int|
                0 <= k < required_tokens@.len() && #[trigger] required_tokens@[k]@
                    == required@.subrange(a, b);
            assert(has_scope_token(held@, required_tokens@[k]@));
        }
    }
    true
}

/// The first policy check that a normalised introspection response fails at
/// time `now`, if any, in the fixed order: active, expiry, not-before,
/// audience, issuer, scope.
pub open spec fn validation_error(r: IntrospectionView, c: ConfigView, now: u64) -> Option<
    FilterError,
> {
    if !r.active {
        Some(FilterError::InactiveToken)
    } else if r.exp is Some && now > r.exp->Some_0 {
        Some(FilterError::ExpiredToken)
    } else if r.nbf is Some && now < r.nbf->Some_0 {
        Some(FilterError::NotYetActive)
    } else if r.aud != c.required_aud {
        Some(FilterError::WrongAud)
    } else if r.iss != c.required_iss {
        Some(FilterError::WrongIss)
    } else if c.required_scope is Some && !scopes_satisfied(c.required_scope->Some_0, r.scope) {
        Some(FilterError::MissingScope)
    } else {
        None
    }
}

/// Runs the ordered policy chain against a normalised introspection
/// response, short-circuiting on the first failing check.
pub fn validate_claims(response: &IntrospectionResponse, config: &Config, now: u64) -> (r: Result<
    (),
    FilterError,
>)
    ensures
        r is Ok <==> validation_error(response@, config@, now) is None,
        r is Err ==> r->Err_0 == validation_error(response@, config@, now)->Some_0,
{
    if !response.active {
        return Err(FilterError::InactiveToken);
    }
    if let Some(exp) = response.exp {
        if now > exp {
            return Err(FilterError::ExpiredToken);
        }
    }
    if let Some(nbf) = response.nbf {
        if now < nbf {
            return Err(FilterError::NotYetActive);
        }
    }
    if !str_eq(response.aud.as_str(), config.required_aud.as_str()) {
        return Err(FilterError::WrongAud);
    }
    if !str_eq(response.iss.as_str(), config.required_iss.as_str()) {
        return Err(FilterError::WrongIss);
    }
    if let Some(required_scope) = &config.required_scope {
        if !check_scopes(required_scope.as_str(), response.scope.as_str()) {
            return Err(FilterError::MissingScope);
        }
    }
    Ok(())
}

/// Validation order is fixed: a response that is simultaneously expired and
/// carries the wrong audience is reported as expired, never as a wrong
/// audience.
pub proof fn lemma_expired_reported_before_wrong_aud(
    r: IntrospectionView,
    c: ConfigView,
    now: u64,
)
    requires
        r.active,
        r.exp is Some,
        now > r.exp->Some_0,
        r.aud != c.required_aud,
    ensures
        validation_error(r, c, now) == Some(FilterError::ExpiredToken),
{
}

} // verus!
