//! The request authentication gate. Per inbound request it decides one of
//! three outcomes: bypass (a pre-flight probe, or a path on the public
//! allow-list), authenticated (a bearer token that decodes and has not
//! expired; the subject is published into the request's identity slot), or
//! rejected (header absent or malformed, or token invalid or expired; no
//! handler runs).

use vstd::prelude::*;
use vstd::string::StrSliceExecFns;

use crate::errors::{AppError, AppErrorType};
use crate::jwt::{claims_in, claims_valid_at, Claims};
use crate::AppData;

verus! {

/// `needle` occurs in `hay` starting at position `i`.
pub open spec fn is_match_at(hay: Seq<char>, needle: Seq<char>, i: int) -> bool {
    0 <= i && i + needle.len() <= hay.len() && hay.subrange(i, i + needle.len()) == needle
}

/// `needle` occurs somewhere in `hay`.
pub open spec fn contains_seq(hay: Seq<char>, needle: Seq<char>) -> bool {
    exists|i: int| is_match_at(hay, needle, i)
}

fn match_at(hay: &str, needle: &str, i: usize) -> (b: bool)
    requires
        i + needle@.len() <= hay@.len(),
        hay@.len() <= usize::MAX,
    ensures
        b == is_match_at(hay@, needle@, i as int),
{
    let n = needle.unicode_len();
    let mut j: usize = 0;
    while j < n
        invariant
            j <= n,
            n == needle@.len(),
            i + n <= hay@.len() <= usize::MAX,
            forall|k: int| 0 <= k < j ==> hay@[i + k] == needle@[k],
        decreases n - j,
    {
        if hay.get_char(i + j) != needle.get_char(j) {
            proof {
                assert(hay@.subrange(i as int, i + needle@.len())[j as int] == hay@[i + j]);
            }
            return false;
        }
        j = j + 1;
    }
    proof {
        assert(hay@.subrange(i as int, i + needle@.len()) =~= needle@);
    }
    true
}

/// Decide whether `needle` occurs anywhere in `hay`.
pub fn contains_substr(hay: &str, needle: &str) -> (b: bool)
    ensures
        b == contains_seq(hay@, needle@),
{
    let hl = hay.unicode_len();
    let nl = needle.unicode_len();
    if nl > hl {
        proof {
            assert(forall|i: int| !is_match_at(hay@, needle@, i));
        }
        return false;
    }
    if nl == 0 {
        proof {
            assert(hay@.subrange(0, 0) =~= needle@);
            assert(is_match_at(hay@, needle@, 0));
        }
        return true;
    }
    let mut i: usize = 0;
    while i <= hl - nl
        invariant
            0 < nl <= hl,
            hl == hay@.len(),
            nl == needle@.len(),
            i <= hl - nl + 1,
            forall|k: int| 0 <= k < i ==> !is_match_at(hay@, needle@, k),
        decreases hl - nl + 1 - i,
    {
        if match_at(hay, needle, i) {
            return true;
        }
        i = i + 1;
    }
    proof {
        assert(forall|k: int| k > hl - nl ==> !is_match_at(hay@, needle@, k));
    }
    false
}

/// Exact string comparison.
pub fn str_eq_check(a: &str, b: &str) -> (r: bool)
    ensures
        r == (a@ == b@),
{
    let al = a.unicode_len();
    let bl = b.unicode_len();
    if al != bl {
        return false;
    }
    let m = match_at(a, b, 0);
    proof {
        assert(a@.subrange(0, a@.len() as int) =~= a@);
    }
    m
}

/// The public allow-list: a request whose path contains any of these
/// substrings skips the authentication gate. These are the login endpoint, the user create
/// and read endpoints, the public post listing and read endpoints, and the
/// public comment-read endpoints.
pub open spec fn path_is_public(path: Seq<char>) -> bool {
    ||| contains_seq(path, "auth/user"@)
    ||| contains_seq(path, "/user"@)
    ||| contains_seq(path, "/user/"@)
    ||| contains_seq(path, "/blogs"@)
    ||| contains_seq(path, "/blog/"@)
    ||| contains_seq(path, "/comment/"@)
}

/// Decide whether a path is on the public allow-list.
pub fn path_allowed(path: &str) -> (b: bool)
    ensures
        b == path_is_public(path@),
{
    ||| contains_substr(path, "auth/user")
    ||| contains_substr(path, "/user")
    ||| contains_substr(path, "/user/")
    ||| contains_substr(path, "/blogs")
    ||| contains_substr(path, "/blog/")
    ||| contains_substr(path, "/comment/")
}

/// The sequence with its leading spaces removed.
pub open spec fn ltrim(s: Seq<char>) -> Seq<char>
    decreases s.len(),
{
    if s.len() > 0 && s[0] == ' ' {
        ltrim(s.drop_first())
    } else {
        s
    }
}

/// The sequence with its trailing spaces removed.
pub open spec fn rtrim(s: Seq<char>) -> Seq<char>
    decreases s.len(),
{
    if s.len() > 0 && s.last() == ' ' {
        rtrim(s.drop_last())
    } else {
        s
    }
}

/// The sequence with spaces removed from both ends.
pub open spec fn trim_spec(s: Seq<char>) -> Seq<char> {
    rtrim(ltrim(s))
}

/// Remove spaces from both ends of a string.
pub fn trim_spaces(s: &str) -> (r: String)
    ensures
        r@ == trim_spec(s@),
{
    let len = s.unicode_len();
    proof {
        assert(s@.skip(0) =~= s@);
    }
    let mut start: usize = 0;
    while start < len && s.get_char(start) == ' '
        invariant
            start <= len,
            len == s@.len(),
            ltrim(s@) == ltrim(s@.skip(start as int)),
        decreases len - start,
    {
        proof {
            assert(s@.skip(start as int).drop_first() =~= s@.skip(start + 1));
        }
        start = start + 1;
    }
    proof {
        assert(ltrim(s@) == s@.skip(start as int));
    }
    let mut end: usize = len;
    while end > start && s.get_char(end - 1) == ' '
        invariant
            start <= end <= len,
            len == s@.len(),
            ltrim(s@) == s@.skip(start as int),
            rtrim(s@.skip(start as int)) == rtrim(s@.subrange(start as int, end as int)),
        decreases end,
    {
        proof {
            assert(s@.subrange(start as int, end as int).last() == s@[end - 1]);
            assert(s@.subrange(start as int, end as int).drop_last() =~= s@.subrange(
                start as int,
                end - 1,
            ));
        }
        end = end - 1;
    }
    proof {
        assert(s@.skip(start as int) =~= s@.subrange(start as int, len as int));
        assert(rtrim(s@.subrange(start as int, end as int)) == s@.subrange(
            start as int,
            end as int,
        ));
    }
    s.substring_char(start, end).to_owned()
}

/// The header value presents the bearer scheme: it starts with the scheme
/// word.
pub open spec fn has_bearer_prefix(h: Seq<char>) -> bool {
    h.len() >= 6 && h.subrange(0, 6) == "Bearer"@
}

/// The token carried by a bearer header: everything after the scheme word,
/// with surrounding spaces removed.
pub open spec fn bearer_token_of(h: Seq<char>) -> Seq<char> {
    trim_spec(h.skip(6))
}

/// Take the token out of a bearer header, if the header is well-formed.
pub fn extract_bearer(header: &str) -> (r: Option<String>)
    ensures
        has_bearer_prefix(header@) ==> (r matches Some(t) && t@ == bearer_token_of(header@)),
        !has_bearer_prefix(header@) ==> r is None,
{
    proof {
        reveal_strlit("Bearer");
    }
    let len = header.unicode_len();
    if len < 6 {
        return None;
    }
    if !match_at(header, "Bearer", 0) {
        return None;
    }
    let rest = header.substring_char(6, len);
    proof {
        assert(rest@ =~= header@.skip(6));
    }
    Some(trim_spaces(rest))
}

/// What the authentication gate decided for one request.
#[derive(Debug)]
pub enum GateOutcome {
    /// The request proceeds without an identity.
    Bypass,
    /// The request proceeds with the validated claims.
    Authenticated(Claims),
    /// The request is answered with this error; no handler runs.
    Rejected(AppError),
}

/// The authentication gate's full decision rule. A pre-flight probe or an allow-listed path
/// bypasses; otherwise a missing or malformed authorization header is
/// rejected as a missing credential, and a presented bearer token is
/// accepted exactly when it is genuine and unexpired.
pub open spec fn gate_spec(
    method: Seq<char>,
    path: Seq<char>,
    header: Option<Seq<char>>,
    now: u64,
    o: GateOutcome,
) -> bool {
    if method == "OPTIONS"@ {
        o is Bypass
    } else if path_is_public(path) {
        o is Bypass
    } else {
        match header {
            None => o matches GateOutcome::Rejected(e) && e.error_type
                == AppErrorType::JWtTokenError,
            Some(h) => {
                if !has_bearer_prefix(h) {
                    o matches GateOutcome::Rejected(e) && e.error_type
                        == AppErrorType::JWtTokenError
                } else {
                    let tok = bearer_token_of(h);
                    &&& match o {
                        GateOutcome::Bypass => false,
                        GateOutcome::Authenticated(c) => claims_in(tok) == Some((c.sub@, c.exp))
                            && claims_valid_at(c.exp, now),
                        GateOutcome::Rejected(e) => e.error_type == AppErrorType::JWtTokenError,
                    }
                    &&& claims_in(tok) matches Some(p) ==> (claims_valid_at(p.1, now) ==> (
                    o matches GateOutcome::Authenticated(c) && c.sub@ == p.0 && c.exp == p.1))
                }
            },
        }
    }
}

/// The authentication gate, as registered on the application.
pub struct CheckAuth;

/// The authentication gate wrapped around an inner service.
pub struct CheckAuthMiddleware<S> {
    pub service: S,
}

impl CheckAuth {
    /// Wrap an inner service with the authentication gate.
    pub fn new_transform<S>(&self, service: S) -> (m: CheckAuthMiddleware<S>)
        ensures
            m.service == service,
    {
        CheckAuthMiddleware { service }
    }

    /// Decide one request.
    pub fn decide(method: &str, path: &str, auth_header: Option<&str>, now: u64) -> (o:
        GateOutcome)
        ensures
            gate_spec(
                method@,
                path@,
                match auth_header {
                    Some(h) => Some(h@),
                    None => None,
                },
                now,
                o,
            ),
    {
        if str_eq_check(method, "OPTIONS") {
            return GateOutcome::Bypass;
        }
        if path_allowed(path) {
            return GateOutcome::Bypass;
        }
        match auth_header {
            None => GateOutcome::Rejected(missing_credential()),
            Some(h) => {
                match extract_bearer(h) {
                    None => GateOutcome::Rejected(missing_credential()),
                    Some(token) => {
                        match Claims::decode_req(token.as_str(), now) {
                            Ok(claims) => GateOutcome::Authenticated(claims),
                            Err(e) => GateOutcome::Rejected(e),
                        }
                    },
                }
            },
        }
    }
}

impl<S> CheckAuthMiddleware<S> {
    /// The authentication gate step of one request: decide, and on success publish the
    /// authenticated subject into the request's identity slot. The slot is
    /// written at most once, and only here.
    pub fn call(
        &self,
        method: &str,
        path: &str,
        auth_header: Option<&str>,
        now: u64,
        data: &mut AppData,
    ) -> (o: GateOutcome)
        requires
            old(data).user_id is None,
        ensures
            gate_spec(
                method@,
                path@,
                match auth_header {
                    Some(h) => Some(h@),
                    None => None,
                },
                now,
                o,
            ),
            o matches GateOutcome::Authenticated(c) ==> final(data).user_id matches Some(u) && u
                == c.sub,
            !(o matches GateOutcome::Authenticated(c)) ==> final(data).user_id is None,
    {
        let o = CheckAuth::decide(method, path, auth_header, now);
        match &o {
            GateOutcome::Authenticated(c) => {
                data.publish(c.sub.clone());
            },
            _ => {},
        }
        o
    }
}

fn missing_credential() -> (e: AppError)
    ensures
        e.error_type == AppErrorType::JWtTokenError,
{
    AppError {
        cause: Some("No Jwt token Attached".to_owned()),
        message: Some("Add the JWT token Header".to_owned()),
        error_type: AppErrorType::JWtTokenError,
    }
}

} // verus!
