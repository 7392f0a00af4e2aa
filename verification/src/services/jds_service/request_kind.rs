use vstd::prelude::*;
use crate::text::str_eq;

verus! {

/// The group that the regular expression `pattern` captures in `text` at its
/// first match, as `regex` finds it; `None` when there is no match, or the
/// group takes no part in it, or the pattern is not a valid expression.
pub uninterp spec fn regex_group(pattern: Seq<char>, text: Seq<char>, group: usize) -> Option<Seq<char>>;

/// Builds the regular expression `pattern` (single line) with
/// `regex::RegexBuilder` and returns the text of capture group `group` at
/// the first match in `text`. The result depends on the arguments alone.
#[verifier::external_body]
fn regex_capture(pattern: &str, text: &str, group: usize) -> (res: Option<String>)
    ensures
        match res {
            Some(s) => regex_group(pattern@, text@, group) == Some(s@),
            None => regex_group(pattern@, text@, group) is None,
        },
{
    match regex::RegexBuilder::new(pattern).multi_line(false).build() {
        Ok(re) => match re.captures(text) {
            Some(caps) => match caps.get(group) {
                Some(m) => Some(m.as_str().to_owned()),
                None => None,
            },
            None => None,
        },
        Err(_) => None,
    }
}

/// All supported kinds of request; also parses a request's point name.
/// ```
/// "Auth.Secret" <-> RequestKind::AuthSecret
/// "Auth.Ssh" <-> RequestKind::AuthSsh
/// "Auth.Points" or "Points" <-> RequestKind::Points
/// "Auth.Subscribe" or "Subscribe" <-> RequestKind::Subscribe
/// RequestKind::Unknown // - request string wasn't recognised
/// ```
#[derive(Debug, Clone, Copy, PartialEq, Eq, Structural)]
pub enum RequestKind {
    AuthSecret,
    AuthSsh,
    Points,
    Subscribe,
    Unknown,
}

/// The pattern of a request's point name: path segments, then the kind.
pub open spec fn request_pattern() -> Seq<char> {
    "(?:/(?:[^/]+))*/(Auth\\.Secret|Auth\\.Ssh|Auth\\.Points|Auth\\.Subscribe|Points|Subscribe)"@
}

/// The kind that a captured kind name stands for.
pub open spec fn kind_of_capture(cap: Option<Seq<char>>) -> RequestKind {
    match cap {
        Some(k) => if k == "Auth.Secret"@ {
            RequestKind::AuthSecret
        } else if k == "Auth.Ssh"@ {
            RequestKind::AuthSsh
        } else if k == "Auth.Points"@ || k == "Points"@ {
            RequestKind::Points
        } else if k == "Auth.Subscribe"@ || k == "Subscribe"@ {
            RequestKind::Subscribe
        } else {
            RequestKind::Unknown
        },
        None => RequestKind::Unknown,
    }
}

impl RequestKind {
    pub const AUTH_SECRET: &'static str = "Auth.Secret";
    pub const AUTH_SSH: &'static str = "Auth.Ssh";
    pub const POINTS: &'static str = "Points";
    pub const SUBSCRIBE: &'static str = "Subscribe";
    pub const AUTH_POINTS: &'static str = "Auth.Points";
    pub const AUTH_SUBSCRIBE: &'static str = "Auth.Subscribe";

    /// Returns the kind that the captured kind name `cap` stands for.
    pub fn from_capture(cap: Option<&str>) -> (res: RequestKind)
        ensures
            res == kind_of_capture(match cap { Some(c) => Some(c@), None => None }),
    {
        match cap {
            Some(kind) => {
                if str_eq(kind, "Auth.Secret") {
                    RequestKind::AuthSecret
                } else if str_eq(kind, "Auth.Ssh") {
                    RequestKind::AuthSsh
                } else if str_eq(kind, "Auth.Points") || str_eq(kind, "Points") {
                    RequestKind::Points
                } else if str_eq(kind, "Auth.Subscribe") || str_eq(kind, "Subscribe") {
                    RequestKind::Subscribe
                } else {
                    RequestKind::Unknown
                }
            }
            None => RequestKind::Unknown,
        }
    }

    /// Returns the kind of the request whose point name is `value`: the kind
    /// name after the last '/' of a path, found by the request pattern.
    pub fn from(value: &str) -> (res: RequestKind)
        ensures
            res == kind_of_capture(regex_group(request_pattern(), value@, 1)),
    {
        let re = "(?:/(?:[^/]+))*/(Auth\\.Secret|Auth\\.Ssh|Auth\\.Points|Auth\\.Subscribe|Points|Subscribe)";
        let cap = regex_capture(re, value, 1);
        match cap {
            Some(kind) => Self::from_capture(Some(kind.as_str())),
            None => Self::from_capture(None),
        }
    }
}

} // verus!
