use vstd::prelude::*;
use vstd::string::StringExecFns;

verus! {

/// Why a candidate long URL was refused.
#[derive(Debug, Clone, Copy, PartialEq, Eq, Structural)]
pub enum ValidationError {
    Empty,
    InvalidFormat,
}

/// Unicode White_Space, the property that `char::is_whitespace` tests.
pub open spec fn is_ws(c: char) -> bool {
    ||| ('\u{9}' <= c && c <= '\u{d}')
    ||| c == ' '
    ||| c == '\u{85}'
    ||| c == '\u{a0}'
    ||| c == '\u{1680}'
    ||| ('\u{2000}' <= c && c <= '\u{200a}')
    ||| c == '\u{2028}'
    ||| c == '\u{2029}'
    ||| c == '\u{202f}'
    ||| c == '\u{205f}'
    ||| c == '\u{3000}'
}

/// `s` without its leading whitespace.
pub open spec fn trim_start(s: Seq<char>) -> Seq<char>
    decreases s.len(),
{
    if s.len() > 0 && is_ws(s[0]) {
        trim_start(s.drop_first())
    } else {
        s
    }
}

/// `s` without its trailing whitespace.
pub open spec fn trim_end(s: Seq<char>) -> Seq<char>
    decreases s.len(),
{
    if s.len() > 0 && is_ws(s.last()) {
        trim_end(s.drop_last())
    } else {
        s
    }
}

/// `s` without surrounding whitespace.
pub open spec fn trimmed(s: Seq<char>) -> Seq<char> {
    trim_end(trim_start(s))
}

/// The scheme of `s` read as an absolute URL, or `None` when it does not
/// parse as one.
pub uninterp spec fn url_scheme(s: Seq<char>) -> Option<Seq<char>>;

/// Whether a parsed scheme is one that a long URL may have.
pub open spec fn is_web_scheme(scheme: Seq<char>) -> bool {
    scheme == "http"@ || scheme == "https"@
}

/// What validating a parsed candidate gives, from its parsed scheme.
pub open spec fn scheme_outcome(scheme: Option<Seq<char>>) -> Result<(), ValidationError> {
    match scheme {
        Some(s) => if is_web_scheme(s) {
            Ok(())
        } else {
            Err(ValidationError::InvalidFormat)
        },
        None => Err(ValidationError::InvalidFormat),
    }
}

/// What validating the candidate `s` gives.
pub open spec fn validation_outcome(s: Seq<char>) -> Result<(), ValidationError> {
    if trimmed(s).len() == 0 {
        Err(ValidationError::Empty)
    } else {
        scheme_outcome(url_scheme(trimmed(s)))
    }
}

/// Relies on `str::trim`: it removes leading and trailing characters with
/// the Unicode White_Space property, and nothing else.
#[verifier::external_body]
fn trim_str(s: &str) -> (r: &str)
    ensures
        r@ == trimmed(s@),
{
    s.trim()
}

/// Relies on `url::Url::parse` and `url::Url::scheme`: the scheme of the
/// parsed URL, or `None` where parsing fails. What parsing accepts is a
/// function of the input alone.
#[verifier::external_body]
fn parse_scheme(s: &str) -> (r: Option<String>)
    ensures
        match r {
            Some(x) => url_scheme(s@) == Some(x@),
            None => url_scheme(s@) is None,
        },
{
    url::Url::parse(s).ok().map(|u| u.scheme().to_string())
}

/// Decides a candidate from its parsed scheme (`None`: it did not parse).
pub fn check_scheme(scheme: Option<String>) -> (r: Result<(), ValidationError>)
    ensures
        r == scheme_outcome(
            match scheme {
                Some(x) => Some(x@),
                None => None,
            },
        ),
{
    match scheme {
        None => Err(ValidationError::InvalidFormat),
        Some(s) => {
            let http = String::from_str("http");
            let https = String::from_str("https");
            proof {
                reveal_strlit("http");
                reveal_strlit("https");
            }
            if s == http || s == https {
                Ok(())
            } else {
                Err(ValidationError::InvalidFormat)
            }
        },
    }
}

/// Checks that a candidate long URL, once trimmed, is non-empty and parses
/// as an absolute `http` or `https` URL. The candidate itself is not
/// changed.
pub fn validate_url(input: &str) -> (r: Result<(), ValidationError>)
    ensures
        r == validation_outcome(input@),
        (r == Err::<(), ValidationError>(ValidationError::Empty)) <==> trimmed(input@).len() == 0,
{
    let t = trim_str(input);
    if t.is_empty() {
        return Err(ValidationError::Empty);
    }
    let scheme = parse_scheme(t);
    check_scheme(scheme)
}

} // verus!
