//! URL fields of the configuration form.
//!
//! A URL field may be left empty. What is entered has to be an absolute URL
//! of one of the schemes that the field is for, and has to carry no
//! credentials: those have fields of their own.

use crate::ascii::str_eq;
use vstd::prelude::*;

verus! {

/// What the form reads of a URL that was parsed.
#[derive(Clone, Debug, PartialEq, Eq)]
pub struct ParsedUrl {
    /// The URL as the parser writes it back.
    pub text: String,
    /// The scheme, in lower case, without the colon.
    pub scheme: String,
    /// The username, empty where the URL has none.
    pub username: String,
    /// The password, where the URL has one.
    pub password: Option<String>,
}

/// A parsed URL, with sequences for its strings.
pub ghost struct UrlParts {
    pub text: Seq<char>,
    pub scheme: Seq<char>,
    pub username: Seq<char>,
    pub password: Option<Seq<char>>,
}

impl View for ParsedUrl {
    type V = UrlParts;

    open spec fn view(&self) -> UrlParts {
        UrlParts {
            text: self.text@,
            scheme: self.scheme@,
            username: self.username@,
            password: match self.password {
                Some(p) => Some(p@),
                None => None,
            },
        }
    }
}

/// What `url::Url::parse` makes of a text: the parts of the URL, or `None`
/// where the text is no absolute URL.
pub uninterp spec fn url_parse(raw: Seq<char>) -> Option<UrlParts>;

/// Calls `url::Url::parse` on `raw` and, where it succeeds, reads the
/// serialization, the scheme, the username and the password off the URL with
/// `as_str`, `scheme`, `username` and `password`. The parser looks at nothing
/// but its argument, so the result is `url_parse` of the text.
#[verifier::external_body]
fn parse_absolute(raw: &str) -> (parsed: Option<ParsedUrl>)
    ensures
        match parsed {
            Some(u) => url_parse(raw@) == Some(u@),
            None => url_parse(raw@) is None,
        },
{
    match url::Url::parse(raw) {
        Ok(u) => Some(
            ParsedUrl {
                text: u.as_str().to_owned(),
                scheme: u.scheme().to_owned(),
                username: u.username().to_owned(),
                password: u.password().map(str::to_owned),
            },
        ),
        Err(_) => None,
    }
}

/// Why a URL field was refused. A URL that was parsed is named as the
/// parser writes it back.
#[derive(Clone, Debug, PartialEq, Eq)]
pub enum UrlError {
    /// The text is no absolute URL.
    Unparseable,
    /// The URL is of a scheme that the field is not for.
    UnexpectedScheme(String),
    /// The URL carries a username or a password.
    UnexpectedCredentials(String),
}

/// A refusal, with a sequence for its text.
pub ghost enum UrlErrorView {
    Unparseable,
    UnexpectedScheme(Seq<char>),
    UnexpectedCredentials(Seq<char>),
}

impl View for UrlError {
    type V = UrlErrorView;

    open spec fn view(&self) -> UrlErrorView {
        match *self {
            UrlError::Unparseable => UrlErrorView::Unparseable,
            UrlError::UnexpectedScheme(text) => UrlErrorView::UnexpectedScheme(text@),
            UrlError::UnexpectedCredentials(text) => UrlErrorView::UnexpectedCredentials(text@),
        }
    }
}

/// Whether `scheme` is among `allowed`.
pub open spec fn scheme_allowed(scheme: Seq<char>, allowed: Seq<&str>) -> bool {
    exists|i: int| 0 <= i < allowed.len() && (#[trigger] allowed[i])@ == scheme
}

/// Whether a URL carries credentials: a username that is not empty, or a
/// password, be it empty.
pub open spec fn has_credentials(url: UrlParts) -> bool {
    url.username.len() > 0 || url.password is Some
}

/// What the form makes of a parsed URL field: the first of the three
/// refusals that applies, or the URL.
pub open spec fn check_url_spec(parsed: Option<UrlParts>, allowed: Seq<&str>) -> Result<
    UrlParts,
    UrlErrorView,
> {
    match parsed {
        None => Err(UrlErrorView::Unparseable),
        Some(url) => if !scheme_allowed(url.scheme, allowed) {
            Err(UrlErrorView::UnexpectedScheme(url.text))
        } else if has_credentials(url) {
            Err(UrlErrorView::UnexpectedCredentials(url.text))
        } else {
            Ok(url)
        },
    }
}

/// What the form makes of the text of a URL field.
pub open spec fn parse_url_spec(raw: Seq<char>, allowed: Seq<&str>) -> Result<
    Option<UrlParts>,
    UrlErrorView,
> {
    if raw.len() == 0 {
        Ok(None)
    } else {
        match check_url_spec(url_parse(raw), allowed) {
            Ok(url) => Ok(Some(url)),
            Err(e) => Err(e),
        }
    }
}

/// Whether `scheme` is among `allowed`.
fn is_allowed(scheme: &str, allowed: &[&str]) -> (found: bool)
    ensures
        found == scheme_allowed(scheme@, allowed@),
{
    let mut i: usize = 0;
    while i < allowed.len()
        invariant
            i <= allowed.len(),
            forall|j: int| 0 <= j < i ==> (#[trigger] allowed@[j])@ != scheme@,
        decreases allowed.len() - i,
    {
        if str_eq(allowed[i], scheme) {
            return true;
        }
        i = i + 1;
    }
    false
}

/// Checks a parsed URL against the schemes that a field is for.
pub fn check_url(parsed: Option<ParsedUrl>, allowed_schemes: &[&str]) -> (r: Result<
    ParsedUrl,
    UrlError,
>)
    ensures
        match r {
            Ok(url) => check_url_spec(option_view(parsed), allowed_schemes@) == Ok::<
                UrlParts,
                UrlErrorView,
            >(url@) && parsed == Some(url),
            Err(e) => check_url_spec(option_view(parsed), allowed_schemes@) == Err::<
                UrlParts,
                UrlErrorView,
            >(e@),
        },
{
    match parsed {
        None => Err(UrlError::Unparseable),
        Some(url) => {
            if !is_allowed(url.scheme.as_str(), allowed_schemes) {
                Err(UrlError::UnexpectedScheme(url.text))
            } else if !url.username.as_str().is_empty() || url.password.is_some() {
                Err(UrlError::UnexpectedCredentials(url.text))
            } else {
                Ok(url)
            }
        },
    }
}

/// The parts of a parsed URL, if there is one.
pub open spec fn option_view(parsed: Option<ParsedUrl>) -> Option<UrlParts> {
    match parsed {
        Some(url) => Some(url@),
        None => None,
    }
}

/// Reads a URL field. An empty field is no URL and no error.
pub fn parse_url(raw: &str, allowed_schemes: &[&str]) -> (r: Result<Option<ParsedUrl>, UrlError>)
    ensures
        match r {
            Ok(url) => parse_url_spec(raw@, allowed_schemes@) == Ok::<
                Option<UrlParts>,
                UrlErrorView,
            >(option_view(url)),
            Err(e) => parse_url_spec(raw@, allowed_schemes@) == Err::<
                Option<UrlParts>,
                UrlErrorView,
            >(e@),
        },
        raw@.len() == 0 ==> r == Ok::<Option<ParsedUrl>, UrlError>(None),
{
    if raw.is_empty() {
        return Ok(None);
    }
    match check_url(parse_absolute(raw), allowed_schemes) {
        Ok(url) => Ok(Some(url)),
        Err(e) => Err(e),
    }
}

} // verus!
