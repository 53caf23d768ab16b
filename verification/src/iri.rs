//! Identifiers: the URLs by which activities, actors and content are named.

use vstd::prelude::*;

verus! {

/// What the URL parser makes of `text`: `None` where it rejects the text,
/// else the serialization of the parsed URL and, where its host is a domain
/// name, that domain.
pub uninterp spec fn url_record(text: Seq<char>) -> Option<(Seq<char>, Option<Seq<char>>)>;

/// The mathematical value of an [`Iri`].
pub struct IriView {
    pub href: Seq<char>,
    pub authority: Option<Seq<char>>,
}

/// A parsed identifier URL.
///
/// It holds the serialization of the URL and its network authority: the
/// domain name of its host, if the host is one.
#[derive(Debug, PartialEq, Eq)]
pub struct Iri {
    href: String,
    domain: Option<String>,
}

impl View for Iri {
    type V = IriView;

    closed spec fn view(&self) -> IriView {
        IriView {
            href: self.href@,
            authority: match self.domain {
                Some(d) => Some(d@),
                None => None,
            },
        }
    }
}

/// The identifier that the parser's record `rec` describes.
pub open spec fn iri_of(rec: (Seq<char>, Option<Seq<char>>)) -> IriView {
    IriView { href: rec.0, authority: rec.1 }
}

/// The identifier that `text` denotes, if it is a URL.
pub open spec fn parse_iri(text: Seq<char>) -> Option<IriView> {
    match url_record(text) {
        Some(rec) => Some(iri_of(rec)),
        None => None,
    }
}

/// The value of a record of texts.
pub open spec fn record_view(r: Option<(String, Option<String>)>) -> Option<
    (Seq<char>, Option<Seq<char>>),
> {
    match r {
        Some((href, Some(domain))) => Some((href@, Some(domain@))),
        Some((href, None)) => Some((href@, None)),
        None => None,
    }
}

/// Calls `url::Url::parse` on `text` and reads the result off as plain
/// values. Trusted: the result is what `url_record` names for `text`, that
/// is `None` where `Url::parse` returns an error, else the URL's
/// serialization (`Url::as_str`) and its domain (`Url::domain`).
#[verifier::external_body]
fn parse_url(text: &str) -> (r: Option<(String, Option<String>)>)
    ensures
        record_view(r) == url_record(text@),
{
    match url::Url::parse(text) {
        Ok(u) => Some((u.as_str().to_string(), u.domain().map(str::to_string))),
        Err(_) => None,
    }
}

impl Iri {
    /// Parses `text` as a URL.
    pub fn parse(text: &str) -> (r: Option<Iri>)
        ensures
            match r {
                Some(iri) => parse_iri(text@) == Some(iri@),
                None => parse_iri(text@) is None,
            },
    {
        match parse_url(text) {
            Some(rec) => {
                let (href, domain) = rec;
                Some(Iri { href, domain })
            },
            None => None,
        }
    }

    /// The serialization of the URL.
    pub fn as_str(&self) -> (s: &str)
        ensures
            s@ == self@.href,
    {
        self.href.as_str()
    }

    /// The domain of the URL's host, if it has one.
    pub fn authority(&self) -> (d: Option<&str>)
        ensures
            match d {
                Some(s) => self@.authority == Some(s@),
                None => self@.authority is None,
            },
    {
        match &self.domain {
            Some(d) => Some(d.as_str()),
            None => None,
        }
    }

    /// A copy of this identifier.
    pub fn duplicate(&self) -> (r: Iri)
        ensures
            r@ == self@,
    {
        Iri {
            href: self.href.clone(),
            domain: match &self.domain {
                Some(d) => Some(d.clone()),
                None => None,
            },
        }
    }

    /// Whether the two identifiers are the same URL.
    pub fn same_as(&self, other: &Iri) -> (b: bool)
        ensures
            b == (self@ == other@),
    {
        self.href == other.href && same_text(&self.domain, &other.domain)
    }

    /// Whether the two identifiers have the same network authority. Two
    /// identifiers without one count as the same.
    pub fn same_authority(&self, other: &Iri) -> (b: bool)
        ensures
            b == (self@.authority == other@.authority),
    {
        same_text(&self.domain, &other.domain)
    }

    /// Whether the identifier's serialization is `text`.
    pub fn is_text(&self, text: &str) -> (b: bool)
        ensures
            b == (self@.href == text@),
    {
        let owned = text.to_owned();
        self.href == owned
    }

    /// Whether the identifier's authority is the domain `domain`.
    pub fn has_authority(&self, domain: &String) -> (b: bool)
        ensures
            b == (self@.authority == Some(domain@)),
    {
        match &self.domain {
            Some(d) => *d == *domain,
            None => false,
        }
    }
}

/// Whether two optional texts are equal.
fn same_text(a: &Option<String>, b: &Option<String>) -> (r: bool)
    ensures
        r == (match (*a, *b) {
            (Some(x), Some(y)) => x@ == y@,
            (None, None) => true,
            _ => false,
        }),
{
    match (a, b) {
        (Some(x), Some(y)) => *x == *y,
        (None, None) => true,
        _ => false,
    }
}

} // verus!
