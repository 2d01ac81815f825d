use vstd::prelude::*;

verus! {

/// What `url::Url::parse` makes of an input: `None` where it refuses the
/// input, else the serialization, the scheme and the host of the URL.
pub uninterp spec fn parsed_url(input: Seq<char>) -> Option<(Seq<char>, Seq<char>, Option<Seq<char>>)>;

/// An absolute URL, kept as the parts that the library reads.
#[derive(Debug)]
pub struct Url {
    serialized: String,
    scheme: String,
    host: Option<String>,
}

pub open spec fn opt_view(s: Option<String>) -> Option<Seq<char>> {
    match s {
        Some(s) => Some(s@),
        None => None,
    }
}

impl View for Url {
    type V = Seq<char>;

    open spec fn view(&self) -> Seq<char> {
        self.spec_serialized()
    }
}

impl Url {
    pub closed spec fn spec_serialized(&self) -> Seq<char> {
        self.serialized@
    }

    pub closed spec fn spec_scheme(&self) -> Seq<char> {
        self.scheme@
    }

    pub closed spec fn spec_host(&self) -> Option<Seq<char>> {
        opt_view(self.host)
    }

    /// The parts of this URL, as `parsed_url` names them.
    pub open spec fn spec_parts(&self) -> (Seq<char>, Seq<char>, Option<Seq<char>>) {
        (self.spec_serialized(), self.spec_scheme(), self.spec_host())
    }

    /// Parses an absolute URL.
    pub fn parse(input: &str) -> (r: Option<Url>)
        ensures
            r is Some <==> parsed_url(input@) is Some,
            r matches Some(u) ==> parsed_url(input@) == Some(u.spec_parts()),
    {
        parse_with_url_crate(input)
    }

    /// The URL as text.
    pub fn as_str(&self) -> (s: &str)
        ensures
            s@ == self@,
    {
        self.serialized.as_str()
    }

    /// The scheme, such as `http`.
    pub fn scheme(&self) -> (s: &str)
        ensures
            s@ == self.spec_scheme(),
    {
        self.scheme.as_str()
    }

    /// The host, if the URL has one.
    pub fn host_str(&self) -> (h: Option<&str>)
        ensures
            h is Some <==> self.spec_host() is Some,
            h matches Some(h) ==> self.spec_host() == Some(h@),
    {
        match &self.host {
            Some(h) => Some(h.as_str()),
            None => None,
        }
    }

    /// A copy of this URL.
    pub fn duplicate(&self) -> (u: Url)
        ensures
            u.spec_parts() == self.spec_parts(),
    {
        Url {
            serialized: self.serialized.clone(),
            scheme: self.scheme.clone(),
            host: match &self.host {
                Some(h) => Some(h.clone()),
                None => None,
            },
        }
    }
}

/// Calls `url::Url::parse` and keeps its serialization, scheme and host.
/// Trusted: the result is `parsed_url` of the input; nothing more is claimed
/// of what the `url` crate accepts.
#[verifier::external_body]
fn parse_with_url_crate(input: &str) -> (r: Option<Url>)
    ensures
        r is Some <==> parsed_url(input@) is Some,
        r matches Some(u) ==> parsed_url(input@) == Some(u.spec_parts()),
{
    match ::url::Url::parse(input) {
        Ok(u) => Some(Url {
            serialized: u.as_str().to_string(),
            scheme: u.scheme().to_string(),
            host: u.host_str().map(|h| h.to_string()),
        }),
        Err(_) => None,
    }
}

} // verus!
