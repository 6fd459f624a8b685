use vstd::prelude::*;
use vstd::string::*;
use crate::error::{ErrorKind, PlayerError, make_error};

verus! {

/// Where a media item's audio comes from, once its URL has been read.
#[derive(Debug, Clone)]
pub enum MediaTarget {
    /// A file on this machine, at the given path.
    LocalFile { path: String },
    /// A remote resource, streamed over HTTPS.
    Remote,
}

/// What a `MediaTarget` says, with the path as a sequence of characters.
pub ghost enum TargetView {
    LocalFile(Seq<char>),
    Remote,
}

impl View for MediaTarget {
    type V = TargetView;

    open spec fn view(&self) -> TargetView {
        match self {
            MediaTarget::LocalFile { path } => TargetView::LocalFile(path@),
            MediaTarget::Remote => TargetView::Remote,
        }
    }
}

/// An error as its kind and its message.
pub open spec fn error_view(e: PlayerError) -> (ErrorKind, Seq<char>) {
    (e.spec_kind(), e.spec_message())
}

pub open spec fn outcome_view(r: Result<MediaTarget, PlayerError>) -> Result<TargetView, (ErrorKind, Seq<char>)> {
    match r {
        Ok(t) => Ok(t@),
        Err(e) => Err(error_view(e)),
    }
}

/// The scheme that the URL standard's parser gives the string, lower-cased
/// and without its `:`, or `None` where the string is no valid URL.
pub uninterp spec fn parsed_scheme(s: Seq<char>) -> Option<Seq<char>>;

/// Relies on `url::Url::parse`, which succeeds exactly on valid URLs, and on
/// `Url::scheme`, which gives the parsed URL's scheme. On failure the parser's
/// error is handed on as its text.
#[verifier::external_body]
fn parse_url_scheme(s: &str) -> (r: Result<String, String>)
    ensures
        r is Ok <==> parsed_scheme(s@) is Some,
        r is Ok ==> Some(r->Ok_0@) == parsed_scheme(s@),
{
    ::url::Url::parse(s).map(|u| u.scheme().to_string()).map_err(|e| e.to_string())
}

pub open spec fn file_prefix() -> Seq<char> {
    "file://"@
}

/// `s` with the leading `p` taken off, where `s` starts with `p`.
pub open spec fn strip_prefix_spec(s: Seq<char>, p: Seq<char>) -> Option<Seq<char>> {
    if p.len() <= s.len() && s.subrange(0, p.len() as int) == p {
        Some(s.subrange(p.len() as int, s.len() as int))
    } else {
        None
    }
}

/// Takes `p` off the front of `s`, or gives `None` where `s` does not start with it.
pub fn strip_prefix_chars<'a>(s: &'a str, p: &str) -> (r: Option<&'a str>)
    ensures
        match r {
            Some(t) => strip_prefix_spec(s@, p@) == Some(t@),
            None => strip_prefix_spec(s@, p@) is None,
        },
{
    let n = s.unicode_len();
    let m = p.unicode_len();
    if m > n {
        return None;
    }
    let mut i: usize = 0;
    while i < m
        invariant
            m == p@.len(),
            n == s@.len(),
            m <= n,
            i <= m,
            s@.subrange(0, i as int) == p@.subrange(0, i as int),
        decreases m - i,
    {
        if s.get_char(i) != p.get_char(i) {
            assert(s@.subrange(0, m as int)[i as int] != p@[i as int]);
            return None;
        }
        assert(s@.subrange(0, i + 1) == s@.subrange(0, i as int).push(s@[i as int]));
        assert(p@.subrange(0, i + 1) == p@.subrange(0, i as int).push(p@[i as int]));
        i = i + 1;
    }
    assert(p@.subrange(0, m as int) == p@);
    Some(s.substring_char(m, n))
}

/// What reading a media URL gives: where the audio comes from, or the error,
/// from the URL and what the URL parser made of it (its scheme, or its
/// error text).
pub open spec fn resolution_spec(url: Seq<char>, parsed: Result<Seq<char>, Seq<char>>) -> Result<TargetView, (ErrorKind, Seq<char>)> {
    match parsed {
        Err(m) => Err((ErrorKind::Url, m)),
        Ok(scheme) => if scheme == "file"@ {
            match strip_prefix_spec(url, file_prefix()) {
                Some(path) => Ok(TargetView::LocalFile(path)),
                None => Err((ErrorKind::Io, "Invalid file URL"@)),
            }
        } else if scheme == "https"@ {
            Ok(TargetView::Remote)
        } else {
            Err((ErrorKind::Url, "Unsupported audio URL scheme: "@ + url))
        },
    }
}

pub open spec fn parsed_view(p: Result<String, String>) -> Result<Seq<char>, Seq<char>> {
    match p {
        Ok(s) => Ok(s@),
        Err(m) => Err(m@),
    }
}


/// Decides where a media item's audio comes from, given its URL and the
/// URL parser's result: `file` URLs name a local path (the text after
/// `file://`), `https` URLs are streamed, anything else is refused.
pub fn target_for_parsed(url: &str, parsed: Result<String, String>) -> (r: Result<MediaTarget, PlayerError>)
    ensures
        outcome_view(r) == resolution_spec(url@, parsed_view(parsed)),
{
    match parsed {
        Err(m) => Err(make_error(ErrorKind::Url, m)),
        Ok(scheme) => {
            if scheme == String::from_str("file") {
                match strip_prefix_chars(url, "file://") {
                    Some(path) => Ok(MediaTarget::LocalFile { path: String::from_str(path) }),
                    None => Err(make_error(ErrorKind::Io, String::from_str("Invalid file URL"))),
                }
            } else if scheme == String::from_str("https") {
                Ok(MediaTarget::Remote)
            } else {
                let msg = String::from_str("Unsupported audio URL scheme: ").concat(url);
                Err(make_error(ErrorKind::Url, msg))
            }
        },
    }
}

/// Reads a media URL: where its audio comes from, or why it cannot be had.
/// A URL that does not parse is a URL error that carries the parser's text.
pub fn resolve_target(url: &str) -> (r: Result<MediaTarget, PlayerError>)
    ensures
        parsed_scheme(url@) is Some ==> outcome_view(r) == resolution_spec(url@, Ok(parsed_scheme(url@)->0)),
        parsed_scheme(url@) is None ==> r is Err && r->Err_0.spec_kind() == ErrorKind::Url,
{
    let parsed = parse_url_scheme(url);
    target_for_parsed(url, parsed)
}

} // verus!
