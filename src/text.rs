//! Small facts about URLs: their scheme, and their final path segment.
use vstd::prelude::*;

verus! {

/// The characters of `s` after its last `/`; all of `s` when it has none.
pub open spec fn after_last_slash(s: Seq<char>) -> Seq<char>
    decreases s.len(),
{
    if s.len() == 0 {
        s
    } else if s.last() == '/' {
        Seq::empty()
    } else {
        after_last_slash(s.drop_last()).push(s.last())
    }
}

/// Relies on `str::rsplit`: its first item is the text after the last
/// `/`, or the whole string where there is none.
#[verifier::external_body]
fn last_segment(s: &str) -> (r: &str)
    ensures
        r@ == after_last_slash(s@),
{
    s.rsplit('/').next().unwrap_or(s)
}

/// The characters of `s`, one by one.
pub fn chars_of(s: &str) -> (r: Vec<char>)
    ensures
        r@ == s@,
{
    let mut out: Vec<char> = Vec::new();
    for c in it: s.chars()
        invariant
            it.seq() == s@,
            out@ == s@.take(it.index() as int),
    {
        out.push(c);
        assert(out@ =~= s@.take(it.index() as int + 1));
    }
    assert(out@ =~= s@);
    out
}

/// `s` begins with `p`.
pub open spec fn has_prefix(s: Seq<char>, p: Seq<char>) -> bool {
    p.len() <= s.len() && s.take(p.len() as int) == p
}

/// The scheme of an HTTP link.
pub open spec fn http_scheme() -> Seq<char> {
    seq!['h', 't', 't', 'p', ':', '/', '/']
}

/// The scheme of an HTTPS link.
pub open spec fn https_scheme() -> Seq<char> {
    seq!['h', 't', 't', 'p', 's', ':', '/', '/']
}

/// A download link: an HTTP or HTTPS scheme followed by at least one character.
pub open spec fn is_download_url(s: Seq<char>) -> bool {
    ||| has_prefix(s, http_scheme()) && s.len() > http_scheme().len()
    ||| has_prefix(s, https_scheme()) && s.len() > https_scheme().len()
}

/// Whether `s` begins with `p`.
fn starts_with(s: &Vec<char>, p: &Vec<char>) -> (r: bool)
    ensures
        r == has_prefix(s@, p@),
{
    if p.len() > s.len() {
        return false;
    }
    let mut i: usize = 0;
    while i < p.len()
        invariant
            i <= p.len(),
            p.len() <= s.len(),
            forall|j: int| 0 <= j < i ==> s@[j] == p@[j],
        decreases p.len() - i,
    {
        if s[i] != p[i] {
            return false;
        }
        i = i + 1;
    }
    assert(s@.take(p@.len() as int) =~= p@);
    true
}

/// Whether `url` is an HTTP or HTTPS link with something after the scheme.
pub fn check_download_url(url: &str) -> (r: bool)
    ensures
        r == is_download_url(url@),
{
    let s = chars_of(url);
    let http = vec!['h', 't', 't', 'p', ':', '/', '/'];
    let https = vec!['h', 't', 't', 'p', 's', ':', '/', '/'];
    assert(http@ =~= http_scheme());
    assert(https@ =~= https_scheme());
    (starts_with(&s, &http) && s.len() > http.len()) || (starts_with(&s, &https) && s.len()
        > https.len())
}

/// Name given to the saved installer when the link ends in `/`.
pub open spec fn fallback_name() -> Seq<char> {
    "nvda_installer.exe"@
}

/// The file name under which the artifact at `url` is saved.
pub open spec fn file_name_spec(url: Seq<char>) -> Seq<char> {
    if after_last_slash(url).len() == 0 {
        fallback_name()
    } else {
        after_last_slash(url)
    }
}

/// The file name for the artifact at `url`: its final path segment, or
/// `nvda_installer.exe` where that segment is empty.
pub fn file_name_for(url: &str) -> (r: String)
    ensures
        r@ == file_name_spec(url@),
{
    let seg = last_segment(url);
    if seg.is_empty() {
        "nvda_installer.exe".to_owned()
    } else {
        seg.to_owned()
    }
}

} // verus!
