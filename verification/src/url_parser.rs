//! Finding the public Quick Tunnel URL in the output of the tunnel process, and
//! deciding which URLs are trusted.
use vstd::prelude::*;
use vstd::slice::slice_subrange;
use vstd::string::StringExecFns;
use vstd::utf8::encode_utf8;

use crate::patterns::{regex_accepts, regex_matches, regex_replace_all, string_texts, Pattern};
use crate::text::{
    chars_of, ends_with_chars, has_suffix, lossy_from_utf8, lower_chars, lower_text,
    string_from_chars, utf8_lossy,
};

verus! {

/// How many bytes of recent output the extractor keeps.
pub const MAX_ACCUMULATOR_BYTES: usize = 16384;

/// The parts of a parsed URL that the validation reads.
pub struct UrlComponents {
    pub scheme: String,
    pub username: String,
    pub has_password: bool,
    pub port: Option<u16>,
    pub host: Option<String>,
    pub origin: String,
}

/// The model of `UrlComponents`: scheme, username, whether there is a password,
/// port, host, and ASCII serialization of the origin.
pub type UrlModel = (Seq<char>, Seq<char>, bool, Option<u16>, Option<Seq<char>>, Seq<char>);

impl View for UrlComponents {
    type V = UrlModel;

    open spec fn view(&self) -> UrlModel {
        (
            self.scheme@,
            self.username@,
            self.has_password,
            self.port,
            match self.host {
                Some(h) => Some(h@),
                None => None,
            },
            self.origin@,
        )
    }
}

/// What `url::Url::parse` makes of `input`, read through `scheme`, `username`,
/// `password`, `port`, `host_str` and `origin().ascii_serialization()`; `None` where
/// the text is no absolute URL.
pub uninterp spec fn url_parse(input: Seq<char>) -> Option<UrlModel>;

/// The serialization of the URL parsed from `input` after `set_fragment(fragment)`,
/// `set_query(query)` and `set_path(path)`; `None` where the text is no absolute URL.
pub uninterp spec fn url_reset(
    input: Seq<char>,
    fragment: Option<Seq<char>>,
    query: Option<Seq<char>>,
    path: Seq<char>,
) -> Option<Seq<char>>;

/// An optional text, by its characters.
pub open spec fn opt_str(o: Option<&str>) -> Option<Seq<char>> {
    match o {
        Some(s) => Some(s@),
        None => None,
    }
}

/// Parses `input` with `url::Url::parse` and reads the parts that the validation
/// needs.
///
/// Trusted: the result is `url_parse(input)`, a function of the text alone. (The
/// parse refuses, with an error, a text whose serialization would not fit in 4 GiB.)
#[verifier::external_body]
fn parse_url(input: &str) -> (r: Option<UrlComponents>)
    ensures
        match r {
            Some(c) => url_parse(input@) == Some(c@),
            None => url_parse(input@) is None,
        },
{
    let url = url::Url::parse(input).ok()?;
    Some(UrlComponents {
        scheme: url.scheme().to_owned(),
        username: url.username().to_owned(),
        has_password: url.password().is_some(),
        port: url.port(),
        host: url.host_str().map(|host| host.to_owned()),
        origin: url.origin().ascii_serialization(),
    })
}

/// Parses `input` with `url::Url::parse`, sets its fragment, query and path with
/// `set_fragment`, `set_query` and `set_path`, and serializes it.
///
/// Only the reset of an `https` URL to its root is admitted (no fragment, no query,
/// the path `/`): a special URL's path is never empty, so the serialization cannot
/// grow, while other values could make it outgrow the 4 GiB that the setters check
/// with a panic.
///
/// Trusted: the result is `url_reset` of the arguments, and the reset succeeds. The
/// url crate keeps every `Url` equal to what parsing its own serialization gives
/// (its `check_invariants`), and these setters leave the scheme, the credentials,
/// the host and the port as they were; so the result parses to the same parts as
/// `input`, and resetting it again gives it back unchanged.
#[verifier::external_body]
fn url_with(input: &str, fragment: Option<&str>, query: Option<&str>, path: &str) -> (r: Option<String>)
    requires
        fragment is None,
        query is None,
        path@ == "/"@,
        url_parse(input@) matches Some(parts) && parts.0 == "https"@,
    ensures
        r is Some,
        r matches Some(s) ==> url_reset(input@, opt_str(fragment), opt_str(query), path@) == Some(s@),
        r matches Some(s) ==> url_parse(s@) == url_parse(input@),
        r matches Some(s) ==> url_reset(s@, opt_str(fragment), opt_str(query), path@) == Some(s@),
{
    let mut url = url::Url::parse(input).ok()?;
    url.set_fragment(fragment);
    url.set_query(query);
    url.set_path(path);
    Some(url.to_string())
}

/// The host suffix of every Quick Tunnel URL.
pub open spec fn quick_tunnel_suffix() -> Seq<char> {
    ".trycloudflare.com"@
}

/// An ASCII letter or digit.
pub open spec fn is_alphanumeric(c: char) -> bool {
    ('a' <= c && c <= 'z') || ('A' <= c && c <= 'Z') || ('0' <= c && c <= '9')
}

/// A character allowed in a Quick Tunnel label.
pub open spec fn is_label_char(c: char) -> bool {
    is_alphanumeric(c) || c == '-'
}

/// A single DNS label of 1 to 63 ASCII letters, digits and hyphens that starts and
/// ends with a letter or digit. (Its characters are ASCII, so its length in
/// characters is its length in bytes.)
pub open spec fn valid_label(label: Seq<char>) -> bool {
    &&& 1 <= label.len() <= 63
    &&& forall|i: int| 0 <= i < label.len() ==> is_label_char(#[trigger] label[i])
    &&& is_alphanumeric(label[0])
    &&& is_alphanumeric(label[label.len() - 1])
}

/// Whether a (lower-cased) host is one Quick Tunnel label under the suffix.
pub open spec fn is_quick_tunnel_host(host: Seq<char>) -> bool {
    has_suffix(host, quick_tunnel_suffix()) && valid_label(
        host.take(host.len() - quick_tunnel_suffix().len()),
    )
}

/// Whether the parsed parts describe a trusted Quick Tunnel URL: `https`, no
/// credentials, no explicit port, and a host that is one label under the suffix.
pub open spec fn is_trusted_url(parts: UrlModel) -> bool {
    &&& parts.0 == "https"@
    &&& parts.1.len() == 0
    &&& !parts.2
    &&& parts.3 is None
    &&& parts.4 is Some
    &&& is_quick_tunnel_host(lower_text(parts.4->0))
}

/// Where `candidate` is a trusted Quick Tunnel URL, its root: the URL with no fragment,
/// no query, and the path `/`.
pub open spec fn validated_public_url(candidate: Seq<char>) -> Option<Seq<char>> {
    match url_parse(candidate) {
        Some(parts) => if is_trusted_url(parts) {
            url_reset(candidate, None, None, "/"@)
        } else {
            None
        },
        None => None,
    }
}

/// The ASCII origin of the normalized public URL, where `public_url` is trusted.
pub open spec fn public_origin(public_url: Seq<char>) -> Option<Seq<char>> {
    match validated_public_url(public_url) {
        Some(root) => match url_parse(root) {
            Some(parts) => Some(parts.5),
            None => None,
        },
        None => None,
    }
}

/// Whether `c` is a letter or digit.
fn alphanumeric(c: char) -> (r: bool)
    ensures
        r == is_alphanumeric(c),
{
    ('a' <= c && c <= 'z') || ('A' <= c && c <= 'Z') || ('0' <= c && c <= '9')
}

/// Whether the first `n` characters of `host` form a valid label.
fn label_is_valid(host: &Vec<char>, n: usize) -> (r: bool)
    requires
        n <= host.len(),
    ensures
        r == valid_label(host@.take(n as int)),
{
    let ghost label = host@.take(n as int);
    if n == 0 || n > 63 {
        return false;
    }
    let mut i: usize = 0;
    while i < n
        invariant
            i <= n,
            n <= host.len(),
            label == host@.take(n as int),
            forall|k: int| 0 <= k < i ==> is_label_char(#[trigger] label[k]),
        decreases n - i,
    {
        let c = host[i];
        if !(alphanumeric(c) || c == '-') {
            assert(!is_label_char(label[i as int]));
            return false;
        }
        i = i + 1;
    }
    alphanumeric(host[0]) && alphanumeric(host[n - 1])
}

/// Whether parsed URL parts describe a trusted Quick Tunnel URL: `https`, no
/// credentials, no explicit port, and a host that is one label under the suffix.
pub fn trusted_url_parts(parts: &UrlComponents) -> (r: bool)
    ensures
        r == is_trusted_url(parts@),
{
    let https = "https".to_owned();
    if !(parts.scheme == https) || !parts.username.as_str().is_empty() || parts.has_password
        || parts.port.is_some() {
        return false;
    }
    let host = match &parts.host {
        Some(host) => host,
        None => return false,
    };
    let lowered = lower_chars(&chars_of(host.as_str()));
    let suffix = chars_of(".trycloudflare.com");
    if !ends_with_chars(&lowered, &suffix) {
        return false;
    }
    label_is_valid(&lowered, lowered.len() - suffix.len())
}

/// Accepts only `https` Quick Tunnel URLs with a single-label host and no
/// credentials or port, and returns the URL's root: fragment and query removed, path
/// set to `/`.
pub fn validate_public_url(candidate: &str) -> (r: Option<String>)
    ensures
        match r {
            Some(s) => validated_public_url(candidate@) == Some(s@),
            None => validated_public_url(candidate@) is None,
        },
        r is Some <==> (url_parse(candidate@) matches Some(parts) && is_trusted_url(parts)),
        r matches Some(s) ==> validated_public_url(s@) == Some(s@),
        r matches Some(s) ==> url_parse(s@) == url_parse(candidate@),
{
    let parts = match parse_url(candidate) {
        Some(parts) => parts,
        None => return None,
    };
    if !trusted_url_parts(&parts) {
        return None;
    }
    url_with(candidate, None, None, "/")
}

/// The ASCII origin (`https://host`) of a trusted public URL.
pub fn public_origin_of(public_url: &str) -> (r: Option<String>)
    ensures
        match r {
            Some(s) => public_origin(public_url@) == Some(s@),
            None => public_origin(public_url@) is None,
        },
        r is Some <==> validated_public_url(public_url@) is Some,
        r matches Some(s) ==> (url_parse(public_url@) matches Some(parts) && s@ == parts.5),
{
    let validated = match validate_public_url(public_url) {
        Some(v) => v,
        None => return None,
    };
    match parse_url(validated.as_str()) {
        Some(parts) => Some(parts.origin),
        None => None,
    }
}

// ---------------------------------------------------------------------------
// The extractor
// ---------------------------------------------------------------------------

/// The expression that matches ANSI escape sequences (CSI and OSC).
pub open spec fn ansi_source() -> Seq<char> {
    r"\x1B(?:\[[0-?]*[ -/]*[@-~]|\][^\x07]*(?:\x07|\x1B\\))"@
}

/// The expression that matches URL candidates.
pub open spec fn candidate_source() -> Seq<char> {
    r#"https://[^\s<>\"']+"#@
}

/// A character trimmed from the end of a candidate.
pub open spec fn is_trailing_punctuation(c: char) -> bool {
    c == '.' || c == ',' || c == ';' || c == ':' || c == ')' || c == ']' || c == '}'
}

/// A candidate without its trailing punctuation.
pub open spec fn trim_trailing(s: Seq<char>) -> Seq<char>
    decreases s.len(),
{
    if s.len() > 0 && is_trailing_punctuation(s.last()) {
        trim_trailing(s.drop_last())
    } else {
        s
    }
}

/// The first candidate that validates, as validated.
pub open spec fn first_public_url(candidates: Seq<Seq<char>>) -> Option<Seq<char>>
    decreases candidates.len(),
{
    if candidates.len() == 0 {
        None
    } else {
        match validated_public_url(trim_trailing(candidates[0])) {
            Some(url) => Some(url),
            None => first_public_url(candidates.drop_first()),
        }
    }
}

/// The accumulated output, bounded to its last `MAX_ACCUMULATOR_BYTES` bytes
/// (decoded leniently when cut).
pub open spec fn bounded_output(text: Seq<char>) -> Seq<char> {
    let bytes = encode_utf8(text);
    if bytes.len() > MAX_ACCUMULATOR_BYTES {
        utf8_lossy(bytes.subrange(bytes.len() - MAX_ACCUMULATOR_BYTES, bytes.len() as int))
    } else {
        text
    }
}

/// The URL found in the accumulated output, once escape sequences are removed.
pub open spec fn url_in_output(output: Seq<char>) -> Option<Seq<char>> {
    first_public_url(regex_matches(candidate_source(), regex_replace_all(ansi_source(), output, ""@)))
}

/// Why an extractor could not be built.
#[derive(Debug, Clone, Copy, PartialEq, Eq, Structural)]
pub enum ExtractorError {
    /// One of the expressions did not compile.
    InvalidPattern,
}

/// Watches the tunnel's output for its public URL and reports the first trusted one.
pub struct PublicUrlExtractor {
    accumulator: String,
    ansi: Pattern,
    candidates: Pattern,
    accepted: bool,
}

/// The model of an extractor: the output kept so far and whether a URL was reported.
pub ghost struct ExtractorModel {
    pub accumulator: Seq<char>,
    pub accepted: bool,
}

impl View for PublicUrlExtractor {
    type V = ExtractorModel;

    closed spec fn view(&self) -> ExtractorModel {
        ExtractorModel { accumulator: self.accumulator@, accepted: self.accepted }
    }
}

/// The model of an extractor after it is handed `chunk`, and what it reports.
pub open spec fn extractor_step(m: ExtractorModel, chunk: Seq<u8>) -> (ExtractorModel, Option<Seq<char>>) {
    if m.accepted {
        (m, None)
    } else {
        let output = bounded_output(m.accumulator + utf8_lossy(chunk));
        let found = url_in_output(output);
        (ExtractorModel { accumulator: output, accepted: found is Some }, found)
    }
}

/// A candidate without its trailing punctuation.
fn trimmed(candidate: &str) -> (r: String)
    ensures
        r@ == trim_trailing(candidate@),
{
    let chars = chars_of(candidate);
    let mut end: usize = chars.len();
    assert(chars@.take(end as int) =~= chars@);
    while end > 0 && (chars[end - 1] == '.' || chars[end - 1] == ',' || chars[end - 1] == ';'
        || chars[end - 1] == ':' || chars[end - 1] == ')' || chars[end - 1] == ']' || chars[end
        - 1] == '}')
        invariant
            end <= chars.len(),
            trim_trailing(chars@.take(end as int)) == trim_trailing(candidate@),
        decreases end,
    {
        assert(chars@.take(end as int).drop_last() =~= chars@.take(end - 1));
        end = end - 1;
    }
    string_from_chars(slice_subrange(chars.as_slice(), 0, end))
}

/// The first candidate that validates once trimmed, as validated.
fn first_trusted(found: &Vec<String>) -> (r: Option<String>)
    ensures
        match r {
            Some(s) => first_public_url(string_texts(found@)) == Some(s@),
            None => first_public_url(string_texts(found@)) is None,
        },
        r matches Some(s) ==> validated_public_url(s@) == Some(s@),
{
    let ghost all = string_texts(found@);
    let mut i: usize = 0;
    assert(all.skip(0) =~= all);
    while i < found.len()
        invariant
            i <= found.len(),
            all == string_texts(found@),
            first_public_url(all) == first_public_url(all.skip(i as int)),
        decreases found.len() - i,
    {
        let candidate = trimmed(found[i].as_str());
        assert(all.skip(i as int)[0] == found@[i as int]@);
        assert(all.skip(i as int).drop_first() =~= all.skip(i + 1));
        if let Some(url) = validate_public_url(candidate.as_str()) {
            return Some(url);
        }
        i = i + 1;
    }
    assert(all.skip(i as int) =~= Seq::<Seq<char>>::empty());
    None
}

impl PublicUrlExtractor {
    /// The extractor's well-formedness: it holds the two expressions it was built with.
    pub closed spec fn wf(&self) -> bool {
        self.ansi@ == ansi_source() && self.candidates@ == candidate_source()
    }

    /// A fresh extractor; it fails only if an expression does not compile.
    pub fn new() -> (r: Result<PublicUrlExtractor, ExtractorError>)
        ensures
            r is Ok <==> (regex_accepts(ansi_source()) && regex_accepts(candidate_source())),
            r matches Ok(x) ==> x.wf() && x@ == (ExtractorModel {
                accumulator: Seq::empty(),
                accepted: false,
            }),
    {
        let ansi = match Pattern::compile(r"\x1B(?:\[[0-?]*[ -/]*[@-~]|\][^\x07]*(?:\x07|\x1B\\))") {
            Ok(p) => p,
            Err(_) => return Err(ExtractorError::InvalidPattern),
        };
        let candidates = match Pattern::compile(r#"https://[^\s<>\"']+"#) {
            Ok(p) => p,
            Err(_) => return Err(ExtractorError::InvalidPattern),
        };
        Ok(PublicUrlExtractor { accumulator: String::new(), ansi, candidates, accepted: false })
    }

    /// Adds a chunk of output; reports the first trusted URL found, once.
    pub fn push(&mut self, chunk: &[u8]) -> (r: Option<String>)
        requires
            old(self).wf(),
        ensures
            final(self).wf(),
            (final(self)@, match r {
                Some(s) => Some(s@),
                None => None,
            }) == extractor_step(old(self)@, chunk@),
            r matches Some(s) ==> validated_public_url(s@) == Some(s@),
    {
        if self.accepted {
            return None;
        }
        let decoded = lossy_from_utf8(chunk);
        self.accumulator.append(decoded.as_str());
        let len = self.accumulator.as_str().as_bytes().len();
        if len > MAX_ACCUMULATOR_BYTES {
            let keep_from = len - MAX_ACCUMULATOR_BYTES;
            let kept = lossy_from_utf8(
                slice_subrange(self.accumulator.as_str().as_bytes(), keep_from, len),
            );
            self.accumulator = kept;
        }
        let clean = self.ansi.replace_all(self.accumulator.as_str(), "");
        let found = self.candidates.find_all(clean.as_str());
        let url = first_trusted(&found);
        self.accepted = url.is_some();
        url
    }
}


/// Once an extractor has reported a URL it reports nothing more and keeps its state.
pub proof fn law_extractor_reports_once(m: ExtractorModel, chunk: Seq<u8>)
    requires
        m.accepted,
    ensures
        extractor_step(m, chunk) == (m, None::<Seq<char>>),
{
}

/// The URL that `first_public_url` picks out of a list of candidates is the
/// validated form of some candidate.
pub proof fn law_first_public_url_is_validated(candidates: Seq<Seq<char>>)
    requires
        first_public_url(candidates) is Some,
    ensures
        exists|c: Seq<char>| validated_public_url(c) == first_public_url(candidates),
    decreases candidates.len(),
{
    let c = trim_trailing(candidates[0]);
    if validated_public_url(c) is Some {
        assert(validated_public_url(c) == first_public_url(candidates));
    } else {
        law_first_public_url_is_validated(candidates.drop_first());
    }
}

/// A URL that the extractor reports is the validated form of some candidate, and
/// the extractor then counts as having reported.
pub proof fn law_reported_url_is_validated(m: ExtractorModel, chunk: Seq<u8>)
    requires
        extractor_step(m, chunk).1 is Some,
    ensures
        exists|c: Seq<char>| validated_public_url(c) == extractor_step(m, chunk).1,
        extractor_step(m, chunk).0.accepted,
{
    let output = bounded_output(m.accumulator + utf8_lossy(chunk));
    law_first_public_url_is_validated(
        regex_matches(candidate_source(), regex_replace_all(ansi_source(), output, ""@)),
    );
}

/// A validated URL comes from an `https` URL without credentials or port whose
/// lower-cased host is one valid label under the Quick Tunnel suffix, with its
/// fragment and query removed and its path set to `/`.
pub proof fn law_validated_urls_are_quick_tunnel_roots(candidate: Seq<char>)
    requires
        validated_public_url(candidate) is Some,
    ensures
        url_parse(candidate) matches Some(parts) && is_trusted_url(parts),
        validated_public_url(candidate) == url_reset(candidate, None, None, "/"@),
{
}

} // verus!
