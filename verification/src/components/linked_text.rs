//! Splitting note text into plain runs and openable web links.
use vstd::prelude::*;

use linkify::{LinkFinder, LinkKind};

use crate::platform::android::{is_web_scheme, parse_url, parsed_url};
use crate::text::{chars_of, has_prefix, push_all, push_str, string_from_chars};

verus! {

/// The consecutive spans (text, is a URL link) that `linkify`'s
/// `LinkFinder`, set to find URLs with or without a scheme, cuts a text into.
pub uninterp spec fn url_spans(text: Seq<char>) -> Seq<(Seq<char>, bool)>;

/// The texts of spans, one after the other.
pub open spec fn joined_span_texts(spans: Seq<(String, bool)>) -> Seq<char>
    decreases spans.len(),
{
    if spans.len() == 0 {
        Seq::empty()
    } else {
        joined_span_texts(spans.drop_last()) + spans.last().0@
    }
}

/// `LinkFinder::spans` with URL links only and the scheme optional. The
/// spans are consecutive and together make up the whole text.
#[verifier::external_body]
fn find_url_spans(text: &str) -> (r: Vec<(String, bool)>)
    ensures
        r@.len() == url_spans(text@).len(),
        forall|i: int|
            0 <= i < r@.len() ==> (#[trigger] r@[i]).0@ == url_spans(text@)[i].0 && r@[i].1
                == url_spans(text@)[i].1,
        joined_span_texts(r@) == text@,
{
    let mut finder = LinkFinder::new();
    finder.kinds(&[LinkKind::Url]);
    finder.url_must_have_scheme(false);
    finder.spans(text).map(|span| (span.as_str().to_string(), matches!(span.kind(), Some(LinkKind::Url)))).collect()
}

/// The text that a found link is parsed as: `www.` links get `https://`.
pub open spec fn link_candidate(raw: Seq<char>) -> Seq<char> {
    if "www."@.is_prefix_of(raw) {
        "https://"@ + raw
    } else {
        raw
    }
}

/// Where a span links to: only URL spans that parse with the `http` or
/// `https` scheme link, to their parsed form.
pub open spec fn link_target(raw: Seq<char>, is_url: bool) -> Option<Seq<char>> {
    if !is_url {
        None
    } else {
        match parsed_url(link_candidate(raw)) {
            Some((scheme, text)) => if is_web_scheme(scheme) {
                Some(text)
            } else {
                None
            },
            None => None,
        }
    }
}

/// A run of note text, with the link it opens if it is one.
#[derive(Debug, Clone, PartialEq, Eq)]
pub struct TextSegment {
    pub text: String,
    pub url: Option<String>,
}

/// The segments of a text joined back together.
pub open spec fn joined_segments(segments: Seq<TextSegment>) -> Seq<char>
    decreases segments.len(),
{
    if segments.len() == 0 {
        Seq::empty()
    } else {
        joined_segments(segments.drop_last()) + segments.last().text@
    }
}

fn link_url(raw: &String, is_url: bool) -> (r: Option<String>)
    ensures
        match (r, link_target(raw@, is_url)) {
            (Some(a), Some(b)) => a@ == b,
            (None, None) => true,
            _ => false,
        },
{
    if !is_url {
        return None;
    }
    let raw_chars = chars_of(raw.as_str());
    let candidate = if has_prefix(&raw_chars, "www.") {
        let mut out: Vec<char> = Vec::new();
        push_str(&mut out, "https://");
        push_all(&mut out, &raw_chars);
        string_from_chars(out.as_slice())
    } else {
        raw.clone()
    };
    match parse_url(candidate.as_str()) {
        Some((scheme, text)) => {
            let scheme_chars = chars_of(scheme.as_str());
            if is_http_scheme(&scheme_chars) {
                Some(text)
            } else {
                None
            }
        },
        None => None,
    }
}

fn is_http_scheme(scheme: &Vec<char>) -> (r: bool)
    ensures
        r == is_web_scheme(scheme@),
{
    let http = chars_of("http");
    let https = chars_of("https");
    same_chars(scheme, &http) || same_chars(scheme, &https)
}

fn same_chars(a: &Vec<char>, b: &Vec<char>) -> (r: bool)
    ensures
        r == (a@ == b@),
{
    if a.len() != b.len() {
        return false;
    }
    let mut i: usize = 0;
    while i < a.len()
        invariant
            a@.len() == b@.len(),
            i <= a@.len(),
            forall|k: int| 0 <= k < i ==> a@[k] == b@[k],
        decreases a@.len() - i,
    {
        if !(a[i] == b[i]) {
            assert(a@[i as int] != b@[i as int]);
            return false;
        }
        i = i + 1;
    }
    assert(a@ =~= b@);
    true
}

/// Cuts a note into runs of text; URL runs that parse as `http`/`https`
/// links carry their parsed link. The runs keep every character of the note.
pub fn link_segments(text: &str) -> (r: Vec<TextSegment>)
    ensures
        r@.len() == url_spans(text@).len(),
        forall|i: int|
            0 <= i < r@.len() ==> (#[trigger] r@[i]).text@ == url_spans(text@)[i].0 && match (
                r@[i].url,
                link_target(url_spans(text@)[i].0, url_spans(text@)[i].1),
            ) {
                (Some(a), Some(b)) => a@ == b,
                (None, None) => true,
                _ => false,
            },
        joined_segments(r@) == text@,
{
    let spans = find_url_spans(text);
    let mut segments: Vec<TextSegment> = Vec::new();
    let mut i: usize = 0;
    while i < spans.len()
        invariant
            i <= spans@.len(),
            spans@.len() == url_spans(text@).len(),
            forall|k: int|
                0 <= k < spans@.len() ==> (#[trigger] spans@[k]).0@ == url_spans(text@)[k].0
                    && spans@[k].1 == url_spans(text@)[k].1,
            joined_span_texts(spans@) == text@,
            segments@.len() == i,
            forall|k: int|
                0 <= k < i ==> (#[trigger] segments@[k]).text@ == url_spans(text@)[k].0 && match (
                    segments@[k].url,
                    link_target(url_spans(text@)[k].0, url_spans(text@)[k].1),
                ) {
                    (Some(a), Some(b)) => a@ == b,
                    (None, None) => true,
                    _ => false,
                },
            joined_segments(segments@) == joined_span_texts(spans@.subrange(0, i as int)),
        decreases spans@.len() - i,
    {
        let span = &spans[i];
        let url = link_url(&span.0, span.1);
        let ghost before = segments@;
        segments.push(TextSegment { text: span.0.clone(), url });
        proof {
            assert(segments@.drop_last() =~= before);
            assert(spans@.subrange(0, i + 1).drop_last() =~= spans@.subrange(0, i as int));
        }
        i = i + 1;
    }
    assert(spans@.subrange(0, spans@.len() as int) =~= spans@);
    segments
}

/// Links of both web schemes are clickable, to their parsed form: a URL run
/// whose text (with `https://` put before a `www.` run) parses with scheme
/// `http` or `https` links to the parsed URL; one of any other scheme, one
/// that does not parse, and a run that is not a URL link nowhere.
pub proof fn lemma_web_links_link(raw: Seq<char>, scheme: Seq<char>, text: Seq<char>)
    ensures
        link_target(raw, false) is None,
        !"www."@.is_prefix_of(raw) && parsed_url(raw) == Some((scheme, text)) ==> link_target(
            raw,
            true,
        ) == if scheme == "http"@ || scheme == "https"@ {
            Some(text)
        } else {
            None
        },
        "www."@.is_prefix_of(raw) && parsed_url("https://"@ + raw) == Some((scheme, text))
            ==> link_target(raw, true) == if scheme == "http"@ || scheme == "https"@ {
            Some(text)
        } else {
            None
        },
        !"www."@.is_prefix_of(raw) && parsed_url(raw) is None ==> link_target(raw, true) is None,
        "www."@.is_prefix_of(raw) && parsed_url("https://"@ + raw) is None ==> link_target(raw, true) is None,
{
}

} // verus!
