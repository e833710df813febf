//! From the remote listing to the posts that are published.
//!
//! A refresh asks the listing for its entries, keeps those whose address
//! ends in a known extension, asks the remote side for the length of each,
//! and publishes what answered. The asking is left to the caller; what is
//! kept, under which name and with which size is decided here.

use crate::config::MemeFSConfig;
use crate::fs::{Post, PostView};
use crate::json::Json;
use crate::text::{
    decimal, extension, known_extension, parse_u64, push_decimal, spec_extension,
    spec_known_extension, spec_parse_u64,
};
use vstd::prelude::*;
use vstd::string::StringExecFns;

verus! {

/// The path segments of the address `url` as `reqwest::Url` reads them:
/// what `Url::parse` followed by `Url::path_segments` gives, each segment
/// still percent-encoded. `None` stands for an address that does not parse,
/// and for one that parses to a URL which cannot be a base and so has no
/// segments.
pub uninterp spec fn url_path_segments(url: Seq<char>) -> Option<Seq<Seq<char>>>;

/// Parses `url` with `reqwest::Url::parse` and hands out the segments that
/// `Url::path_segments` gives for it, one owned text per segment.
///
/// The contract gives this result its name, `url_path_segments`, and claims
/// no more: parsing reads nothing but the text it is given.
#[verifier::external_body]
fn path_segments(url: &str) -> (segments: Option<Vec<String>>)
    ensures
        segments.deep_view() == url_path_segments(url@),
{
    match reqwest::Url::parse(url) {
        Ok(parsed) => parsed.path_segments().map(|parts| parts.map(String::from).collect()),
        Err(_) => None,
    }
}

/// The extension under which an address with the path segments `segments`
/// is shown: the known extension that its last segment ends in. An address
/// without segments has none, nor has one whose last segment has no
/// extension or an unknown one.
pub open spec fn spec_shown_extension(segments: Option<Seq<Seq<char>>>) -> Option<Seq<char>> {
    match segments {
        Some(parts) => if parts.len() > 0 {
            match spec_extension(parts.last()) {
                Some(ext) => spec_known_extension(ext),
                None => None,
            }
        } else {
            None
        },
        None => None,
    }
}

/// The extension under which an address with the path segments `segments`
/// is shown.
pub fn shown_extension(segments: &Option<Vec<String>>) -> (shown: Option<&'static str>)
    ensures
        shown.deep_view() == spec_shown_extension(segments.deep_view()),
{
    match segments {
        Some(parts) => {
            if parts.len() == 0 {
                return None;
            }
            assert(parts.deep_view().last() == parts@[parts@.len() - 1]@);
            match extension(parts[parts.len() - 1].as_str()) {
                Some(ext) => known_extension(ext),
                None => None,
            }
        },
        None => None,
    }
}

/// The extension under which the address `url` is shown.
pub fn url_extension(url: &str) -> (shown: Option<&'static str>)
    ensures
        shown.deep_view() == spec_shown_extension(url_path_segments(url@)),
{
    let segments = path_segments(url);
    shown_extension(&segments)
}

/// An entry of the listing that is kept, before its length is known.
#[derive(Debug, PartialEq, Eq)]
pub struct Candidate {
    /// The entry's title, a dot, and the extension it is shown under.
    pub title: String,
    pub score: i64,
    pub url: String,
}

/// A candidate as a mathematical value.
pub struct CandidateView {
    pub title: Seq<char>,
    pub score: i64,
    pub url: Seq<char>,
}

impl View for Candidate {
    type V = CandidateView;

    open spec fn view(&self) -> CandidateView {
        CandidateView { title: self.title@, score: self.score, url: self.url@ }
    }
}

impl DeepView for Candidate {
    type V = CandidateView;

    open spec fn deep_view(&self) -> CandidateView {
        self@
    }
}

impl Clone for Candidate {
    fn clone(&self) -> (copy: Candidate)
        ensures
            copy@ == self@,
    {
        Candidate { title: self.title.clone(), score: self.score, url: self.url.clone() }
    }
}

/// The member `key` of the member `data` of `entry`.
pub open spec fn spec_field(entry: Json, key: Seq<char>) -> Option<Json> {
    match entry.spec_member("data"@) {
        Some(data) => data.spec_member(key),
        None => None,
    }
}

/// The text that is the member `key` of the member `data` of `entry`.
pub open spec fn spec_text_field(entry: Json, key: Seq<char>) -> Option<Seq<char>> {
    match spec_field(entry, key) {
        Some(value) => value.spec_text(),
        None => None,
    }
}

/// The integer that is the member `key` of the member `data` of `entry`.
pub open spec fn spec_integer_field(entry: Json, key: Seq<char>) -> Option<i64> {
    match spec_field(entry, key) {
        Some(value) => value.spec_integer(),
        None => None,
    }
}

/// The candidate that the entry with the address `url`, the title `title`
/// and the score `score` makes, the address having the path segments
/// `segments`. An entry is kept only if all three are there and the address
/// is shown under some extension.
pub open spec fn spec_candidate_of(
    url: Option<Seq<char>>,
    segments: Option<Seq<Seq<char>>>,
    title: Option<Seq<char>>,
    score: Option<i64>,
) -> Option<CandidateView> {
    if url is Some && title is Some && score is Some && spec_shown_extension(segments) is Some {
        Some(
            CandidateView {
                title: title->0 + seq!['.'] + spec_shown_extension(segments)->0,
                score: score->0,
                url: url->0,
            },
        )
    } else {
        None
    }
}

/// The candidate that the listing entry `entry` makes, if it is kept.
pub open spec fn spec_candidate(entry: Json) -> Option<CandidateView> {
    let url = spec_text_field(entry, "url"@);
    let segments = match url {
        Some(address) => url_path_segments(address),
        None => None,
    };
    spec_candidate_of(
        url,
        segments,
        spec_text_field(entry, "title"@),
        spec_integer_field(entry, "score"@),
    )
}

/// The candidates that `entries` make, in their order.
pub open spec fn spec_select(entries: Seq<Json>) -> Seq<CandidateView>
    decreases entries.len(),
{
    if entries.len() == 0 {
        Seq::empty()
    } else {
        match spec_candidate(entries.last()) {
            Some(kept) => spec_select(entries.drop_last()).push(kept),
            None => spec_select(entries.drop_last()),
        }
    }
}

/// The entries of `listing`: the elements of the array `children` in its
/// member `data`. A document of another shape has none.
pub open spec fn spec_children(listing: Json) -> Option<Seq<Json>> {
    match spec_field(listing, "children"@) {
        Some(children) => children.spec_elements(),
        None => None,
    }
}

/// The candidates of `listing`; none at all where it has no entries to
/// read them from.
pub open spec fn spec_candidates(listing: Json) -> Option<Seq<CandidateView>> {
    match spec_children(listing) {
        Some(entries) => Some(spec_select(entries)),
        None => None,
    }
}

/// The member `key` of the member `data` of `entry`.
fn field<'a>(entry: &'a Json, key: &str) -> (value: Option<&'a Json>)
    ensures
        value == match spec_field(*entry, key@) {
            Some(found) => Some(&found),
            None => None,
        },
{
    match entry.member("data") {
        Some(data) => data.member(key),
        None => None,
    }
}

/// The candidate that an entry with the address `url`, the title `title`
/// and the score `score` makes, `segments` being the path segments of the
/// address.
pub fn candidate_of(
    url: Option<&str>,
    segments: &Option<Vec<String>>,
    title: Option<&str>,
    score: Option<i64>,
) -> (kept: Option<Candidate>)
    ensures
        kept.deep_view() == spec_candidate_of(
            url.deep_view(),
            segments.deep_view(),
            title.deep_view(),
            score,
        ),
{
    let address = match url {
        Some(address) => address,
        None => { return None; },
    };
    let shown = match shown_extension(segments) {
        Some(shown) => shown,
        None => { return None; },
    };
    match (title, score) {
        (Some(title), Some(score)) => {
            let mut name = title.to_owned();
            proof {
                reveal_strlit(".");
            }
            name.append(".");
            name.append(shown);
            assert(name@ =~= title@ + seq!['.'] + shown@);
            Some(Candidate { title: name, score, url: address.to_owned() })
        },
        _ => None,
    }
}

/// The candidate that the listing entry `entry` makes, if it is kept.
pub fn candidate(entry: &Json) -> (kept: Option<Candidate>)
    ensures
        kept.deep_view() == spec_candidate(*entry),
{
    let url = match field(entry, "url") {
        Some(value) => value.text(),
        None => None,
    };
    let segments = match url {
        Some(address) => path_segments(address),
        None => None,
    };
    let title = match field(entry, "title") {
        Some(value) => value.text(),
        None => None,
    };
    let score = match field(entry, "score") {
        Some(value) => value.integer(),
        None => None,
    };
    candidate_of(url, &segments, title, score)
}

/// The candidates of `listing`, in the order of its entries.
///
/// A listing without entries to read, which is not the same as one with an
/// empty array of them, gives no answer: the refresh has failed.
pub fn candidates(listing: &Json) -> (kept: Option<Vec<Candidate>>)
    ensures
        kept.deep_view() == spec_candidates(*listing),
{
    let entries = match field(listing, "children") {
        Some(children) => match children.elements() {
            Some(entries) => entries,
            None => { return None; },
        },
        None => { return None; },
    };
    let mut kept: Vec<Candidate> = Vec::new();
    let mut at: usize = 0;
    assert(entries@.take(0) =~= Seq::<Json>::empty());
    while at < entries.len()
        invariant
            at <= entries@.len(),
            kept.deep_view() == spec_select(entries@.take(at as int)),
        decreases entries@.len() - at,
    {
        let ghost before = kept.deep_view();
        assert(entries@.take(at + 1).drop_last() =~= entries@.take(at as int));
        assert(entries@.take(at + 1).last() == entries@[at as int]);
        match candidate(&entries[at]) {
            Some(found) => {
                kept.push(found);
                assert(kept.deep_view() =~= before.push(found@));
            },
            None => {},
        }
        at += 1;
    }
    assert(entries@.take(at as int) =~= entries@);
    Some(kept)
}

/// How the remote side answered when asked for the length of a candidate's
/// content.
#[derive(Debug, PartialEq, Eq)]
pub enum Probe {
    /// It did not answer.
    Failed,
    /// It answered, advertising the length that `content_length` holds as
    /// text, or none.
    Answered { content_length: Option<Vec<u8>> },
}

/// The size that a candidate gets from its probe: 0 where the answer
/// advertises no length, the number where it advertises one. A candidate
/// whose probe failed, or advertised what is no number, gets none.
pub open spec fn spec_probed_size(probe: Probe) -> Option<u64> {
    match probe {
        Probe::Failed => None,
        Probe::Answered { content_length: None } => Some(0),
        Probe::Answered { content_length: Some(text) } => spec_parse_u64(text@),
    }
}

/// The size that a candidate gets from its probe.
pub fn probed_size(probe: &Probe) -> (size: Option<u64>)
    ensures
        size == spec_probed_size(*probe),
{
    match probe {
        Probe::Failed => None,
        Probe::Answered { content_length: None } => Some(0),
        Probe::Answered { content_length: Some(text) } => parse_u64(text.as_slice()),
    }
}

/// The post that `kept` makes with the probe at position `at` of `probes`;
/// a candidate that has no probe there is treated as one whose probe failed.
pub open spec fn spec_post(kept: CandidateView, probes: Seq<Probe>, at: int) -> Option<PostView> {
    if 0 <= at < probes.len() && spec_probed_size(probes[at]) is Some {
        Some(
            PostView {
                title: kept.title,
                score: kept.score,
                url: kept.url,
                size: spec_probed_size(probes[at])->0,
            },
        )
    } else {
        None
    }
}

/// The posts that `kept` make with `probes`, the probe at each position
/// being that of the candidate at the same position: the candidates that
/// got a size, in their order.
pub open spec fn spec_get_memes(kept: Seq<CandidateView>, probes: Seq<Probe>) -> Seq<PostView>
    decreases kept.len(),
{
    if kept.len() == 0 {
        Seq::empty()
    } else {
        match spec_post(kept.last(), probes, kept.len() - 1) {
            Some(post) => spec_get_memes(kept.drop_last(), probes).push(post),
            None => spec_get_memes(kept.drop_last(), probes),
        }
    }
}

/// The posts to publish: each of `kept` whose probe, at the same position
/// of `probes`, gave it a size.
pub fn get_memes(kept: &Vec<Candidate>, probes: &Vec<Probe>) -> (posts: Vec<Post>)
    ensures
        posts.deep_view() == spec_get_memes(kept.deep_view(), probes@),
        posts@.len() <= kept@.len(),
{
    let mut posts: Vec<Post> = Vec::new();
    let mut at: usize = 0;
    assert(kept.deep_view().take(0) =~= Seq::<CandidateView>::empty());
    while at < kept.len()
        invariant
            at <= kept@.len(),
            posts@.len() <= at,
            posts.deep_view() == spec_get_memes(kept.deep_view().take(at as int), probes@),
        decreases kept@.len() - at,
    {
        let ghost before = posts.deep_view();
        assert(kept.deep_view().take(at + 1).drop_last() =~= kept.deep_view().take(at as int));
        assert(kept.deep_view().take(at + 1).last() == kept@[at as int]@);
        if at < probes.len() {
            match probed_size(&probes[at]) {
                Some(size) => {
                    let post = Post {
                        title: kept[at].title.clone(),
                        score: kept[at].score,
                        url: kept[at].url.clone(),
                        size,
                    };
                    posts.push(post);
                    assert(posts.deep_view() =~= before.push(post@));
                },
                None => {},
            }
        }
        at += 1;
    }
    assert(kept.deep_view().take(at as int) =~= kept.deep_view());
    posts
}

/// The address that the listing is asked at: the configured target, then
/// `/.json?limit=`, then the configured limit in decimal.
pub open spec fn spec_listing_url(subreddit: Seq<char>, limit: u16) -> Seq<char> {
    subreddit + "/.json?limit="@ + decimal(limit as nat)
}

/// The address that the listing is asked at.
pub fn listing_url(config: &MemeFSConfig) -> (url: String)
    ensures
        url@ == spec_listing_url(config@.subreddit, config@.limit),
{
    let mut url = config.subreddit().to_owned();
    url.append("/.json?limit=");
    push_decimal(&mut url, config.limit());
    url
}

} // verus!
