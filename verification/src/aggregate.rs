//! The feed aggregator: merge, truncate, resolve images, normalize.
//!
//! One refresh merges the raw entries of a source group, keeps the first
//! [`crate::MAX_ITEMS`], pairs each kept entry with the outcome of its image
//! resolution, and normalizes every entry into the final record list. Image
//! failures degrade the affected entry; a missing required field aborts the
//! whole refresh.

use vstd::prelude::*;

use crate::MAX_ITEMS;
use crate::cache::CacheError;
use crate::entry::Entry;
use crate::entry::EntryView;
use crate::entry::opt_view;
use crate::merge::MergeError;
use crate::merge::common_len;
use crate::merge::equal_lengths;
use crate::merge::interleave;
use crate::merge::unify;
use crate::merge::views;
use crate::news::News;
use crate::news::NewsView;
use crate::news::NormalizeError;
use crate::news::news_result_view;
use crate::news::spec_normalize;

verus! {

/// Why one refresh produced no result.
#[derive(Debug, PartialEq, Eq)]
pub enum AggregateError {
    /// A required feed could not be fetched or parsed; carries the label of
    /// the source that was being refreshed.
    SourceUnavailable(String),
    /// A required field was missing from an entry after every feed of the
    /// group was fetched.
    MalformedEntry(NormalizeError),
    /// The feeds of one source group yielded entry lists of unequal length.
    UnequalSources,
}

/// One aggregation run: the normalized records, in merge order after
/// truncation, and the label of the source group that produced them.
#[derive(Debug)]
pub struct RSS {
    pub items: Vec<News>,
    pub source: String,
}

impl RSS {
    /// Every record respects the download invariant.
    pub open spec fn wf(self) -> bool {
        forall|k: int| 0 <= k < self.items@.len() ==> (#[trigger] self.items@[k])@.wf()
    }
}

impl Default for RSS {
    /// An empty result: no records, an empty source label.
    fn default() -> (r: RSS)
        ensures
            r.items@.len() == 0,
            r.source@.len() == 0,
    {
        RSS { items: Vec::new(), source: String::new() }
    }
}

/// The image URL one entry offers: the enclosure's URL when there is an
/// enclosure, else the URL of a media extension whose declared medium is
/// `"image"`, else nothing.
pub open spec fn spec_image_url(e: EntryView) -> Option<Seq<char>> {
    if e.enclosure_url is Some {
        e.enclosure_url
    } else {
        match e.media {
            Some(m) => {
                if m.medium == Some("image"@) && m.url is Some {
                    m.url
                } else {
                    None
                }
            },
            None => None,
        }
    }
}

/// Picks the image URL of one entry, if it offers one: a direct enclosure
/// takes precedence; otherwise a media extension counts only when its
/// declared medium is `"image"` and it carries a URL.
pub fn image_url_of(e: &Entry) -> (r: Option<String>)
    ensures
        opt_view(r) == spec_image_url(e@),
{
    match &e.enclosure_url {
        Some(u) => Some(u.clone()),
        None => match &e.media {
            Some(m) => match (&m.medium, &m.url) {
                (Some(med), Some(u)) => {
                    let img = String::from_str("image");
                    if *med == img {
                        Some(u.clone())
                    } else {
                        None
                    }
                },
                _ => None,
            },
            None => None,
        },
    }
}

/// How the image of one kept entry was resolved.
pub enum ImageOutcome {
    /// The entry offers no image URL: nothing was attempted.
    NoImage,
    /// The cache resolved the image to this local path.
    Stored(String),
    /// The cache failed to fetch the image.
    Failed,
}

/// The image path an outcome contributes to the record: only a stored
/// image yields one.
pub open spec fn outcome_image(o: ImageOutcome) -> Option<Seq<char>> {
    match o {
        ImageOutcome::Stored(p) => Some(p@),
        _ => None,
    }
}

/// Whether an outcome counts as a fresh, successful download.
pub open spec fn outcome_downloaded(o: ImageOutcome) -> bool {
    o is Stored
}

/// What normalizing one entry under its image outcome returns.
pub open spec fn spec_entry_news(e: Entry, o: ImageOutcome) -> Result<NewsView, NormalizeError> {
    spec_normalize(e@, outcome_image(o), outcome_downloaded(o))
}

/// Normalizes one kept entry under the outcome of its image resolution.
/// A failed or never-attempted image leaves the record imageless and
/// unmarked; only a stored image is carried and marked as downloaded.
pub fn entry_news(e: &Entry, outcome: &ImageOutcome) -> (r: Result<News, NormalizeError>)
    ensures
        news_result_view(r) == spec_entry_news(*e, *outcome),
        r matches Ok(n) ==> n@.wf(),
{
    match outcome {
        ImageOutcome::Stored(p) => News::from(e, Some(p.clone()), true),
        ImageOutcome::NoImage => News::from(e, None, false),
        ImageOutcome::Failed => News::from(e, None, false),
    }
}

/// Converts the cache's answer for one identified image URL into the
/// outcome the aggregator records: a resolved path is stored, the cache's
/// failure degrades to a fetchless outcome.
pub fn outcome_of(r: Result<String, CacheError>) -> (o: ImageOutcome)
    ensures
        r matches Ok(p) ==> o == ImageOutcome::Stored(p),
        r is Err ==> o == ImageOutcome::Failed,
{
    match r {
        Ok(p) => ImageOutcome::Stored(p),
        Err(CacheError::FetchFailed) => ImageOutcome::Failed,
    }
}

/// An entry whose image fetch failed aggregates exactly like one that
/// offered no image at all: its record is still built, with no image and
/// no download mark. A stored image is carried and marked.
pub proof fn lemma_graceful_degradation(e: Entry, p: String)
    ensures
        spec_entry_news(e, ImageOutcome::Failed) == spec_entry_news(e, ImageOutcome::NoImage),
        spec_entry_news(e, ImageOutcome::Failed) matches Ok(n) ==> n.image is None
            && !n.downloaded,
        spec_entry_news(e, ImageOutcome::Stored(p)) matches Ok(n) ==> n.image == Some(p@)
            && n.downloaded,
{
}

/// The merged entries of a source group after truncation: the interleave
/// of the sources, cut to the first [`MAX_ITEMS`] elements when it is
/// longer.
pub open spec fn spec_prepared(vs: Seq<Seq<Entry>>) -> Seq<Entry> {
    let merged = interleave(vs, common_len(vs) as int);
    if merged.len() <= MAX_ITEMS {
        merged
    } else {
        merged.take(MAX_ITEMS as int)
    }
}

/// Merges a source group and truncates the result to the first
/// [`MAX_ITEMS`] entries. Sources of unequal length are refused.
pub fn prepare(sources: Vec<Vec<Entry>>) -> (r: Result<Vec<Entry>, AggregateError>)
    ensures
        r is Ok <==> equal_lengths(views(sources@)),
        !equal_lengths(views(sources@)) ==> r == Err::<Vec<Entry>, AggregateError>(
            AggregateError::UnequalSources,
        ),
        r matches Ok(out) ==> out@ == spec_prepared(views(sources@)),
{
    match unify(sources) {
        Ok(mut merged) => {
            merged.truncate(MAX_ITEMS);
            Ok(merged)
        },
        Err(MergeError::UnequalLengths) => Err(AggregateError::UnequalSources),
    }
}

/// Entries `0 .. upto` all normalize under their outcomes.
pub open spec fn all_ok_upto(entries: Seq<Entry>, outcomes: Seq<ImageOutcome>, upto: int) -> bool {
    forall|k: int| 0 <= k < upto ==> (#[trigger] spec_entry_news(entries[k], outcomes[k])) is Ok
}

/// Position `i` holds the first entry that fails to normalize.
pub open spec fn first_failure_at(
    entries: Seq<Entry>,
    outcomes: Seq<ImageOutcome>,
    i: int,
) -> bool {
    &&& 0 <= i < entries.len()
    &&& all_ok_upto(entries, outcomes, i)
    &&& spec_entry_news(entries[i], outcomes[i]) is Err
}

/// Normalizes every kept entry under its image outcome and assembles the
/// refresh result carrying the source label. The first entry missing a
/// required field aborts the refresh with that field's error; image
/// outcomes never do.
pub fn assemble(entries: Vec<Entry>, outcomes: Vec<ImageOutcome>, label: String) -> (r: Result<
    RSS,
    AggregateError,
>)
    requires
        entries@.len() == outcomes@.len(),
    ensures
        r is Ok <==> all_ok_upto(entries@, outcomes@, entries@.len() as int),
        r matches Ok(rss) ==> {
            &&& rss.source == label
            &&& rss.items@.len() == entries@.len()
            &&& forall|k: int|
                0 <= k < entries@.len() ==> (#[trigger] rss.items@[k])@ == spec_entry_news(
                    entries@[k],
                    outcomes@[k],
                )->Ok_0
            &&& rss.wf()
        },
        r matches Err(ae) ==> exists|i: int|
            {
                &&& #[trigger] first_failure_at(entries@, outcomes@, i)
                &&& ae == AggregateError::MalformedEntry(
                    spec_entry_news(entries@[i], outcomes@[i])->Err_0,
                )
            },
{
    let n = entries.len();
    let mut items: Vec<News> = Vec::new();
    for idx in 0..n
        invariant
            n == entries@.len(),
            outcomes@.len() == n,
            items@.len() == idx,
            all_ok_upto(entries@, outcomes@, idx as int),
            forall|k: int|
                0 <= k < idx ==> (#[trigger] items@[k])@ == spec_entry_news(
                    entries@[k],
                    outcomes@[k],
                )->Ok_0,
            forall|k: int| 0 <= k < idx ==> (#[trigger] items@[k])@.wf(),
    {
        match entry_news(&entries[idx], &outcomes[idx]) {
            Ok(news) => {
                items.push(news);
            },
            Err(e) => {
                proof {
                    assert(first_failure_at(entries@, outcomes@, idx as int));
                }
                return Err(AggregateError::MalformedEntry(e));
            },
        }
    }
    Ok(RSS { items, source: label })
}

} // verus!
