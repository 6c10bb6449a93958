//! The normalized, presentation-ready record, and the normalizer that
//! produces it from one raw entry.
//!
//! Normalization is a pure function of its inputs. The required fields
//! `title`, `description` and `link` each fail with their own error when
//! absent; a missing author is replaced by a fixed placeholder and never
//! fails.

use vstd::prelude::*;

use crate::entry::Entry;
use crate::entry::EntryView;
use crate::entry::opt_view;

verus! {

/// Why one raw entry could not be normalized: the name of the missing
/// required field.
#[derive(Clone, Copy, Debug, PartialEq, Eq, Structural)]
pub enum NormalizeError {
    MissingTitle,
    MissingDescription,
    MissingUrl,
}

/// One normalized feed entry. `image` is a local path, present only when an
/// image was resolved through the cache; `downloaded` records that the cache
/// answered successfully during the refresh that built this record.
#[derive(Debug)]
pub struct News {
    pub title: String,
    pub desc: String,
    pub image: Option<String>,
    pub url: String,
    pub author: String,
    pub downloaded: bool,
}

/// Mathematical model of [`News`].
pub struct NewsView {
    pub title: Seq<char>,
    pub desc: Seq<char>,
    pub image: Option<Seq<char>>,
    pub url: Seq<char>,
    pub author: Seq<char>,
    pub downloaded: bool,
}

impl View for News {
    type V = NewsView;

    open spec fn view(&self) -> NewsView {
        NewsView {
            title: self.title@,
            desc: self.desc@,
            image: opt_view(self.image),
            url: self.url@,
            author: self.author@,
            downloaded: self.downloaded,
        }
    }
}

impl NewsView {
    /// A record is well formed when a fresh download implies a present image.
    pub open spec fn wf(self) -> bool {
        self.downloaded ==> self.image is Some
    }
}

/// The author string substituted when a feed entry names no author.
pub open spec fn no_author() -> Seq<char> {
    "No author found."@
}

/// What normalization returns for one raw entry: the distinct error of the
/// first missing required field, else the record assembled from the entry's
/// fields, the given image path and download flag, with the placeholder
/// author where the entry names none.
pub open spec fn spec_normalize(
    e: EntryView,
    image: Option<Seq<char>>,
    downloaded: bool,
) -> Result<NewsView, NormalizeError> {
    if e.title is None {
        Err(NormalizeError::MissingTitle)
    } else if e.description is None {
        Err(NormalizeError::MissingDescription)
    } else if e.link is None {
        Err(NormalizeError::MissingUrl)
    } else {
        Ok(
            NewsView {
                title: e.title->0,
                desc: e.description->0,
                image,
                url: e.link->0,
                author: match e.author {
                    Some(a) => a,
                    None => no_author(),
                },
                downloaded,
            },
        )
    }
}

/// The view of a normalization result.
pub open spec fn news_result_view(r: Result<News, NormalizeError>) -> Result<
    NewsView,
    NormalizeError,
> {
    match r {
        Ok(n) => Ok(n@),
        Err(e) => Err(e),
    }
}

impl News {
    /// Normalizes one raw entry into a [`News`] record.
    pub fn from(entry: &Entry, image: Option<String>, downloaded: bool) -> (r: Result<
        News,
        NormalizeError,
    >)
        requires
            downloaded ==> image is Some,
        ensures
            news_result_view(r) == spec_normalize(entry@, opt_view(image), downloaded),
            r matches Ok(n) ==> n@.wf(),
    {
        let title = match &entry.title {
            Some(t) => t.clone(),
            None => {
                return Err(NormalizeError::MissingTitle);
            },
        };
        let desc = match &entry.description {
            Some(d) => d.clone(),
            None => {
                return Err(NormalizeError::MissingDescription);
            },
        };
        let url = match &entry.link {
            Some(u) => u.clone(),
            None => {
                return Err(NormalizeError::MissingUrl);
            },
        };
        let author = match &entry.author {
            Some(a) => a.clone(),
            None => String::from_str("No author found."),
        };
        Ok(News { title, desc, image, url, author, downloaded })
    }
}

/// Normalization is total over its failure domain: an entry without a title
/// always fails with the title-specific error, whatever its other fields
/// hold; an entry missing only its author always succeeds, with the
/// placeholder author and its remaining fields passed through unchanged.
pub proof fn lemma_normalize_total(e: EntryView, image: Option<Seq<char>>, downloaded: bool)
    ensures
        e.title is None ==> spec_normalize(e, image, downloaded) == Err::<
            NewsView,
            NormalizeError,
        >(NormalizeError::MissingTitle),
        e.title is Some && e.description is Some && e.link is Some && e.author is None
            ==> spec_normalize(e, image, downloaded) == Ok::<NewsView, NormalizeError>(
            NewsView {
                title: e.title->0,
                desc: e.description->0,
                image,
                url: e.link->0,
                author: no_author(),
                downloaded,
            },
        ),
{
}

} // verus!
