//! The raw feed entry, as the feed-parsing collaborator hands it over.
//!
//! An [`Entry`] carries, as plain optional strings, exactly the fields the
//! aggregation logic reads from a parsed feed item: title, description, link,
//! author, the enclosure's URL, and the attributes of a structured media
//! extension, if one is present.

use vstd::prelude::*;

verus! {

/// The attributes of a feed entry's structured media extension:
/// the declared medium (for example `"image"`) and the resource URL,
/// either of which the feed may omit.
#[derive(Debug)]
pub struct MediaContent {
    pub medium: Option<String>,
    pub url: Option<String>,
}

/// One raw feed entry prior to normalization. Every field the feed may omit
/// is optional; the normalizer decides which omissions are fatal.
#[derive(Debug)]
pub struct Entry {
    pub title: Option<String>,
    pub description: Option<String>,
    pub link: Option<String>,
    pub author: Option<String>,
    pub enclosure_url: Option<String>,
    pub media: Option<MediaContent>,
}

/// The view of an optional string: the character sequence, if present.
pub open spec fn opt_view(o: Option<String>) -> Option<Seq<char>> {
    match o {
        Some(s) => Some(s@),
        None => None,
    }
}

/// Mathematical model of [`MediaContent`].
pub struct MediaContentView {
    pub medium: Option<Seq<char>>,
    pub url: Option<Seq<char>>,
}

/// Mathematical model of [`Entry`].
pub struct EntryView {
    pub title: Option<Seq<char>>,
    pub description: Option<Seq<char>>,
    pub link: Option<Seq<char>>,
    pub author: Option<Seq<char>>,
    pub enclosure_url: Option<Seq<char>>,
    pub media: Option<MediaContentView>,
}

impl View for MediaContent {
    type V = MediaContentView;

    open spec fn view(&self) -> MediaContentView {
        MediaContentView { medium: opt_view(self.medium), url: opt_view(self.url) }
    }
}

impl View for Entry {
    type V = EntryView;

    open spec fn view(&self) -> EntryView {
        EntryView {
            title: opt_view(self.title),
            description: opt_view(self.description),
            link: opt_view(self.link),
            author: opt_view(self.author),
            enclosure_url: opt_view(self.enclosure_url),
            media: match self.media {
                Some(m) => Some(m@),
                None => None,
            },
        }
    }
}

/// Clones an optional string, preserving it exactly.
fn clone_opt_string(o: &Option<String>) -> (r: Option<String>)
    ensures
        r == o,
{
    match o {
        Some(s) => Some(s.clone()),
        None => None,
    }
}

impl Clone for MediaContent {
    fn clone(&self) -> (r: Self)
        ensures
            r == *self,
    {
        MediaContent { medium: clone_opt_string(&self.medium), url: clone_opt_string(&self.url) }
    }
}

impl Clone for Entry {
    fn clone(&self) -> (r: Self)
        ensures
            r == *self,
    {
        Entry {
            title: clone_opt_string(&self.title),
            description: clone_opt_string(&self.description),
            link: clone_opt_string(&self.link),
            author: clone_opt_string(&self.author),
            enclosure_url: clone_opt_string(&self.enclosure_url),
            media: match &self.media {
                Some(m) => Some(m.clone()),
                None => None,
            },
        }
    }
}

} // verus!
