//! Descriptive metadata embedded in a sound file.

use vstd::prelude::*;

verus! {

/// The tags of a sound file. A tag the file does not carry is absent
/// (`None`), never an empty string. The set is immutable once captured.
#[derive(Debug)]
pub struct Tags {
    pub title: Option<String>,
    pub copyright: Option<String>,
    pub software: Option<String>,
    pub artist: Option<String>,
    pub comment: Option<String>,
    pub date: Option<String>,
    pub album: Option<String>,
    pub license: Option<String>,
    pub track_number: Option<String>,
    pub genre: Option<String>,
}

impl Tags {
    /// Whether every tag is absent.
    pub open spec fn is_absent(self) -> bool {
        &&& self.title is None
        &&& self.copyright is None
        &&& self.software is None
        &&& self.artist is None
        &&& self.comment is None
        &&& self.date is None
        &&& self.album is None
        &&& self.license is None
        &&& self.track_number is None
        &&& self.genre is None
    }

    /// The tag set of a file with no metadata: every tag absent.
    pub fn empty() -> (r: Tags)
        ensures
            r.is_absent(),
    {
        Tags {
            title: None,
            copyright: None,
            software: None,
            artist: None,
            comment: None,
            date: None,
            album: None,
            license: None,
            track_number: None,
            genre: None,
        }
    }
}

/// Copy one optional tag value.
fn clone_tag(o: &Option<String>) -> (r: Option<String>)
    ensures
        r == *o,
{
    match o {
        Some(s) => Some(s.clone()),
        None => None,
    }
}

impl Clone for Tags {
    /// An exact copy: every tag equals the original's.
    fn clone(&self) -> (r: Self)
        ensures
            r == *self,
    {
        Tags {
            title: clone_tag(&self.title),
            copyright: clone_tag(&self.copyright),
            software: clone_tag(&self.software),
            artist: clone_tag(&self.artist),
            comment: clone_tag(&self.comment),
            date: clone_tag(&self.date),
            album: clone_tag(&self.album),
            license: clone_tag(&self.license),
            track_number: clone_tag(&self.track_number),
            genre: clone_tag(&self.genre),
        }
    }
}

} // verus!
