//! The search box: a query and a cursor into it, counted in characters.
use vstd::prelude::*;

use std::rc::Rc;

use crate::track::AudioTrack;

verus! {

/// Which part of the interface takes key presses.
#[derive(Debug, Clone, Copy, PartialEq, Eq, Structural)]
pub enum Mode {
    Playback,
    Search,
}

/// A search query being edited. `cursor_index` counts characters; a cursor
/// past the end of the query stands at its end.
#[derive(Debug)]
pub struct Search {
    pub cursor_index: usize,
    pub query: String,
}

/// Where the cursor stands in `query`: never past its end.
pub open spec fn cursor_at(cursor_index: usize, query: Seq<char>) -> nat {
    if (cursor_index as nat) < query.len() {
        cursor_index as nat
    } else {
        query.len()
    }
}

pub open spec fn min_nat(a: nat, b: nat) -> nat {
    if a < b {
        a
    } else {
        b
    }
}

/// Relies on `String::push`: appends one character.
#[verifier::external_body]
fn push_char(s: &mut String, ch: char)
    ensures
        final(s)@ == old(s)@.push(ch),
{
    s.push(ch);
}

impl Search {
    /// An empty query with the cursor at its start.
    pub fn new() -> (r: Search)
        ensures
            r.cursor_index == 0,
            r.query@.len() == 0,
    {
        Search { cursor_index: 0, query: String::new() }
    }

    /// Moves the cursor one character left, stopping at the start; a cursor
    /// past the end comes back to the end.
    pub fn move_cursor_left(&mut self)
        ensures
            final(self).query == old(self).query,
            final(self).cursor_index as nat == min_nat(
                if old(self).cursor_index == 0 {
                    0
                } else {
                    (old(self).cursor_index - 1) as nat
                },
                old(self).query@.len(),
            ),
    {
        let n = self.cursor_index.saturating_sub(1);
        let len = self.query.as_str().unicode_len();
        self.cursor_index = if n < len {
            n
        } else {
            len
        };
    }

    /// Moves the cursor one character right, stopping at the end.
    pub fn move_cursor_right(&mut self)
        ensures
            final(self).query == old(self).query,
            final(self).cursor_index as nat == min_nat(
                if old(self).cursor_index == usize::MAX {
                    usize::MAX as nat
                } else {
                    (old(self).cursor_index + 1) as nat
                },
                old(self).query@.len(),
            ),
    {
        let n = self.cursor_index.saturating_add(1);
        let len = self.query.as_str().unicode_len();
        self.cursor_index = if n < len {
            n
        } else {
            len
        };
    }

    /// Inserts `ch` at the cursor and moves the cursor past it.
    pub fn new_char(&mut self, ch: char)
        ensures
            final(self).query@ == old(self).query@.take(
                cursor_at(old(self).cursor_index, old(self).query@) as int,
            ).push(ch) + old(self).query@.skip(
                cursor_at(old(self).cursor_index, old(self).query@) as int,
            ),
            final(self).cursor_index as nat == min_nat(
                if old(self).cursor_index == usize::MAX {
                    usize::MAX as nat
                } else {
                    (old(self).cursor_index + 1) as nat
                },
                old(self).query@.len() + 1,
            ),
    {
        let len = self.query.as_str().unicode_len();
        let at = if self.cursor_index < len {
            self.cursor_index
        } else {
            len
        };
        let mut edited = String::from_str(self.query.as_str().substring_char(0, at));
        push_char(&mut edited, ch);
        edited.append(self.query.as_str().substring_char(at, len));
        proof {
            assert(self.query@.take(at as int) =~= self.query@.subrange(0, at as int));
            assert(self.query@.skip(at as int) =~= self.query@.subrange(at as int, len as int));
        }
        self.query = edited;
        self.move_cursor_right();
    }

    /// Deletes the character before the cursor, as backspace does, and
    /// moves the cursor back over it. Nothing happens at the start.
    pub fn delete_char(&mut self)
        ensures
            cursor_at(old(self).cursor_index, old(self).query@) == 0 ==> *final(self) == *old(
                self,
            ),
            cursor_at(old(self).cursor_index, old(self).query@) > 0 ==> {
                let at = cursor_at(old(self).cursor_index, old(self).query@) as int;
                &&& final(self).query@ == old(self).query@.take(at - 1) + old(self).query@.skip(at)
                &&& final(self).cursor_index as nat == min_nat(
                    (old(self).cursor_index - 1) as nat,
                    (old(self).query@.len() - 1) as nat,
                )
            },
    {
        let len = self.query.as_str().unicode_len();
        let at = if self.cursor_index < len {
            self.cursor_index
        } else {
            len
        };
        if at == 0 {
            return;
        }
        let mut edited = String::from_str(self.query.as_str().substring_char(0, at - 1));
        edited.append(self.query.as_str().substring_char(at, len));
        proof {
            assert(self.query@.take(at - 1) =~= self.query@.subrange(0, at - 1));
            assert(self.query@.skip(at as int) =~= self.query@.subrange(at as int, len as int));
        }
        self.query = edited;
        self.move_cursor_left();
    }
}

/// The lower-case form of a text, as Unicode defines it.
pub uninterp spec fn lower_of(s: Seq<char>) -> Seq<char>;

/// Whether `needle` occurs in `hay` as a run of consecutive characters.
pub open spec fn occurs_in(needle: Seq<char>, hay: Seq<char>) -> bool {
    exists|i: int|
        0 <= i && i + needle.len() <= hay.len() && #[trigger] hay.subrange(i, i + needle.len())
            == needle
}

/// Relies on `str::to_lowercase`: the result depends on the text alone, and
/// an empty text stays empty.
#[verifier::external_body]
fn lowercase(s: &str) -> (r: String)
    ensures
        r@ == lower_of(s@),
        s@.len() == 0 ==> r@.len() == 0,
{
    s.to_lowercase()
}

/// Relies on `str::contains` with a `&str` pattern: true exactly when the
/// pattern occurs in the text.
#[verifier::external_body]
fn contains(hay: &str, needle: &str) -> (r: bool)
    ensures
        r == occurs_in(needle@, hay@),
{
    hay.contains(needle)
}

/// Whether a track is listed for a query, both already in lower case: a
/// full track by its title, album or artists, a limited one by its title.
pub open spec fn listed_for(fields: Seq<Seq<char>>, query: Seq<char>) -> bool {
    exists|k: int| 0 <= k < fields.len() && occurs_in(query, #[trigger] fields[k])
}

/// The fields of a track that a search looks at.
pub open spec fn searched_fields(t: AudioTrack) -> Seq<Seq<char>> {
    match t {
        AudioTrack::Extended(f) => seq![f.title@, f.album@, f.artists@],
        AudioTrack::Limited(l) => seq![l.title@],
    }
}

/// Whether a query, in lower case, occurs in one of the given fields, in
/// lower case.
pub fn matches_folded(fields: &Vec<String>, query: &str) -> (r: bool)
    ensures
        r == listed_for(fields@.map_values(|f: String| f@), query@),
{
    let ghost seen = fields@.map_values(|f: String| f@);
    let mut k: usize = 0;
    while k < fields.len()
        invariant
            k <= fields@.len(),
            seen == fields@.map_values(|f: String| f@),
            forall|j: int| 0 <= j < k ==> !occurs_in(query@, #[trigger] seen[j]),
        decreases fields@.len() - k,
    {
        if contains(fields[k].as_str(), query) {
            assert(occurs_in(query@, seen[k as int]));
            return true;
        }
        k = k + 1;
    }
    false
}

/// Whether `track` is listed for the search query `query`.
pub open spec fn track_listed(track: AudioTrack, query: Seq<char>) -> bool {
    listed_for(searched_fields(track).map_values(|f: Seq<char>| lower_of(f)), lower_of(query))
}

/// Whether the track is listed for the search query: the query, in lower
/// case, occurs in the lower-case title, album or artists of a full track,
/// or in the lower-case title of a limited one.
pub fn track_matches(track: &AudioTrack, query: &str) -> (r: bool)
    ensures
        r == track_listed(*track, query@),
{
    let q = lowercase(query);
    let mut fields: Vec<String> = Vec::new();
    match track {
        AudioTrack::Extended(f) => {
            fields.push(lowercase(f.title.as_str()));
            fields.push(lowercase(f.album.as_str()));
            fields.push(lowercase(f.artists.as_str()));
        },
        AudioTrack::Limited(l) => {
            fields.push(lowercase(l.title.as_str()));
        },
    }
    let r = matches_folded(&fields, q.as_str());
    proof {
        assert(fields@.map_values(|f: String| f@) =~= searched_fields(*track).map_values(
            |f: Seq<char>| lower_of(f),
        ));
    }
    r
}

/// The positions in `tracks` of the tracks listed for `query`, in order:
/// each listed track appears once, and no other.
pub fn listed_tracks(tracks: &[Rc<AudioTrack>], query: &str) -> (r: Vec<usize>)
    ensures
        forall|j: int| 0 <= j < r@.len() ==> r@[j] < tracks@.len() && track_listed(
            *tracks@[r@[j] as int],
            query@,
        ),
        forall|a: int, b: int| 0 <= a < b < r@.len() ==> r@[a] < r@[b],
        forall|k: int|
            0 <= k < tracks@.len() && track_listed(*tracks@[k], query@) ==> exists|j: int|
                0 <= j < r@.len() && r@[j] == k,
{
    let mut listed: Vec<usize> = Vec::new();
    let mut i: usize = 0;
    while i < tracks.len()
        invariant
            i <= tracks@.len(),
            forall|j: int| 0 <= j < listed@.len() ==> listed@[j] < i && track_listed(
                *tracks@[listed@[j] as int],
                query@,
            ),
            forall|a: int, b: int| 0 <= a < b < listed@.len() ==> listed@[a] < listed@[b],
            forall|k: int|
                0 <= k < i && track_listed(*tracks@[k], query@) ==> exists|j: int|
                    0 <= j < listed@.len() && listed@[j] == k,
        decreases tracks@.len() - i,
    {
        if track_matches(&tracks[i], query) {
            let ghost before = listed@;
            listed.push(i);
            proof {
                assert forall|k: int|
                    0 <= k < i + 1 && track_listed(*tracks@[k], query@) implies exists|j: int|
                        0 <= j < listed@.len() && listed@[j] == k by {
                    if k < i {
                        let j = choose|j: int| 0 <= j < before.len() && before[j] == k;
                        assert(listed@[j] == k);
                    } else {
                        assert(listed@[before.len() as int] == k);
                    }
                }
            }
        }
        i = i + 1;
    }
    listed
}

} // verus!
