//! Track references: what the playback engine knows of an audio file.
use vstd::prelude::*;

verus! {

/// Audio track with extended metadata present.
#[derive(Debug)]
pub struct FullAudioTrack {
    /// Album the track belongs to
    pub album: String,
    /// Track artists
    pub artists: String,
    /// File path
    pub path: String,
    /// Track title
    pub title: String,
    /// Date of track release
    pub date: String,
    /// Track lyrics
    pub lyrics: String,
}

/// Audio track with no detected metadata.
#[derive(Debug)]
pub struct LimitedAudioTrack {
    /// File path
    pub path: String,
    /// Track title, taken from the file name
    pub title: String,
}

/// An audio file with the metadata that was found for it: either the full
/// set of descriptive fields, or only a path and a title.
#[derive(Debug)]
pub enum AudioTrack {
    Extended(FullAudioTrack),
    Limited(LimitedAudioTrack),
}

/// The standard tag keys that a track reads.
#[derive(Debug, Clone, Copy, PartialEq, Eq, Structural)]
pub enum TagKey {
    Album,
    Artist,
    TrackTitle,
    Date,
    Lyrics,
    /// Any other standard key.
    Other,
}

/// One metadata tag of a file. `key` is `None` for a tag that is not a
/// known standard tag.
#[derive(Debug)]
pub struct Tag {
    pub key: Option<TagKey>,
    pub value: String,
}

/// The value of the last tag in `tags` with key `key`, or the empty text if
/// there is none: later tags override earlier ones.
pub open spec fn tag_value(tags: Seq<Tag>, key: TagKey) -> Seq<char>
    decreases tags.len(),
{
    if tags.len() == 0 {
        Seq::empty()
    } else if tags.last().key == Some(key) {
        tags.last().value@
    } else {
        tag_value(tags.drop_last(), key)
    }
}

/// A full track for `path` described by `tags`.
pub open spec fn full_from_tags(t: FullAudioTrack, path: Seq<char>, tags: Seq<Tag>) -> bool {
    &&& t.path@ == path
    &&& t.album@ == tag_value(tags, TagKey::Album)
    &&& t.artists@ == tag_value(tags, TagKey::Artist)
    &&& t.title@ == tag_value(tags, TagKey::TrackTitle)
    &&& t.date@ == tag_value(tags, TagKey::Date)
    &&& t.lyrics@ == tag_value(tags, TagKey::Lyrics)
}

/// A limited track for `path`, titled by its file name.
pub open spec fn limited_of(t: LimitedAudioTrack, path: Seq<char>, file_name: Seq<char>) -> bool {
    t.path@ == path && t.title@ == file_name
}

/// The track built from the tags of a file: full where there are tags,
/// limited where there are none.
pub open spec fn track_from_tags(
    t: AudioTrack,
    path: Seq<char>,
    file_name: Seq<char>,
    tags: Seq<Tag>,
) -> bool {
    if tags.len() > 0 {
        t matches AudioTrack::Extended(f) && full_from_tags(f, path, tags)
    } else {
        t matches AudioTrack::Limited(l) && limited_of(l, path, file_name)
    }
}

/// Whether files with extension `ext` are read into the library: the
/// supported container family is FLAC.
pub fn is_supported_extension(ext: &str) -> (r: bool)
    ensures
        r == (ext@ == "flac"@),
{
    let flac = String::from_str("flac");
    let given = String::from_str(ext);
    given == flac
}

/// Builds a track with no metadata: its title is the file name.
pub fn build_track_without_metadata(path: &str, file_name: &str) -> (r: LimitedAudioTrack)
    ensures
        limited_of(r, path@, file_name@),
{
    LimitedAudioTrack { path: String::from_str(path), title: String::from_str(file_name) }
}

impl AudioTrack {
    /// Builds a track from the file's tags. Tags that are not known standard
    /// tags are ignored; for a key given twice the later value counts.
    pub fn new_full(path: &str, tags: &Vec<Tag>) -> (r: AudioTrack)
        ensures
            r matches AudioTrack::Extended(f) && full_from_tags(f, path@, tags@),
    {
        let mut track = FullAudioTrack {
            album: String::new(),
            artists: String::new(),
            path: String::from_str(path),
            title: String::new(),
            date: String::new(),
            lyrics: String::new(),
        };
        let mut i: usize = 0;
        while i < tags.len()
            invariant
                i <= tags@.len(),
                full_from_tags(track, path@, tags@.take(i as int)),
            decreases tags@.len() - i,
        {
            let tag = &tags[i];
            proof {
                let before = tags@.take(i as int);
                let after = tags@.take(i as int + 1);
                assert(after.drop_last() =~= before);
                assert(after.last() == tags@[i as int]);
            }
            match tag.key {
                Some(TagKey::Album) => track.album = tag.value.clone(),
                Some(TagKey::Artist) => track.artists = tag.value.clone(),
                Some(TagKey::TrackTitle) => track.title = tag.value.clone(),
                Some(TagKey::Date) => track.date = tag.value.clone(),
                Some(TagKey::Lyrics) => track.lyrics = tag.value.clone(),
                _ => {},
            }
            i = i + 1;
        }
        proof {
            assert(tags@.take(i as int) =~= tags@);
        }
        AudioTrack::Extended(track)
    }

    /// Builds a track with no metadata, titled by its file name.
    pub fn new_limited(path: &str, file_name: &str) -> (r: AudioTrack)
        ensures
            r matches AudioTrack::Limited(l) && limited_of(l, path@, file_name@),
    {
        AudioTrack::Limited(build_track_without_metadata(path, file_name))
    }

    /// Builds the track for a probed file. The container's own metadata is
    /// read first; only where it has no current revision are the tags found
    /// while probing used. A revision without tags gives a limited track.
    pub fn from_metadata(
        path: &str,
        file_name: &str,
        container_tags: Option<Vec<Tag>>,
        probed_tags: Option<Vec<Tag>>,
    ) -> (r: AudioTrack)
        ensures
            match container_tags {
                Some(t) => track_from_tags(r, path@, file_name@, t@),
                None => match probed_tags {
                    Some(t) => track_from_tags(r, path@, file_name@, t@),
                    None => track_from_tags(r, path@, file_name@, Seq::empty()),
                },
            },
    {
        let tags = match container_tags {
            Some(t) => Some(t),
            None => probed_tags,
        };
        match tags {
            Some(t) => {
                if t.len() > 0 {
                    AudioTrack::new_full(path, &t)
                } else {
                    AudioTrack::new_limited(path, file_name)
                }
            },
            None => AudioTrack::new_limited(path, file_name),
        }
    }

    /// The path of the track's file.
    pub fn path(&self) -> (r: &String)
        ensures
            r == match self {
                AudioTrack::Extended(f) => &f.path,
                AudioTrack::Limited(l) => &l.path,
            },
    {
        match self {
            AudioTrack::Extended(f) => &f.path,
            AudioTrack::Limited(l) => &l.path,
        }
    }

    /// The title shown for the track.
    pub fn title(&self) -> (r: &String)
        ensures
            r == match self {
                AudioTrack::Extended(f) => &f.title,
                AudioTrack::Limited(l) => &l.title,
            },
    {
        match self {
            AudioTrack::Extended(f) => &f.title,
            AudioTrack::Limited(l) => &l.title,
        }
    }
}

} // verus!
