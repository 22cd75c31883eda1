use mplay::track::{
    build_track_without_metadata, is_supported_extension, AudioTrack, Tag, TagKey,
};

fn tag(key: Option<TagKey>, value: &str) -> Tag {
    Tag { key, value: String::from(value) }
}

#[test]
fn full_track_reads_known_tags() {
    let tags = vec![
        tag(Some(TagKey::TrackTitle), "Song"),
        tag(Some(TagKey::Album), "Record"),
        tag(Some(TagKey::Artist), "Band"),
        tag(Some(TagKey::Date), "1999"),
        tag(Some(TagKey::Lyrics), "la la"),
        tag(Some(TagKey::Other), "ignored"),
        tag(None, "unknown"),
    ];
    match AudioTrack::new_full("/m/song.flac", &tags) {
        AudioTrack::Extended(f) => {
            assert_eq!(f.path, "/m/song.flac");
            assert_eq!(f.title, "Song");
            assert_eq!(f.album, "Record");
            assert_eq!(f.artists, "Band");
            assert_eq!(f.date, "1999");
            assert_eq!(f.lyrics, "la la");
        }
        AudioTrack::Limited(_) => panic!("expected a full track"),
    }
}

#[test]
fn later_tag_overrides_earlier() {
    let tags = vec![tag(Some(TagKey::TrackTitle), "First"), tag(Some(TagKey::TrackTitle), "Second")];
    let t = AudioTrack::new_full("/m/x.flac", &tags);
    assert_eq!(t.title(), "Second");
    match t {
        AudioTrack::Extended(f) => assert_eq!(f.album, ""),
        AudioTrack::Limited(_) => panic!("expected a full track"),
    }
}

#[test]
fn limited_track_titled_by_file_name() {
    let l = build_track_without_metadata("/m/dir/file.flac", "file.flac");
    assert_eq!(l.path, "/m/dir/file.flac");
    assert_eq!(l.title, "file.flac");
    let t = AudioTrack::new_limited("/m/dir/file.flac", "file.flac");
    assert_eq!(t.path(), "/m/dir/file.flac");
    assert_eq!(t.title(), "file.flac");
}

#[test]
fn container_metadata_comes_first() {
    let t = AudioTrack::from_metadata(
        "/m/a.flac",
        "a.flac",
        Some(vec![tag(Some(TagKey::TrackTitle), "Container")]),
        Some(vec![tag(Some(TagKey::TrackTitle), "Probe")]),
    );
    assert_eq!(t.title(), "Container");
}

#[test]
fn empty_container_revision_gives_limited_track() {
    let t = AudioTrack::from_metadata(
        "/m/a.flac",
        "a.flac",
        Some(vec![]),
        Some(vec![tag(Some(TagKey::TrackTitle), "Probe")]),
    );
    assert!(matches!(t, AudioTrack::Limited(_)));
    assert_eq!(t.title(), "a.flac");
}

#[test]
fn probed_metadata_used_when_container_has_none() {
    let t = AudioTrack::from_metadata(
        "/m/a.flac",
        "a.flac",
        None,
        Some(vec![tag(Some(TagKey::Album), "Record")]),
    );
    match t {
        AudioTrack::Extended(f) => {
            assert_eq!(f.album, "Record");
            assert_eq!(f.title, "");
        }
        AudioTrack::Limited(_) => panic!("expected a full track"),
    }
    let none = AudioTrack::from_metadata("/m/b.flac", "b.flac", None, None);
    assert!(matches!(none, AudioTrack::Limited(_)));
    assert_eq!(none.title(), "b.flac");
}

#[test]
fn only_flac_is_supported() {
    assert!(is_supported_extension("flac"));
    assert!(!is_supported_extension("mp3"));
    assert!(!is_supported_extension("FLAC"));
    assert!(!is_supported_extension(""));
}
