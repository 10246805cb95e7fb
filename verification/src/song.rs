//! Track records and the fallback rules used when building them.

use vstd::prelude::*;

verus! {

/// One entry of the track list.  Immutable once created, either by the
/// library indexer or by a catalog search.
#[derive(Clone, Debug)]
pub struct Song {
    /// Local path or remote stream URL handed to the engine on load.
    pub path: String,
    /// Display title.
    pub title: String,
    /// Display artist.
    pub artist: String,
    /// Path of the extracted cover image, when one exists.
    pub album_art_path: Option<String>,
    /// Whether the track came from the remote catalog rather than the
    /// local library.
    pub is_online: bool,
}

/// Builds a local-library track from whatever metadata the tag reader
/// produced.  Where the tags were missing or unreadable, the title falls
/// back to the file's base name and the artist to a sentinel value.
pub fn song_from_metadata(
    path: String,
    base_name: &str,
    title: Option<String>,
    artist: Option<String>,
    album_art_path: Option<String>,
) -> (s: Song)
    ensures
        s.path@ == path@,
        (title matches Some(t) ==> s.title@ == t@),
        (title is None ==> s.title@ == base_name@),
        (artist matches Some(a) ==> s.artist@ == a@),
        (artist is None ==> s.artist@ == "Unknown Artist"@),
        s.album_art_path == album_art_path,
        !s.is_online,
{
    let resolved_title = match title {
        Some(t) => t,
        None => base_name.to_owned(),
    };
    let resolved_artist = match artist {
        Some(a) => a,
        None => "Unknown Artist".to_owned(),
    };
    Song {
        path,
        title: resolved_title,
        artist: resolved_artist,
        album_art_path,
        is_online: false,
    }
}

/// Builds a streamable track from one record of a catalog search result:
/// the stream URL becomes the location, and no cover art is carried.
pub fn song_from_catalog(name: String, artist_name: String, audio_url: String) -> (s: Song)
    ensures
        s.path@ == audio_url@,
        s.title@ == name@,
        s.artist@ == artist_name@,
        s.album_art_path is None,
        s.is_online,
{
    Song { path: audio_url, title: name, artist: artist_name, album_art_path: None, is_online: true }
}

} // verus!
