//! Spotify: which playlist a URL names, which of its entries are tracks, and
//! what the bot searches YouTube for to play each track.

use vstd::prelude::*;

use crate::text::{
    lemma_split_on_concat, lemma_split_on_without_separator, split_char, split_on, str_eq,
};
use rspotify_model::PlaylistId;

verus! {

/// Names the path of the URL that `url::Url::parse` makes of `input` (what
/// `Url::path` returns), or `None` where `Url::parse` refuses `input`.
pub uninterp spec fn url_path(input: Seq<char>) -> Option<Seq<char>>;

/// Calls `url::Url::parse` on `input` and, where it succeeds, `Url::path` on
/// the result. The contract claims only that the outcome is the named value
/// `url_path(input)`, a function of the input alone; what that value is on a
/// given input (the WHATWG URL rules) is not stated.
#[verifier::external_body]
pub(crate) fn parse_url_path(input: &str) -> (r: Option<String>)
    ensures
        match r {
            Some(p) => url_path(input@) == Some(p@),
            None => url_path(input@) is None,
        },
{
    match url::Url::parse(input) {
        Ok(parsed) => Some(parsed.path().to_string()),
        Err(_) => None,
    }
}

/// The playlist id of a URL path of the form `/playlist/{id}`: exactly three
/// `/`-separated segments, the middle one `playlist`.
pub open spec fn playlist_id_of_path(path: Seq<char>) -> Option<Seq<char>> {
    let segments = split_on(path, '/');
    if segments.len() == 3 && segments[1] == "playlist"@ {
        Some(segments[2])
    } else {
        None
    }
}

/// The playlist id that a Spotify playlist URL names, if it parses as a URL.
pub open spec fn spotify_playlist_id(url: Seq<char>) -> Option<Seq<char>> {
    match url_path(url) {
        Some(path) => playlist_id_of_path(path),
        None => None,
    }
}

/// The path `/playlist/{id}` gives back `id`, for any id without a `/`.
pub proof fn lemma_playlist_path_round_trip(id: Seq<char>)
    requires
        !id.contains('/'),
    ensures
        playlist_id_of_path("/playlist/"@ + id) == Some(id),
{
    reveal_strlit("/playlist/");
    reveal_strlit("playlist");
    let word = "playlist"@;
    let empty = Seq::<char>::empty();
    assert(!word.contains('/')) by {
        if word.contains('/') {
            let k = choose|k: int| 0 <= k < word.len() && word[k] == '/';
            assert(word[k] != '/');
        }
    }
    assert(!empty.contains('/'));
    let path = "/playlist/"@ + id;
    assert(path =~= empty + seq!['/'] + (word + seq!['/'] + id));
    lemma_split_on_concat(empty, word + seq!['/'] + id, '/');
    lemma_split_on_concat(word, id, '/');
    lemma_split_on_without_separator(empty, '/');
    lemma_split_on_without_separator(word, '/');
    lemma_split_on_without_separator(id, '/');
    assert(split_on(path, '/') =~= seq![empty, word, id]);
}

/// Reads the playlist id out of the path of a parsed URL.
pub fn playlist_id_from_path(path: &str) -> (r: Option<String>)
    ensures
        match playlist_id_of_path(path@) {
            Some(id) => r matches Some(found) && found@ == id,
            None => r is None,
        },
{
    let segments = split_char(path, '/');
    if segments.len() == 3 && str_eq(segments[1].as_str(), "playlist") {
        Some(segments[2].clone())
    } else {
        None
    }
}

/// Reads the playlist id out of a Spotify playlist URL such as
/// `https://open.spotify.com/playlist/{id}`: `None` where the URL does not
/// parse or its path is not `/playlist/{id}`.
pub fn extract_playlist_id(url: &str) -> (r: Option<String>)
    ensures
        match spotify_playlist_id(url@) {
            Some(id) => r matches Some(found) && found@ == id,
            None => r is None,
        },
{
    match parse_url_path(url) {
        Some(path) => playlist_id_from_path(path.as_str()),
        None => None,
    }
}

/// Whether every character of `id` is an ASCII letter or digit.
pub open spec fn is_spotify_id(id: Seq<char>) -> bool {
    forall|i: int|
        0 <= i < id.len() ==> ('0' <= #[trigger] id[i] <= '9' || 'a' <= id[i] <= 'z' || 'A'
            <= id[i] <= 'Z')
}

/// Calls `rspotify_model::PlaylistId::id_is_valid`, which accepts an id
/// exactly when each of its characters is ASCII alphanumeric (the empty id
/// included). `PlaylistId::from_id` builds an id from exactly the ids it
/// accepts.
#[verifier::external_body]
fn playlist_id_is_valid(id: &str) -> (r: bool)
    ensures
        r == is_spotify_id(id@),
{
    PlaylistId::id_is_valid(id)
}

/// The id of the Spotify playlist to fetch for a playlist URL: the id that the
/// URL names, where it has one and Spotify accepts it as a playlist id. `None`
/// means that there is nothing to fetch, and the playlist yields no songs.
pub fn spotify_playlist_lookup(url: &str) -> (r: Option<String>)
    ensures
        match spotify_playlist_id(url@) {
            Some(id) => if is_spotify_id(id) {
                r matches Some(found) && found@ == id
            } else {
                r is None
            },
            None => r is None,
        },
{
    match extract_playlist_id(url) {
        Some(id) => if playlist_id_is_valid(id.as_str()) {
            Some(id)
        } else {
            None
        },
        None => None,
    }
}

/// What the bot reads of a Spotify track: its name and the names of its
/// artists, in the order Spotify lists them.
#[derive(Debug)]
pub struct TrackInfo {
    pub name: String,
    pub artists: Vec<String>,
}

/// One entry of a Spotify playlist: a track, a podcast episode, or an entry
/// whose item Spotify no longer serves.
#[derive(Debug)]
pub enum PlaylistEntry {
    Track(TrackInfo),
    Episode,
    Unavailable,
}

/// The tracks among the entries, in playlist order; episodes and unavailable
/// entries are left out.
pub open spec fn playable(entries: Seq<PlaylistEntry>) -> Seq<TrackInfo>
    decreases entries.len(),
{
    if entries.len() == 0 {
        Seq::empty()
    } else {
        let rest = playable(entries.drop_first());
        match entries[0] {
            PlaylistEntry::Track(t) => seq![t] + rest,
            _ => rest,
        }
    }
}

/// Each entry counts on its own: the tracks of two runs of entries are those
/// of the first run followed by those of the second; a track entry gives its
/// track, and an episode or an unavailable entry gives none.
pub proof fn lemma_playable_entry_by_entry(
    a: Seq<PlaylistEntry>,
    b: Seq<PlaylistEntry>,
    x: PlaylistEntry,
)
    ensures
        playable(a + b) == playable(a) + playable(b),
        playable(seq![x]) == match x {
            PlaylistEntry::Track(t) => seq![t],
            _ => Seq::<TrackInfo>::empty(),
        },
    decreases a.len(),
{
    assert(seq![x].drop_first() =~= Seq::<PlaylistEntry>::empty());
    assert(playable(Seq::<PlaylistEntry>::empty()) =~= Seq::<TrackInfo>::empty());
    assert(seq![x][0] == x);
    match x {
        PlaylistEntry::Track(t) => assert(playable(seq![x]) =~= seq![t]),
        _ => {},
    }
    if a.len() == 0 {
        assert(a + b =~= b);
        assert(playable(a) + playable(b) =~= playable(b));
    } else {
        lemma_playable_entry_by_entry(a.drop_first(), b, x);
        assert((a + b).drop_first() =~= a.drop_first() + b);
        assert((a + b)[0] == a[0]);
        match a[0] {
            PlaylistEntry::Track(t) => {
                assert(playable(a + b) =~= seq![t] + (playable(a.drop_first()) + playable(b)));
            },
            _ => {},
        }
    }
}

/// Keeps the tracks of a playlist's entries, in order.
pub fn playable_tracks(entries: Vec<PlaylistEntry>) -> (r: Vec<TrackInfo>)
    ensures
        r@ == playable(entries@),
{
    let mut rest = entries;
    let mut out: Vec<TrackInfo> = Vec::new();
    while rest.len() > 0
        invariant
            playable(entries@) == out@ + playable(rest@),
        decreases rest@.len(),
    {
        let ghost before = rest@;
        let entry = rest.remove(0);
        assert(rest@ =~= before.drop_first());
        match entry {
            PlaylistEntry::Track(t) => {
                assert(out@.push(t) + playable(rest@) =~= out@ + (seq![t] + playable(rest@)));
                out.push(t);
            },
            _ => {},
        }
    }
    assert(out@ + playable(rest@) =~= out@);
    out
}

/// The YouTube search term for a track: `{name} - {first artist}`, with an
/// empty artist where the track lists none.
pub open spec fn search_term(track: TrackInfo) -> Seq<char> {
    let artist = if track.artists@.len() > 0 {
        track.artists@[0]@
    } else {
        Seq::empty()
    };
    track.name@ + " - "@ + artist
}

/// The YouTube search term for one track.
pub fn song_search_term(track: &TrackInfo) -> (r: String)
    ensures
        r@ == search_term(*track),
{
    let mut term = track.name.clone();
    term.append(" - ");
    if track.artists.len() > 0 {
        term.append(track.artists[0].as_str());
    } else {
        assert(term@ =~= term@ + Seq::<char>::empty());
    }
    term
}

/// The YouTube search terms for the tracks, in order.
pub fn songs_from_tracks(tracks: &Vec<TrackInfo>) -> (r: Vec<String>)
    ensures
        r@.len() == tracks@.len(),
        forall|i: int| 0 <= i < tracks@.len() ==> #[trigger] r@[i]@ == search_term(tracks@[i]),
{
    let mut songs: Vec<String> = Vec::new();
    let mut i: usize = 0;
    while i < tracks.len()
        invariant
            i <= tracks@.len(),
            songs@.len() == i,
            forall|j: int| 0 <= j < i ==> #[trigger] songs@[j]@ == search_term(tracks@[j]),
        decreases tracks@.len() - i,
    {
        songs.push(song_search_term(&tracks[i]));
        i = i + 1;
    }
    songs
}

} // verus!
