//! Which URLs the bot plays for a request, and where it looks them up.

use vstd::prelude::*;

use crate::text::{starts_with, texts};
use crate::youtube::{found_urls, youtube_urls_from_searches};

verus! {

/// How the bot finds what to play for a URL.
#[derive(Debug)]
pub enum UrlPlan {
    /// A single YouTube video: play these URLs as they are.
    Direct(Vec<String>),
    /// A Spotify playlist: search YouTube for each of its tracks.
    SpotifyPlaylist(String),
    /// A YouTube playlist: play each of its videos.
    YoutubePlaylist(String),
    /// Nothing the bot can play; the error to answer.
    NotFound(String),
}

/// Whether a URL is that of a single YouTube video.
pub open spec fn is_youtube_video(url: Seq<char>) -> bool {
    "https://youtu.be/"@.is_prefix_of(url) || "https://www.youtube.com/watch"@.is_prefix_of(url)
}

/// Whether a URL is that of a Spotify playlist.
pub open spec fn is_spotify_playlist(url: Seq<char>) -> bool {
    "https://open.spotify.com/playlist"@.is_prefix_of(url)
}

/// Whether a URL is that of a YouTube playlist.
pub open spec fn is_youtube_playlist(url: Seq<char>) -> bool {
    "https://www.youtube.com/playlist"@.is_prefix_of(url)
}

/// A URL is a single video exactly when it starts with `https://youtu.be/`
/// or `https://www.youtube.com/watch`, whatever follows (a query included).
pub proof fn lemma_video_by_prefix_alone(url: Seq<char>)
    ensures
        "https://youtu.be/"@.is_prefix_of(url) ==> is_youtube_video(url),
        "https://www.youtube.com/watch"@.is_prefix_of(url) ==> is_youtube_video(url),
        is_youtube_video(url) ==> "https://youtu.be/"@.is_prefix_of(url)
            || "https://www.youtube.com/watch"@.is_prefix_of(url),
{
}

/// Decides how to find what to play for `url`, by its prefix.
pub fn get_urls_plan(url: String) -> (r: UrlPlan)
    ensures
        "https://youtu.be/"@.is_prefix_of(url@) ==> (r matches UrlPlan::Direct(urls) && urls@.len()
            == 1 && urls@[0]@ == url@),
        "https://www.youtube.com/watch"@.is_prefix_of(url@) ==> (r matches UrlPlan::Direct(urls)
            && urls@.len() == 1 && urls@[0]@ == url@),
        if is_youtube_video(url@) {
            r matches UrlPlan::Direct(urls) && urls@.len() == 1 && urls@[0]@ == url@
        } else if is_spotify_playlist(url@) {
            r matches UrlPlan::SpotifyPlaylist(u) && u@ == url@
        } else if is_youtube_playlist(url@) {
            r matches UrlPlan::YoutubePlaylist(u) && u@ == url@
        } else {
            r matches UrlPlan::NotFound(e) && e@ == "No URL's found"@
        },
{
    if starts_with(url.as_str(), "https://youtu.be/") || starts_with(
        url.as_str(),
        "https://www.youtube.com/watch",
    ) {
        let mut urls: Vec<String> = Vec::new();
        urls.push(url);
        return UrlPlan::Direct(urls);
    }
    if starts_with(url.as_str(), "https://open.spotify.com/playlist") {
        return UrlPlan::SpotifyPlaylist(url);
    }
    if starts_with(url.as_str(), "https://www.youtube.com/playlist") {
        return UrlPlan::YoutubePlaylist(url);
    }
    UrlPlan::NotFound(String::from_str("No URL's found"))
}

/// The outcome of looking up a search term: the URLs found, or the error of
/// the lookup behind `No URL's found: `.
pub fn search_term_outcome(found: Result<Vec<String>, String>) -> (r: Result<Vec<String>, String>)
    ensures
        match found {
            Ok(urls) => r == Ok::<Vec<String>, String>(urls),
            Err(e) => r matches Err(m) && m@ == "No URL's found: "@ + e@,
        },
{
    match found {
        Ok(urls) => Ok(urls),
        Err(e) => {
            let mut m = String::from_str("No URL's found: ");
            m.append(e.as_str());
            Err(m)
        },
    }
}

/// The URLs for a search term, from the outcome of its one YouTube search:
/// the watch page found, or none. Looking up a search term never fails and
/// finds at most one URL.
pub fn search_term_urls(search: Result<String, String>) -> (r: Result<Vec<String>, String>)
    ensures
        r matches Ok(urls) && urls@.len() <= 1 && match search {
            Ok(u) => urls@.len() == 1 && urls@[0]@ == u@,
            Err(_) => urls@.len() == 0,
        },
{
    let ghost search_view = search;
    let mut searches: Vec<Result<String, String>> = Vec::new();
    searches.push(search);
    let found = youtube_urls_from_searches(&searches);
    let ghost found_view = found;
    proof {
        let one = searches@;
        assert(one.drop_last() =~= Seq::<Result<String, String>>::empty());
        assert(one.last() == search_view);
        assert(found_urls(one.drop_last()) =~= Seq::<Seq<char>>::empty());
        match search_view {
            Ok(u) => assert(found_urls(one) =~= seq![u@]),
            Err(_) => assert(found_urls(one) =~= Seq::<Seq<char>>::empty()),
        }
        match found_view {
            Ok(urls) => {
                assert(texts(urls@).len() == urls@.len());
                if urls@.len() > 0 {
                    assert(texts(urls@)[0] == urls@[0]@);
                }
            },
            Err(_) => {},
        }
    }
    search_term_outcome(found)
}

} // verus!
