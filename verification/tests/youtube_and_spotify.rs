use sunny::json::Json;
use sunny::spotify::{
    extract_playlist_id, playable_tracks, playlist_id_from_path, song_search_term,
    songs_from_tracks, spotify_playlist_lookup, PlaylistEntry, TrackInfo,
};
use sunny::youtube::{
    extract_playlist_id_from_url, search_after_body, search_after_send,
    search_request, start_playlist_paging, watch_url, youtube_urls_from_searches, PageEvent, PagingStep, SearchNext,
};

fn s(text: &str) -> String {
    text.to_string()
}

fn obj(members: Vec<(&str, Json)>) -> Json {
    Json::Object(members.into_iter().map(|(k, v)| (s(k), v)).collect())
}

fn text(t: &str) -> Json {
    Json::Str(s(t))
}

fn playlist_item(video_id: &str) -> Json {
    obj(vec![("snippet", obj(vec![("resourceId", obj(vec![("videoId", text(video_id))]))]))])
}

#[test]
fn youtube_playlist_id_is_the_list_parameter() {
    assert_eq!(
        extract_playlist_id_from_url("https://www.youtube.com/playlist?list=PL123&si=x").unwrap(),
        "PL123"
    );
    assert_eq!(extract_playlist_id_from_url("https://www.youtube.com/playlist?si=a&list=abc=def").unwrap(), "abc=def");
    assert_eq!(extract_playlist_id_from_url("https://www.youtube.com/playlist?playlist=x&list=PL2").unwrap(), "PL2");
    assert_eq!(extract_playlist_id_from_url("https://www.youtube.com/playlist?list=").unwrap(), "");
}

#[test]
fn youtube_playlist_without_list_is_refused() {
    assert_eq!(
        extract_playlist_id_from_url("https://www.youtube.com/playlist?si=x").unwrap_err(),
        "Could not extract playlist ID from URL"
    );
    assert_eq!(
        extract_playlist_id_from_url("https://www.youtube.com/playlist?x=1?list=PL9").unwrap_err(),
        "Could not extract playlist ID from URL"
    );
    assert_eq!(
        extract_playlist_id_from_url("https://www.youtube.com/playlist").unwrap_err(),
        "Could not extract playlist ID from URL"
    );
}

#[test]
fn youtube_playlist_url_round_trip() {
    for id in ["PLabc", "x", "", "a=b"] {
        let url = format!("https://www.youtube.com/playlist?list={}", id);
        assert_eq!(extract_playlist_id_from_url(&url).unwrap(), id);
    }
}

#[test]
fn watch_url_is_built_from_the_id() {
    assert_eq!(watch_url("dQw4w9WgXcQ"), "https://www.youtube.com/watch?v=dQw4w9WgXcQ");
}

#[test]
fn search_request_names_key_and_term() {
    let r = search_request("KEY", "song - artist");
    assert_eq!(r.endpoint, "https://www.googleapis.com/youtube/v3/search");
    assert_eq!(r.params, vec![(s("key"), s("KEY")), (s("q"), s("song - artist"))]);
}

#[test]
fn search_after_send_cases() {
    assert!(matches!(search_after_send(Ok(200)), SearchNext::ReadBody));
    assert!(matches!(search_after_send(Ok(403)), SearchNext::Finished(Err(m)) if m == "Error getting response"));
    assert!(matches!(
        search_after_send(Err(s("timed out"))),
        SearchNext::Finished(Err(m)) if m == "Error getting URL: timed out"
    ));
}

#[test]
fn search_after_body_cases() {
    let answer = obj(vec![(
        "items",
        Json::Array(vec![
            obj(vec![("id", obj(vec![("kind", text("youtube#video")), ("videoId", text("abc"))]))]),
            obj(vec![("id", obj(vec![("videoId", text("zzz"))]))]),
        ]),
    )]);
    assert_eq!(search_after_body(Ok(answer)).unwrap(), "https://www.youtube.com/watch?v=abc");
    let empty = obj(vec![("items", Json::Array(vec![]))]);
    assert_eq!(search_after_body(Ok(empty)).unwrap_err(), "Error getting video ID");
    let channel = obj(vec![("items", Json::Array(vec![obj(vec![("id", obj(vec![("channelId", text("c"))]))])]))]);
    assert_eq!(search_after_body(Ok(channel)).unwrap_err(), "Error getting video ID");
    let not_text = obj(vec![("items", Json::Array(vec![obj(vec![("id", obj(vec![("videoId", Json::Number(s("5")))]))])]))]);
    assert_eq!(search_after_body(Ok(not_text)).unwrap_err(), "Error getting video ID");
    assert_eq!(search_after_body(Err(s("bad json"))).unwrap_err(), "Error: bad json");
}

#[test]
fn failed_searches_add_nothing() {
    let results = vec![Ok(s("a")), Err(s("e")), Ok(s("b"))];
    assert_eq!(youtube_urls_from_searches(&results).unwrap(), vec![s("a"), s("b")]);
    assert_eq!(youtube_urls_from_searches(&vec![Err(s("e"))]).unwrap(), Vec::<String>::new());
}

#[test]
fn paging_collects_pages_in_order() {
    let state = start_playlist_paging("https://www.youtube.com/playlist?list=PL1").unwrap();
    let first = state.page_request("KEY");
    assert_eq!(first.endpoint, "https://www.googleapis.com/youtube/v3/playlistItems");
    assert_eq!(
        first.params,
        vec![
            (s("part"), s("snippet")),
            (s("playlistId"), s("PL1")),
            (s("key"), s("KEY")),
            (s("pageToken"), s("")),
            (s("maxResults"), s("50")),
        ]
    );
    let page1 = obj(vec![
        ("items", Json::Array(vec![playlist_item("a"), obj(vec![("snippet", Json::Null)]), playlist_item("b")])),
        ("nextPageToken", text("T2")),
    ]);
    let state = match state.step(PageEvent::Body(page1)) {
        PagingStep::Fetch(next) => next,
        other => panic!("unexpected {:?}", other),
    };
    assert_eq!(state.page_token, "T2");
    assert_eq!(state.page_request("KEY").params[3], (s("pageToken"), s("T2")));
    let state = match state.step(PageEvent::TextFailed) {
        PagingStep::Fetch(next) => next,
        other => panic!("unexpected {:?}", other),
    };
    let page2 = obj(vec![("items", Json::Array(vec![playlist_item("c")]))]);
    match state.step(PageEvent::Body(page2)) {
        PagingStep::Done(Ok(urls)) => assert_eq!(
            urls,
            vec![
                s("https://www.youtube.com/watch?v=a"),
                s("https://www.youtube.com/watch?v=b"),
                s("https://www.youtube.com/watch?v=c"),
            ]
        ),
        other => panic!("unexpected {:?}", other),
    }
}

#[test]
fn paging_without_items_drops_everything() {
    let state = start_playlist_paging("https://www.youtube.com/playlist?list=PL1").unwrap();
    let page1 = obj(vec![("items", Json::Array(vec![playlist_item("a")])), ("nextPageToken", text("T2"))]);
    let state = match state.step(PageEvent::Body(page1)) {
        PagingStep::Fetch(next) => next,
        other => panic!("unexpected {:?}", other),
    };
    assert_eq!(state.urls.len(), 1);
    match state.step(PageEvent::Body(obj(vec![("error", text("quota"))]))) {
        PagingStep::Done(Ok(urls)) => assert!(urls.is_empty()),
        other => panic!("unexpected {:?}", other),
    }
}

#[test]
fn paging_errors() {
    let start = || start_playlist_paging("https://www.youtube.com/playlist?list=PL1").unwrap();
    assert!(matches!(start().step(PageEvent::SendFailed), PagingStep::Done(Err(m)) if m == "Error getting response body"));
    assert!(matches!(start().step(PageEvent::NotJson), PagingStep::Done(Err(m)) if m == "Error getting JSON"));
    assert_eq!(
        start_playlist_paging("https://www.youtube.com/playlist?foo=bar").unwrap_err(),
        "Error getting playlist: Could not extract playlist ID from URL"
    );
    assert_eq!(
        start_playlist_paging("https://www.youtube.com/playlist").unwrap_err(),
        "Error getting playlist: Could not extract playlist ID from URL"
    );
}

#[test]
fn spotify_playlist_id_from_url() {
    assert_eq!(
        extract_playlist_id("https://open.spotify.com/playlist/37i9dQZF1DXcBWIGoYBM5M"),
        Some(s("37i9dQZF1DXcBWIGoYBM5M"))
    );
    assert_eq!(
        extract_playlist_id("https://open.spotify.com/playlist/37i9dQZF1DXcBWIGoYBM5M?si=abc"),
        Some(s("37i9dQZF1DXcBWIGoYBM5M"))
    );
    assert_eq!(extract_playlist_id("https://open.spotify.com/track/abc"), None);
    assert_eq!(extract_playlist_id("https://open.spotify.com/playlist/abc/extra"), None);
    assert_eq!(extract_playlist_id("not a url"), None);
}

#[test]
fn spotify_path_round_trip() {
    assert_eq!(playlist_id_from_path("/playlist/xyz"), Some(s("xyz")));
    assert_eq!(playlist_id_from_path("/playlist/"), Some(s("")));
    assert_eq!(playlist_id_from_path("/album/xyz"), None);
    assert_eq!(playlist_id_from_path("playlist/xyz"), None);
}

#[test]
fn spotify_lookup_needs_a_valid_id() {
    assert_eq!(
        spotify_playlist_lookup("https://open.spotify.com/playlist/37i9dQZF1DXcBWIGoYBM5M"),
        Some(s("37i9dQZF1DXcBWIGoYBM5M"))
    );
    assert_eq!(spotify_playlist_lookup("https://open.spotify.com/playlist/"), Some(s("")));
    assert!(spotify_playlist_lookup("https://open.spotify.com/playlist/abc-def").is_none());
    assert!(spotify_playlist_lookup("https://open.spotify.com/album/abc").is_none());
}

fn track(name: &str, artists: &[&str]) -> TrackInfo {
    TrackInfo { name: s(name), artists: artists.iter().map(|a| s(a)).collect() }
}

#[test]
fn only_tracks_are_played() {
    let entries = vec![
        PlaylistEntry::Track(track("One", &["A"])),
        PlaylistEntry::Episode,
        PlaylistEntry::Unavailable,
        PlaylistEntry::Track(track("Two", &[])),
    ];
    let tracks = playable_tracks(entries);
    assert_eq!(tracks.len(), 2);
    assert_eq!(tracks[0].name, "One");
    assert_eq!(tracks[1].name, "Two");
}

#[test]
fn search_terms_name_the_first_artist() {
    assert_eq!(song_search_term(&track("Song", &["First", "Second"])), "Song - First");
    assert_eq!(song_search_term(&track("Song", &[])), "Song - ");
    assert_eq!(
        songs_from_tracks(&vec![track("A", &["x"]), track("B", &["y"])]),
        vec![s("A - x"), s("B - y")]
    );
}
