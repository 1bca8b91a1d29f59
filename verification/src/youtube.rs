//! YouTube: the playlist a URL names, the searches for videos, and paging
//! through a playlist, over the answers of the YouTube Data API.

use vstd::prelude::*;

use crate::json::{as_elements, as_text, element, elements_of, field, get_element, get_field, text_of, Json};
use crate::text::{
    lemma_split_on_concat, lemma_split_on_without_separator, split_char, split_on, starts_with,
    substring, texts,
};

verus! {

/// What a playlist URL without a `list=` query parameter is answered.
pub open spec fn no_playlist_id_message() -> Seq<char> {
    "Could not extract playlist ID from URL"@
}

/// The playlist id of the first query parameter that starts with `list=`:
/// all the text after `list=`.
pub open spec fn list_param_value(params: Seq<Seq<char>>) -> Option<Seq<char>>
    decreases params.len(),
{
    if params.len() == 0 {
        None
    } else if "list="@.is_prefix_of(params[0]) {
        Some(params[0].subrange(5, params[0].len() as int))
    } else {
        list_param_value(params.drop_first())
    }
}

/// The playlist id named by a YouTube playlist URL: the query string is the
/// text between the first and the second `?`, its parameters are separated by
/// `&`, and the id is the value of the first `list` parameter. A URL without a
/// `?` has no query, and so no playlist id.
pub open spec fn youtube_playlist_id(url: Seq<char>) -> Option<Seq<char>> {
    let parts = split_on(url, '?');
    if parts.len() < 2 {
        None
    } else {
        list_param_value(split_on(parts[1], '&'))
    }
}

/// A URL `{base}?list={id}` gives back `id`, for a base without `?` and an id
/// without `?` or `&`.
pub proof fn lemma_playlist_url_round_trip(base: Seq<char>, id: Seq<char>)
    requires
        !base.contains('?'),
        !id.contains('?'),
        !id.contains('&'),
    ensures
        youtube_playlist_id(base + "?list="@ + id) == Some(id),
{
    reveal_strlit("?list=");
    reveal_strlit("list=");
    let param = "list="@ + id;
    assert(base + "?list="@ + id =~= base + seq!['?'] + param);
    assert(!param.contains('?')) by {
        if param.contains('?') {
            let k = choose|k: int| 0 <= k < param.len() && param[k] == '?';
            if k >= 5 {
                assert(id[k - 5] == '?');
            }
        }
    }
    assert(!param.contains('&')) by {
        if param.contains('&') {
            let k = choose|k: int| 0 <= k < param.len() && param[k] == '&';
            if k >= 5 {
                assert(id[k - 5] == '&');
            }
        }
    }
    lemma_split_on_concat(base, param, '?');
    lemma_split_on_without_separator(base, '?');
    lemma_split_on_without_separator(param, '?');
    assert(split_on(base + "?list="@ + id, '?') =~= seq![base, param]);
    lemma_split_on_without_separator(param, '&');
    assert("list="@.is_prefix_of(param));
    let params = split_on(param, '&');
    assert(params[0] == param);
    assert(param.subrange(5, param.len() as int) =~= id);
}

/// A URL without a query names no playlist.
pub proof fn lemma_no_query_no_playlist(url: Seq<char>)
    requires
        !url.contains('?'),
    ensures
        youtube_playlist_id(url) is None,
{
    lemma_split_on_without_separator(url, '?');
}

/// Reads the playlist id out of a YouTube playlist URL.
///
/// The id is the value of the first `list` parameter of the URL's query.
/// Without one (or without a query) the error says so.
pub fn extract_playlist_id_from_url(url: &str) -> (r: Result<String, String>)
    ensures
        match youtube_playlist_id(url@) {
            Some(id) => r matches Ok(found) && found@ == id,
            None => r matches Err(e) && e@ == no_playlist_id_message(),
        },
{
    let parts = split_char(url, '?');
    if parts.len() < 2 {
        return Err(String::from_str("Could not extract playlist ID from URL"));
    }
    let query = &parts[1];
    let params = split_char(query.as_str(), '&');
    let ghost all = split_on(split_on(url@, '?')[1], '&');
    let mut k: usize = 0;
    assert(all.skip(0) =~= all);
    while k < params.len()
        invariant
            split_on(url@, '?').len() >= 2,
            all == split_on(split_on(url@, '?')[1], '&'),
            params@.len() == all.len(),
            forall|j: int| 0 <= j < params@.len() ==> #[trigger] params@[j]@ == all[j],
            k <= params@.len(),
            list_param_value(all) == list_param_value(all.skip(k as int)),
        decreases params@.len() - k,
    {
        let param = &params[k];
        assert(all.skip(k as int)[0] == all[k as int]);
        assert(all.skip(k as int).drop_first() =~= all.skip(k + 1));
        if starts_with(param.as_str(), "list=") {
            proof {
                reveal_strlit("list=");
            }
            let n = param.as_str().unicode_len();
            let id = substring(param.as_str(), 5, n);
            return Ok(id);
        }
        k = k + 1;
    }
    assert(all.skip(k as int) =~= Seq::<Seq<char>>::empty());
    Err(String::from_str("Could not extract playlist ID from URL"))
}

/// The watch page of a YouTube video.
pub open spec fn watch_url_of(video_id: Seq<char>) -> Seq<char> {
    "https://www.youtube.com/watch?v="@ + video_id
}

/// The watch page of the YouTube video `video_id`.
pub fn watch_url(video_id: &str) -> (r: String)
    ensures
        r@ == watch_url_of(video_id@),
{
    let mut url = String::from_str("https://www.youtube.com/watch?v=");
    url.append(video_id);
    url
}

/// A GET request to the YouTube Data API: the endpoint and the query
/// parameters, in order.
#[derive(Debug)]
pub struct ApiRequest {
    pub endpoint: String,
    pub params: Vec<(String, String)>,
}

/// The query parameters of a request, as text.
pub open spec fn params_of(request: ApiRequest) -> Seq<(Seq<char>, Seq<char>)> {
    request.params@.map_values(|p: (String, String)| (p.0@, p.1@))
}

fn param(name: &str, value: &str) -> (r: (String, String))
    ensures
        r.0@ == name@,
        r.1@ == value@,
{
    (String::from_str(name), String::from_str(value))
}

/// The search for the videos that match `search_term`.
pub fn search_request(api_key: &str, search_term: &str) -> (r: ApiRequest)
    ensures
        r.endpoint@ == "https://www.googleapis.com/youtube/v3/search"@,
        params_of(r) == seq![("key"@, api_key@), ("q"@, search_term@)],
{
    let mut params: Vec<(String, String)> = Vec::new();
    params.push(param("key", api_key));
    params.push(param("q", search_term));
    let r = ApiRequest {
        endpoint: String::from_str("https://www.googleapis.com/youtube/v3/search"),
        params,
    };
    assert(params_of(r) =~= seq![("key"@, api_key@), ("q"@, search_term@)]);
    r
}

/// The id of the first video of a search answer: `items[0].id.videoId`.
pub open spec fn search_video_id(answer: Json) -> Option<Seq<char>> {
    text_of(field(field(element(field(Some(answer), "items"@), 0), "id"@), "videoId"@))
}

/// What the search does once its request has been sent.
#[derive(Debug)]
pub enum SearchNext {
    /// The answer came back with status 200: its body is to be read as JSON.
    ReadBody,
    /// The search ends with this outcome.
    Finished(Result<String, String>),
}

/// Decides the search from the outcome of sending its request: the HTTP status
/// of the answer, or the text of the error that the send failed with.
pub fn search_after_send(sent: Result<u16, String>) -> (r: SearchNext)
    ensures
        match sent {
            Err(e) => r matches SearchNext::Finished(Err(m)) && m@ == "Error getting URL: "@ + e@,
            Ok(status) => if status == 200 {
                r is ReadBody
            } else {
                r matches SearchNext::Finished(Err(m)) && m@ == "Error getting response"@
            },
        },
{
    match sent {
        Err(e) => {
            let mut m = String::from_str("Error getting URL: ");
            m.append(e.as_str());
            SearchNext::Finished(Err(m))
        },
        Ok(status) => if status == 200 {
            SearchNext::ReadBody
        } else {
            SearchNext::Finished(Err(String::from_str("Error getting response")))
        },
    }
}

/// The outcome of a search from its answer's body, read as JSON (or the text of
/// the error that reading it failed with): the watch page of the first video.
pub fn search_after_body(body: Result<Json, String>) -> (r: Result<String, String>)
    ensures
        match body {
            Err(e) => r matches Err(m) && m@ == "Error: "@ + e@,
            Ok(answer) => match search_video_id(answer) {
                Some(id) => r matches Ok(u) && u@ == watch_url_of(id),
                None => r matches Err(m) && m@ == "Error getting video ID"@,
            },
        },
{
    match body {
        Err(e) => {
            let mut m = String::from_str("Error: ");
            m.append(e.as_str());
            Err(m)
        },
        Ok(answer) => {
            let id = match get_field(&answer, "items") {
                Some(items) => match get_element(items, 0) {
                    Some(first) => match get_field(first, "id") {
                        Some(ids) => match get_field(ids, "videoId") {
                            Some(v) => as_text(v),
                            None => None,
                        },
                        None => None,
                    },
                    None => None,
                },
                None => None,
            };
            match id {
                Some(video_id) => Ok(watch_url(video_id.as_str())),
                None => Err(String::from_str("Error getting video ID")),
            }
        },
    }
}

/// The watch pages that a run of searches found, in the order of the
/// searches; a failed search adds none.
pub open spec fn found_urls(results: Seq<Result<String, String>>) -> Seq<Seq<char>>
    decreases results.len(),
{
    if results.len() == 0 {
        Seq::empty()
    } else {
        let front = found_urls(results.drop_last());
        match results.last() {
            Ok(u) => front.push(u@),
            Err(_) => front,
        }
    }
}

/// Every successful search adds its URL and a failed one adds nothing,
/// whatever came before: the URLs of two runs of searches are those of the
/// first run followed by those of the second.
pub proof fn lemma_found_urls_search_by_search(
    a: Seq<Result<String, String>>,
    b: Seq<Result<String, String>>,
    x: Result<String, String>,
)
    ensures
        found_urls(a + b) == found_urls(a) + found_urls(b),
        found_urls(seq![x]) == match x {
            Ok(u) => seq![u@],
            Err(_) => Seq::<Seq<char>>::empty(),
        },
    decreases b.len(),
{
    assert(seq![x].drop_last() =~= Seq::<Result<String, String>>::empty());
    assert(seq![x].last() == x);
    assert(found_urls(Seq::<Result<String, String>>::empty()) =~= Seq::<Seq<char>>::empty());
    if b.len() == 0 {
        assert(a + b =~= a);
        assert(found_urls(a) + found_urls(b) =~= found_urls(a));
    } else {
        lemma_found_urls_search_by_search(a, b.drop_last(), x);
        assert((a + b).drop_last() =~= a + b.drop_last());
        assert((a + b).last() == b.last());
        match b.last() {
            Ok(u) => {
                assert(found_urls(a + b) =~= found_urls(a) + found_urls(b.drop_last()).push(u@));
            },
            Err(_) => {},
        }
    }
}

/// When every search succeeds, there is one URL per search, the k-th being the
/// URL of the k-th search.
pub proof fn lemma_found_urls_all_found(results: Seq<Result<String, String>>)
    requires
        forall|k: int| 0 <= k < results.len() ==> (#[trigger] results[k]) is Ok,
    ensures
        found_urls(results).len() == results.len(),
        forall|k: int| 0 <= k < results.len() ==> #[trigger] found_urls(results)[k] == results[k]->Ok_0@,
    decreases results.len(),
{
    if results.len() > 0 {
        let front = results.drop_last();
        assert forall|k: int| 0 <= k < front.len() implies (#[trigger] front[k]) is Ok by {
            assert(front[k] == results[k]);
        }
        lemma_found_urls_all_found(front);
        assert(results[results.len() - 1] is Ok);
        assert forall|k: int| 0 <= k < results.len() implies #[trigger] found_urls(results)[k]
            == results[k]->Ok_0@ by {
            if k < results.len() - 1 {
                assert(front[k] == results[k]);
            }
        }
    }
}

/// The outcome of searching YouTube for a list of songs, from the outcome of
/// each search in turn: the watch pages found, in order. It never fails; a
/// song whose search failed is left out.
pub fn youtube_urls_from_searches(results: &Vec<Result<String, String>>) -> (r: Result<
    Vec<String>,
    String,
>)
    ensures
        r matches Ok(urls) && texts(urls@) == found_urls(results@),
{
    let mut urls: Vec<String> = Vec::new();
    let mut i: usize = 0;
    assert(results@.take(0) =~= Seq::<Result<String, String>>::empty());
    assert(texts(urls@) =~= Seq::<Seq<char>>::empty());
    while i < results.len()
        invariant
            i <= results@.len(),
            texts(urls@) == found_urls(results@.take(i as int)),
        decreases results@.len() - i,
    {
        assert(results@.take(i + 1).drop_last() =~= results@.take(i as int));
        assert(results@.take(i + 1).last() == results@[i as int]);
        match &results[i] {
            Ok(u) => {
                let ghost before = urls@;
                urls.push(u.clone());
                assert(texts(urls@) =~= texts(before).push(u@));
            },
            Err(_) => {},
        }
        i = i + 1;
    }
    assert(results@.take(results@.len() as int) =~= results@);
    Ok(urls)
}

/// The id of the video of one playlist item: `snippet.resourceId.videoId`.
pub open spec fn item_video_id(item: Json) -> Option<Seq<char>> {
    text_of(field(field(field(Some(item), "snippet"@), "resourceId"@), "videoId"@))
}

/// The watch pages of the items of one playlist page, in order; an item
/// without a video id adds none.
pub open spec fn page_urls(items: Seq<Json>) -> Seq<Seq<char>>
    decreases items.len(),
{
    if items.len() == 0 {
        Seq::empty()
    } else {
        let front = page_urls(items.drop_last());
        match item_video_id(items.last()) {
            Some(id) => front.push(watch_url_of(id)),
            None => front,
        }
    }
}

/// A page adds one watch page per item that has a video id, in item order:
/// the URLs of two runs of items are those of the first run followed by those
/// of the second, and a single item gives the watch page of its video, or
/// nothing without one.
pub proof fn lemma_page_urls_item_by_item(a: Seq<Json>, b: Seq<Json>, x: Json)
    ensures
        page_urls(a + b) == page_urls(a) + page_urls(b),
        page_urls(seq![x]) == match item_video_id(x) {
            Some(id) => seq![watch_url_of(id)],
            None => Seq::<Seq<char>>::empty(),
        },
    decreases b.len(),
{
    assert(seq![x].drop_last() =~= Seq::<Json>::empty());
    assert(seq![x].last() == x);
    assert(page_urls(Seq::<Json>::empty()) =~= Seq::<Seq<char>>::empty());
    if b.len() == 0 {
        assert(a + b =~= a);
        assert(page_urls(a) + page_urls(b) =~= page_urls(a));
    } else {
        lemma_page_urls_item_by_item(a, b.drop_last(), x);
        assert((a + b).drop_last() =~= a + b.drop_last());
        assert((a + b).last() == b.last());
        match item_video_id(b.last()) {
            Some(id) => {
                assert(page_urls(a + b) =~= page_urls(a) + page_urls(b.drop_last()).push(
                    watch_url_of(id),
                ));
            },
            None => {},
        }
    }
}

/// When every item of a page has a video id, the page adds exactly one watch
/// page per item, the k-th for the k-th item.
pub proof fn lemma_page_urls_one_per_item(items: Seq<Json>)
    requires
        forall|k: int| 0 <= k < items.len() ==> (#[trigger] item_video_id(items[k])) is Some,
    ensures
        page_urls(items).len() == items.len(),
        forall|k: int|
            0 <= k < items.len() ==> #[trigger] page_urls(items)[k] == watch_url_of(
                item_video_id(items[k])->0,
            ),
    decreases items.len(),
{
    if items.len() > 0 {
        let front = items.drop_last();
        assert forall|k: int| 0 <= k < front.len() implies (#[trigger] item_video_id(front[k])) is Some by {
            assert(front[k] == items[k]);
        }
        lemma_page_urls_one_per_item(front);
        assert(item_video_id(items[items.len() - 1]) is Some);
        assert forall|k: int| 0 <= k < items.len() implies #[trigger] page_urls(items)[k] == watch_url_of(
            item_video_id(items[k])->0,
        ) by {
            if k < items.len() - 1 {
                assert(front[k] == items[k]);
            }
        }
    }
}

/// Paging through a YouTube playlist: the playlist, the watch pages collected
/// so far, and the token of the page to fetch next (empty for the first).
#[derive(Debug)]
pub struct PlaylistPaging {
    pub playlist_id: String,
    pub urls: Vec<String>,
    pub page_token: String,
}

/// The state of paging through a playlist, as text.
pub struct PagingView {
    pub playlist_id: Seq<char>,
    pub urls: Seq<Seq<char>>,
    pub page_token: Seq<char>,
}

impl View for PlaylistPaging {
    type V = PagingView;

    open spec fn view(&self) -> PagingView {
        PagingView {
            playlist_id: self.playlist_id@,
            urls: texts(self.urls@),
            page_token: self.page_token@,
        }
    }
}

/// What came of fetching one page.
#[derive(Debug)]
pub enum PageEvent {
    /// The request could not be sent.
    SendFailed,
    /// The answer came, but its body could not be read as text.
    TextFailed,
    /// The body is not JSON.
    NotJson,
    /// The body, read as JSON.
    Body(Json),
}

/// What paging does next.
#[derive(Debug)]
pub enum PagingStep {
    /// Fetch the page of this state.
    Fetch(PlaylistPaging),
    /// Paging ends with this outcome.
    Done(Result<Vec<String>, String>),
}

/// Starts paging through the playlist that a YouTube playlist URL names.
pub fn start_playlist_paging(url: &str) -> (r: Result<PlaylistPaging, String>)
    ensures
        match youtube_playlist_id(url@) {
            Some(id) => r matches Ok(state) && state@ == PagingView {
                playlist_id: id,
                urls: Seq::empty(),
                page_token: Seq::empty(),
            },
            None => r matches Err(m) && m@ == "Error getting playlist: "@ + no_playlist_id_message(),
        },
{
    match extract_playlist_id_from_url(url) {
        Ok(id) => {
            let state = PlaylistPaging { playlist_id: id, urls: Vec::new(), page_token: String::new() };
            assert(state@.urls =~= Seq::<Seq<char>>::empty());
            Ok(state)
        },
        Err(e) => {
            let mut m = String::from_str("Error getting playlist: ");
            m.append(e.as_str());
            Err(m)
        },
    }
}

impl PlaylistPaging {
    /// The request for the page this state is at: 50 items of the playlist's
    /// `snippet` part, from the page token on.
    pub fn page_request(&self, api_key: &str) -> (r: ApiRequest)
        ensures
            r.endpoint@ == "https://www.googleapis.com/youtube/v3/playlistItems"@,
            params_of(r) == seq![
                ("part"@, "snippet"@),
                ("playlistId"@, self.playlist_id@),
                ("key"@, api_key@),
                ("pageToken"@, self.page_token@),
                ("maxResults"@, "50"@),
            ],
    {
        let mut params: Vec<(String, String)> = Vec::new();
        params.push(param("part", "snippet"));
        params.push(param("playlistId", self.playlist_id.as_str()));
        params.push(param("key", api_key));
        params.push(param("pageToken", self.page_token.as_str()));
        params.push(param("maxResults", "50"));
        let r = ApiRequest {
            endpoint: String::from_str("https://www.googleapis.com/youtube/v3/playlistItems"),
            params,
        };
        assert(params_of(r) =~= seq![
            ("part"@, "snippet"@),
            ("playlistId"@, self.playlist_id@),
            ("key"@, api_key@),
            ("pageToken"@, self.page_token@),
            ("maxResults"@, "50"@),
        ]);
        r
    }

    /// Takes in what came of fetching the current page.
    ///
    /// A page whose `items` is not an array ends paging with no URLs at all,
    /// those of earlier pages included. Otherwise the watch pages of its items
    /// are added, and paging goes on to `nextPageToken` while the page names
    /// one. A body that could not be read is fetched again.
    pub fn step(self, event: PageEvent) -> (r: PagingStep)
        ensures
            r matches PagingStep::Fetch(next) ==> next@.playlist_id == self@.playlist_id
                && self@.urls.is_prefix_of(next@.urls),
            match event {
                PageEvent::SendFailed => r matches PagingStep::Done(Err(m)) && m@
                    == "Error getting response body"@,
                PageEvent::TextFailed => r matches PagingStep::Fetch(next) && next@ == self@,
                PageEvent::NotJson => r matches PagingStep::Done(Err(m)) && m@
                    == "Error getting JSON"@,
                PageEvent::Body(page) => match elements_of(field(Some(page), "items"@)) {
                    None => r matches PagingStep::Done(Ok(urls)) && urls@.len() == 0,
                    Some(items) => match text_of(field(Some(page), "nextPageToken"@)) {
                        Some(token) => r matches PagingStep::Fetch(next) && next@ == PagingView {
                            playlist_id: self@.playlist_id,
                            urls: self@.urls + page_urls(items),
                            page_token: token,
                        },
                        None => r matches PagingStep::Done(Ok(urls)) && texts(urls@) == self@.urls
                            + page_urls(items),
                    },
                },
            },
    {
        match event {
            PageEvent::SendFailed => PagingStep::Done(Err(String::from_str("Error getting response body"))),
            PageEvent::TextFailed => PagingStep::Fetch(self),
            PageEvent::NotJson => PagingStep::Done(Err(String::from_str("Error getting JSON"))),
            PageEvent::Body(page) => {
                let items = match get_field(&page, "items") {
                    Some(v) => as_elements(v),
                    None => None,
                };
                match items {
                    None => PagingStep::Done(Ok(Vec::new())),
                    Some(items) => {
                        let mut urls = self.urls;
                        let ghost start = texts(urls@);
                        let mut i: usize = 0;
                        assert(items@.take(0) =~= Seq::<Json>::empty());
                        assert(start + page_urls(Seq::<Json>::empty()) =~= start);
                        while i < items.len()
                            invariant
                                i <= items@.len(),
                                texts(urls@) == start + page_urls(items@.take(i as int)),
                            decreases items@.len() - i,
                        {
                            let item = &items[i];
                            let id = match get_field(item, "snippet") {
                                Some(snippet) => match get_field(snippet, "resourceId") {
                                    Some(resource) => match get_field(resource, "videoId") {
                                        Some(v) => as_text(v),
                                        None => None,
                                    },
                                    None => None,
                                },
                                None => None,
                            };
                            assert(items@.take(i + 1).drop_last() =~= items@.take(i as int));
                            assert(items@.take(i + 1).last() == items@[i as int]);
                            match id {
                                Some(video_id) => {
                                    let u = watch_url(video_id.as_str());
                                    let ghost before = urls@;
                                    assert(item_video_id(items@[i as int]) == Some(video_id@));
                                    urls.push(u);
                                    assert(texts(urls@) =~= texts(before).push(u@));
                                    assert(texts(urls@) =~= start + page_urls(items@.take(i + 1)));
                                },
                                None => {},
                            }
                            i = i + 1;
                        }
                        assert(items@.take(items@.len() as int) =~= items@);
                        let token = match get_field(&page, "nextPageToken") {
                            Some(v) => as_text(v),
                            None => None,
                        };
                        assert(start.is_prefix_of(texts(urls@))) by {
                            assert(start =~= texts(urls@).subrange(0, start.len() as int));
                        }
                        match token {
                            Some(t) => PagingStep::Fetch(
                                PlaylistPaging { playlist_id: self.playlist_id, urls, page_token: t.clone() },
                            ),
                            None => PagingStep::Done(Ok(urls)),
                        }
                    },
                }
            },
        }
    }
}

} // verus!
