use sunny::commands::{append_decimal, play_reply, play_url, require_guild, validate_url};
use sunny::errors::SunnyError;
use sunny::helper_functions::{
    does_bot_need_to_join, is_channel_dwin_audio_helper, message_ids_to_delete,
    user_voice_channel, ChannelLookup, GuildVoice, MessageRef, CLEAR_FETCH_LIMIT,
};
use sunny::hooks::{before_hook_decision, HookDecision};
use sunny::play_helper::{get_urls_plan, search_term_outcome, search_term_urls, UrlPlan};

fn s(text: &str) -> String {
    text.to_string()
}

#[test]
fn validate_url_strips_angle_brackets() {
    assert_eq!(
        validate_url(Some(s("<https://www.youtube.com/watch?v=dQw4w9WgXcQ>"))),
        Some(s("https://www.youtube.com/watch?v=dQw4w9WgXcQ"))
    );
    assert_eq!(
        validate_url(Some(s("https://www.youtube.com/watch?v=dQw4w9WgXcQ"))),
        Some(s("https://www.youtube.com/watch?v=dQw4w9WgXcQ"))
    );
}

#[test]
fn validate_url_refuses_what_does_not_parse() {
    assert_eq!(validate_url(Some(s("never gonna give you up"))), None);
    assert_eq!(validate_url(Some(s("<>"))), None);
    assert_eq!(validate_url(Some(s("<not a url>"))), None);
    assert_eq!(validate_url(None), None);
}

#[test]
fn play_url_errors_for_the_user() {
    assert!(matches!(play_url(Some(s("nope"))), Err(SunnyError::User(m)) if m == "Unable to parse url"));
    assert_eq!(play_url(Some(s("<https://youtu.be/abc>"))).unwrap(), "https://youtu.be/abc");
}

#[test]
fn play_reply_numbers_the_queue_position() {
    assert_eq!(play_reply(1), "Started playing the song");
    assert_eq!(play_reply(2), "Added song to queue: position 1");
    assert_eq!(play_reply(11), "Added song to queue: position 10");
    assert_eq!(play_reply(1001), "Added song to queue: position 1000");
}

#[test]
fn decimal_text() {
    let mut t = s("n=");
    append_decimal(&mut t, 0);
    assert_eq!(t, "n=0");
    let mut u = String::new();
    append_decimal(&mut u, usize::MAX);
    assert_eq!(u, usize::MAX.to_string());
}

#[test]
fn commands_need_a_guild() {
    assert_eq!(require_guild(Some(7)).unwrap(), 7);
    assert!(matches!(require_guild(None), Err(SunnyError::Log(m)) if m == "message guild id could not be found"));
}

#[test]
fn bot_joins_only_when_elsewhere() {
    let here = Some(GuildVoice { user_channel: Some(5), bot_channel: Some(5) });
    let elsewhere = Some(GuildVoice { user_channel: Some(5), bot_channel: Some(6) });
    let away = Some(GuildVoice { user_channel: Some(5), bot_channel: None });
    assert_eq!(does_bot_need_to_join(&here).unwrap(), false);
    assert_eq!(does_bot_need_to_join(&elsewhere).unwrap(), true);
    assert_eq!(does_bot_need_to_join(&away).unwrap(), true);
    assert_eq!(user_voice_channel(&elsewhere).unwrap(), 5);
}

#[test]
fn joining_needs_the_user_in_voice() {
    let silent = Some(GuildVoice { user_channel: None, bot_channel: Some(6) });
    assert!(matches!(does_bot_need_to_join(&silent), Err(SunnyError::User(m)) if m == "Not in a voice"));
    assert!(matches!(user_voice_channel(&None), Err(SunnyError::Log(m)) if m == "message guild id could not be found"));
}

#[test]
fn commands_only_in_dwin_audio() {
    assert!(is_channel_dwin_audio_helper(true, &ChannelLookup::Guild(s("dwin_audio"))).is_ok());
    assert!(matches!(
        is_channel_dwin_audio_helper(true, &ChannelLookup::Guild(s("general"))),
        Err(SunnyError::User(m)) if m == "Cannot take commands in this channel. Please create a text channel named 'dwin_audio'"
    ));
    assert!(matches!(
        is_channel_dwin_audio_helper(true, &ChannelLookup::NotFound),
        Err(SunnyError::Log(m)) if m == "Unable to fetch channel"
    ));
    assert!(matches!(
        is_channel_dwin_audio_helper(true, &ChannelLookup::NotInGuild),
        Err(SunnyError::Log(m)) if m == "Unable to fetch guild"
    ));
    assert!(matches!(
        is_channel_dwin_audio_helper(false, &ChannelLookup::Guild(s("dwin_audio"))),
        Err(SunnyError::Log(m)) if m == "Failed to get songbird"
    ));
}

#[test]
fn clear_messages_deletes_every_fetched_message() {
    let messages = vec![
        MessageRef { id: 10, is_own: true },
        MessageRef { id: 11, is_own: false },
        MessageRef { id: 12, is_own: true },
    ];
    assert_eq!(message_ids_to_delete(&messages), vec![10, 11, 12]);
    assert_eq!(CLEAR_FETCH_LIMIT, 25);
}

#[test]
fn before_hook_runs_in_the_accepted_channel() {
    assert!(matches!(before_hook_decision(Some(s("dwin_audio")), None, None), HookDecision::Run));
    assert!(matches!(before_hook_decision(Some(s("music")), Some(s("music")), None), HookDecision::Run));
    assert!(matches!(
        before_hook_decision(Some(s("dwin_audio")), Some(s("music")), None),
        HookDecision::Refuse(m) if m == "This command is not allowed here"
    ));
    assert!(matches!(
        before_hook_decision(None, None, Some(s("Go to #music"))),
        HookDecision::Refuse(m) if m == "Go to #music"
    ));
}

#[test]
fn urls_are_planned_by_prefix() {
    match get_urls_plan(s("https://youtu.be/dQw4w9WgXcQ")) {
        UrlPlan::Direct(urls) => assert_eq!(urls, vec![s("https://youtu.be/dQw4w9WgXcQ")]),
        other => panic!("unexpected {:?}", other),
    }
    assert!(matches!(get_urls_plan(s("https://www.youtube.com/watch?v=x")), UrlPlan::Direct(_)));
    assert!(matches!(
        get_urls_plan(s("https://open.spotify.com/playlist/abc")),
        UrlPlan::SpotifyPlaylist(u) if u == "https://open.spotify.com/playlist/abc"
    ));
    assert!(matches!(
        get_urls_plan(s("https://www.youtube.com/playlist?list=PL1")),
        UrlPlan::YoutubePlaylist(u) if u == "https://www.youtube.com/playlist?list=PL1"
    ));
    assert!(matches!(get_urls_plan(s("https://example.com")), UrlPlan::NotFound(e) if e == "No URL's found"));
}

#[test]
fn search_term_errors_are_prefixed() {
    assert_eq!(search_term_outcome(Ok(vec![s("u")])).unwrap(), vec![s("u")]);
    assert_eq!(search_term_outcome(Err(s("boom"))).unwrap_err(), "No URL's found: boom");
}

#[test]
fn a_search_term_finds_at_most_one_url() {
    assert_eq!(search_term_urls(Ok(s("https://www.youtube.com/watch?v=a"))).unwrap(), vec![s("https://www.youtube.com/watch?v=a")]);
    assert_eq!(search_term_urls(Err(s("Error getting video ID"))).unwrap(), Vec::<String>::new());
}
