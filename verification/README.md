# sunny

The decision logic of a Discord music bot, each function with a specification
and a proof that it meets it.

- `src/` is the verified library. `youtube` pages through playlists and reads
  search answers (over the `Json` model of `json`), `spotify` finds the playlist
  a URL names and what to search for each track, `play_helper` decides how a URL
  is looked up, `effects` arranges the play queue and names tracks, `commands`,
  `helper_functions` and `hooks` hold the checks that stand before commands,
  and `text` the string operations they share, specified over `Seq<char>`.
- `app/` is the bot itself: the Discord client (serenity), the voice driver
  (songbird), and the HTTP calls to YouTube (reqwest) and Spotify (rspotify). It
  hands the library plain values and acts on its answers.
- `tests/` runs the library on concrete values.
