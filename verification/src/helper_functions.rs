//! The checks that stand before the voice commands: where the user is, where
//! the bot is, and which channel a command came from.

use vstd::prelude::*;

use crate::errors::{is_log, is_user, log_error, user_error, SunnyError};
use crate::text::str_eq;

verus! {

/// The voice channels of the guild a command came from: the one the user who
/// sent it is in, and the one the bot is in.
#[derive(Debug)]
pub struct GuildVoice {
    pub user_channel: Option<u64>,
    pub bot_channel: Option<u64>,
}

/// The voice channel the bot joins for a command: the user's. The guild must be
/// known (else an error for the log) and the user in a voice channel (else the
/// user is told).
pub fn user_voice_channel(guild: &Option<GuildVoice>) -> (r: Result<u64, SunnyError>)
    ensures
        match guild {
            None => r matches Err(e) && is_log(e, "message guild id could not be found"@),
            Some(g) => match g.user_channel {
                None => r matches Err(e) && is_user(e, "Not in a voice"@),
                Some(c) => r == Ok::<u64, SunnyError>(c),
            },
        },
{
    match guild {
        None => Err(log_error("message guild id could not be found")),
        Some(g) => match g.user_channel {
            None => Err(user_error("Not in a voice")),
            Some(c) => Ok(c),
        },
    }
}

/// Whether the bot has to join the user's voice channel: it does unless it is
/// in that channel already. Fails as `user_voice_channel` does.
pub fn does_bot_need_to_join(guild: &Option<GuildVoice>) -> (r: Result<bool, SunnyError>)
    ensures
        match guild {
            None => r matches Err(e) && is_log(e, "message guild id could not be found"@),
            Some(g) => match g.user_channel {
                None => r matches Err(e) && is_user(e, "Not in a voice"@),
                Some(c) => r == Ok::<bool, SunnyError>(g.bot_channel != Some(c)),
            },
        },
{
    let channel = user_voice_channel(guild)?;
    let same_voice = match guild {
        Some(g) => match g.bot_channel {
            Some(b) => b == channel,
            None => false,
        },
        None => false,
    };
    Ok(!same_voice)
}

/// What became of looking up the channel a command came from.
#[derive(Debug)]
pub enum ChannelLookup {
    /// The channel is not known.
    NotFound,
    /// The channel is not a guild channel.
    NotInGuild,
    /// A guild channel with this name.
    Guild(String),
}

/// The name of the only text channel that takes commands.
pub open spec fn command_channel_name() -> Seq<char> {
    "dwin_audio"@
}

/// Whether a command may run in the channel it came from: the voice driver
/// must be registered, and the channel a guild channel named `dwin_audio`.
pub fn is_channel_dwin_audio_helper(voice_registered: bool, channel: &ChannelLookup) -> (r: Result<
    (),
    SunnyError,
>)
    ensures
        !voice_registered ==> (r matches Err(e) && is_log(e, "Failed to get songbird"@)),
        voice_registered ==> match channel {
            ChannelLookup::NotFound => r matches Err(e) && is_log(e, "Unable to fetch channel"@),
            ChannelLookup::NotInGuild => r matches Err(e) && is_log(e, "Unable to fetch guild"@),
            ChannelLookup::Guild(name) => if name@ == command_channel_name() {
                r is Ok
            } else {
                r matches Err(e) && is_user(
                    e,
                    "Cannot take commands in this channel. Please create a text channel named 'dwin_audio'"@,
                )
            },
        },
{
    if !voice_registered {
        return Err(log_error("Failed to get songbird"));
    }
    match channel {
        ChannelLookup::NotFound => Err(log_error("Unable to fetch channel")),
        ChannelLookup::NotInGuild => Err(log_error("Unable to fetch guild")),
        ChannelLookup::Guild(name) => if str_eq(name.as_str(), "dwin_audio") {
            Ok(())
        } else {
            Err(
                user_error(
                    "Cannot take commands in this channel. Please create a text channel named 'dwin_audio'",
                ),
            )
        },
    }
}

/// How many of a channel's latest messages the clear command fetches.
pub const CLEAR_FETCH_LIMIT: u64 = 25;

/// A fetched message: its id, and whether the bot wrote it.
#[derive(Debug)]
pub struct MessageRef {
    pub id: u64,
    pub is_own: bool,
}

/// The messages the clear command deletes: all those fetched, the bot's own
/// and the others alike, in order.
pub fn message_ids_to_delete(messages: &Vec<MessageRef>) -> (r: Vec<u64>)
    ensures
        r@.len() == messages@.len(),
        forall|i: int| 0 <= i < messages@.len() ==> #[trigger] r@[i] == messages@[i].id,
{
    let mut ids: Vec<u64> = Vec::new();
    let mut i: usize = 0;
    while i < messages.len()
        invariant
            i <= messages@.len(),
            ids@.len() == i,
            forall|j: int| 0 <= j < i ==> #[trigger] ids@[j] == messages@[j].id,
        decreases messages@.len() - i,
    {
        ids.push(messages[i].id);
        i = i + 1;
    }
    ids
}

} // verus!
