//! The check that runs before every command.

use vstd::prelude::*;

use crate::text::str_eq;

verus! {

/// Whether a command runs, or the answer it gets instead.
#[derive(Debug)]
pub enum HookDecision {
    Run,
    Refuse(String),
}

/// The text of a setting, or `default` where it is not set.
pub open spec fn setting_or(setting: Option<String>, default: Seq<char>) -> Seq<char> {
    match setting {
        Some(s) => s@,
        None => default,
    }
}

fn setting_or_default(setting: Option<String>, default: &str) -> (r: String)
    ensures
        r@ == setting_or(setting, default@),
{
    match setting {
        Some(s) => s,
        None => String::from_str(default),
    }
}

/// Decides whether a command runs: only where it came from a guild channel
/// whose name is the accepted one (the setting `accepted_channel`, by default
/// `dwin_audio`). Elsewhere it is answered with the setting `refusal_reply`, by
/// default `This command is not allowed here`.
pub fn before_hook_decision(
    guild_channel_name: Option<String>,
    accepted_channel: Option<String>,
    refusal_reply: Option<String>,
) -> (r: HookDecision)
    ensures
        match guild_channel_name {
            Some(name) if name@ == setting_or(accepted_channel, "dwin_audio"@) => r is Run,
            _ => r matches HookDecision::Refuse(reply) && reply@ == setting_or(
                refusal_reply,
                "This command is not allowed here"@,
            ),
        },
{
    if let Some(name) = guild_channel_name {
        let accepted = setting_or_default(accepted_channel, "dwin_audio");
        if str_eq(name.as_str(), accepted.as_str()) {
            return HookDecision::Run;
        }
    }
    HookDecision::Refuse(setting_or_default(refusal_reply, "This command is not allowed here"))
}

} // verus!
