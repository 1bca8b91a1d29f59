//! The decisions of the `play` command and of the commands that need a guild.

use vstd::prelude::*;

use crate::errors::{is_log, is_user, log_error, user_error, SunnyError};
use crate::spotify::{parse_url_path, url_path};
use crate::text::{first_char_is, last_char_is, substring};

verus! {

/// The argument with one pair of enclosing angle brackets taken off (Discord
/// wraps a link in them to keep it from being previewed).
pub open spec fn without_angle_brackets(arg: Seq<char>) -> Seq<char> {
    if arg.len() > 0 && arg[0] == '<' && arg.last() == '>' {
        arg.subrange(1, arg.len() - 1)
    } else {
        arg
    }
}

/// The URL that the `play` command's argument names: the argument without
/// enclosing angle brackets, where that parses as a URL. `None` where there is
/// no argument or it does not parse.
pub fn validate_url(arg: Option<String>) -> (r: Option<String>)
    ensures
        match arg {
            None => r is None,
            Some(a) => if url_path(without_angle_brackets(a@)) is Some {
                r matches Some(u) && u@ == without_angle_brackets(a@)
            } else {
                r is None
            },
        },
{
    match arg {
        None => None,
        Some(a) => {
            let url = if first_char_is(a.as_str(), '<') && last_char_is(a.as_str(), '>') {
                let n = a.as_str().unicode_len();
                substring(a.as_str(), 1, n - 1)
            } else {
                a
            };
            match parse_url_path(url.as_str()) {
                Some(_) => Some(url),
                None => None,
            }
        },
    }
}

/// The URL the `play` command plays, or the error the user is told.
pub fn play_url(arg: Option<String>) -> (r: Result<String, SunnyError>)
    ensures
        match arg {
            Some(a) if url_path(without_angle_brackets(a@)) is Some => r matches Ok(u) && u@
                == without_angle_brackets(a@),
            _ => r matches Err(e) && is_user(e, "Unable to parse url"@),
        },
{
    match validate_url(arg) {
        Some(u) => Ok(u),
        None => Err(user_error("Unable to parse url")),
    }
}

/// The guild a command was sent in; a command sent outside a guild ends with
/// an error for the log.
pub fn require_guild(guild_id: Option<u64>) -> (r: Result<u64, SunnyError>)
    ensures
        match guild_id {
            Some(id) => r == Ok::<u64, SunnyError>(id),
            None => r matches Err(e) && is_log(e, "message guild id could not be found"@),
        },
{
    match guild_id {
        Some(id) => Ok(id),
        None => Err(log_error("message guild id could not be found")),
    }
}

/// The decimal digit `d`.
pub open spec fn digit(d: nat) -> char {
    if d == 0 {
        '0'
    } else if d == 1 {
        '1'
    } else if d == 2 {
        '2'
    } else if d == 3 {
        '3'
    } else if d == 4 {
        '4'
    } else if d == 5 {
        '5'
    } else if d == 6 {
        '6'
    } else if d == 7 {
        '7'
    } else if d == 8 {
        '8'
    } else {
        '9'
    }
}

/// `n` written in decimal, without leading zeros.
pub open spec fn decimal(n: nat) -> Seq<char>
    decreases n,
{
    if n < 10 {
        seq![digit(n)]
    } else {
        decimal(n / 10).push(digit(n % 10))
    }
}

/// The value of a decimal digit character.
pub open spec fn digit_value(c: char) -> int {
    c as int - '0' as int
}

/// The number that a string of decimal digits writes, most significant first.
pub open spec fn read_decimal(s: Seq<char>) -> int
    decreases s.len(),
{
    if s.len() == 0 {
        0
    } else {
        read_decimal(s.drop_last()) * 10 + digit_value(s.last())
    }
}

/// `decimal(n)` is `n` written in base ten: it is made of the characters `0`
/// to `9`, reads back as `n`, and starts with `0` only for zero itself.
pub proof fn lemma_decimal_reads_back(n: nat)
    ensures
        decimal(n).len() >= 1,
        forall|i: int| 0 <= i < decimal(n).len() ==> '0' <= #[trigger] decimal(n)[i] <= '9',
        read_decimal(decimal(n)) == n,
        n >= 10 ==> decimal(n)[0] != '0',
    decreases n,
{
    let d = (n % 10) as nat;
    assert(digit_value(digit(d)) == d && '0' <= digit(d) <= '9');
    if n < 10 {
        assert(seq![digit(n)].drop_last() =~= Seq::<char>::empty());
        assert(d == n);
        assert(read_decimal(decimal(n)) == read_decimal(Seq::<char>::empty()) * 10 + digit_value(digit(d)));
    } else {
        lemma_decimal_reads_back(n / 10);
        let front = decimal(n / 10);
        assert(decimal(n).drop_last() =~= front);
        assert(decimal(n).last() == digit(d));
        assert(n == (n / 10) * 10 + n % 10) by (nonlinear_arith);
        assert(read_decimal(decimal(n)) == read_decimal(front) * 10 + digit_value(digit(d)));
        assert(decimal(n)[0] == front[0]);
        assert(n / 10 >= 10 || (1 <= n / 10 < 10 && front[0] == digit((n / 10) as nat)));
    }
}

fn digit_text(d: usize) -> (r: &'static str)
    requires
        d < 10,
    ensures
        r@ == seq![digit(d as nat)],
{
    if d == 0 {
        proof { reveal_strlit("0"); }
        "0"
    } else if d == 1 {
        proof { reveal_strlit("1"); }
        "1"
    } else if d == 2 {
        proof { reveal_strlit("2"); }
        "2"
    } else if d == 3 {
        proof { reveal_strlit("3"); }
        "3"
    } else if d == 4 {
        proof { reveal_strlit("4"); }
        "4"
    } else if d == 5 {
        proof { reveal_strlit("5"); }
        "5"
    } else if d == 6 {
        proof { reveal_strlit("6"); }
        "6"
    } else if d == 7 {
        proof { reveal_strlit("7"); }
        "7"
    } else if d == 8 {
        proof { reveal_strlit("8"); }
        "8"
    } else {
        proof { reveal_strlit("9"); }
        "9"
    }
}

/// Appends `n`, written in decimal, to `s`.
pub fn append_decimal(s: &mut String, n: usize)
    ensures
        final(s)@ == old(s)@ + decimal(n as nat),
    decreases n,
{
    if n >= 10 {
        append_decimal(s, n / 10);
    }
    s.append(digit_text(n % 10));
    assert(final(s)@ =~= old(s)@ + decimal(n as nat));
}

/// What the `play` command would answer once the queue holds `len` tracks,
/// the new one among them.
pub fn play_reply(len: usize) -> (r: String)
    requires
        len >= 1,
    ensures
        r@ == if len == 1 {
            "Started playing the song"@
        } else {
            "Added song to queue: position "@ + decimal((len - 1) as nat)
        },
{
    if len == 1 {
        String::from_str("Started playing the song")
    } else {
        let mut reply = String::from_str("Added song to queue: position ");
        append_decimal(&mut reply, len - 1);
        reply
    }
}

} // verus!
