//! The REST endpoints' URLs.
use vstd::prelude::*;
use crate::model::Snowflake;

verus! {

pub const ME: &'static str = "https://discord.com/api/v9/users/@me";

pub const PRIVATE_CHANNELS: &'static str = "https://discord.com/api/v9/users/@me/channels";

pub const GUILDS: &'static str = "https://discord.com/api/v9/users/@me/guilds";

/// The decimal digit for `d < 10`.
pub open spec fn digit_char(d: nat) -> char {
    if d == 0 {
        '0'
    } else if d == 1 {
        '1'
    } else if d == 2 {
        '2'
    } else if d == 3 {
        '3'
    } else if d == 4 {
        '4'
    } else if d == 5 {
        '5'
    } else if d == 6 {
        '6'
    } else if d == 7 {
        '7'
    } else if d == 8 {
        '8'
    } else {
        '9'
    }
}

/// The decimal text of `n`, without leading zeros.
pub open spec fn decimal(n: nat) -> Seq<char>
    decreases n,
{
    if n < 10 {
        seq![digit_char(n)]
    } else {
        decimal(n / 10) + seq![digit_char(n % 10)]
    }
}

fn digit_text(d: u8) -> (r: &'static str)
    requires
        d < 10,
    ensures
        r@ == seq![digit_char(d as nat)],
{
    proof {
        reveal_strlit("0");
        reveal_strlit("1");
        reveal_strlit("2");
        reveal_strlit("3");
        reveal_strlit("4");
        reveal_strlit("5");
        reveal_strlit("6");
        reveal_strlit("7");
        reveal_strlit("8");
        reveal_strlit("9");
    }
    if d == 0 {
        "0"
    } else if d == 1 {
        "1"
    } else if d == 2 {
        "2"
    } else if d == 3 {
        "3"
    } else if d == 4 {
        "4"
    } else if d == 5 {
        "5"
    } else if d == 6 {
        "6"
    } else if d == 7 {
        "7"
    } else if d == 8 {
        "8"
    } else {
        "9"
    }
}

/// Appends the decimal text of `n` to `out`.
fn push_decimal(out: &mut String, n: u8)
    ensures
        final(out)@ == old(out)@ + decimal(n as nat),
{
    if n >= 100 {
        out.append(digit_text(n / 100));
        out.append(digit_text((n / 10) % 10));
        assert(decimal((n / 10) as nat) == decimal((n / 100) as nat) + seq![digit_char(((n / 10) % 10) as nat)]);
    } else if n >= 10 {
        out.append(digit_text(n / 10));
    }
    out.append(digit_text(n % 10));
    assert(decimal(n as nat) == if n >= 10 {
        decimal((n / 10) as nat) + seq![digit_char((n % 10) as nat)]
    } else {
        seq![digit_char(n as nat)]
    });
    assert(final(out)@ =~= old(out)@ + decimal(n as nat));
}

pub fn channel(channel_id: &Snowflake) -> (r: String)
    ensures
        r@ == "https://discord.com/api/v9/channels/"@ + channel_id.snowflake_str@,
{
    let mut out = String::from_str("https://discord.com/api/v9/channels/");
    out.append(channel_id.as_str());
    out
}

/// Deleting (closing) a channel, without notifying its members.
pub fn close_channel(channel_id: &Snowflake) -> (r: String)
    ensures
        r@ == "https://discord.com/api/v9/channels/"@ + channel_id.snowflake_str@ + "?silent=false"@,
{
    let mut out = channel(channel_id);
    out.append("?silent=false");
    out
}

pub fn guild_channels(guild_id: &Snowflake) -> (r: String)
    ensures
        r@ == "https://discord.com/api/v9/guilds/"@ + guild_id.snowflake_str@ + "/channels"@,
{
    let mut out = String::from_str("https://discord.com/api/v9/guilds/");
    out.append(guild_id.as_str());
    out.append("/channels");
    out
}

pub fn send_message(channel_id: &Snowflake) -> (r: String)
    ensures
        r@ == "https://discord.com/api/v9/channels/"@ + channel_id.snowflake_str@ + "/messages"@,
{
    let mut out = channel(channel_id);
    out.append("/messages");
    out
}

pub fn start_typing(channel_id: &Snowflake) -> (r: String)
    ensures
        r@ == "https://discord.com/api/v9/channels/"@ + channel_id.snowflake_str@ + "/typing"@,
{
    let mut out = channel(channel_id);
    out.append("/typing");
    out
}

pub fn user(user_id: &Snowflake) -> (r: String)
    ensures
        r@ == "https://discord.com/api/v9/users/"@ + user_id.snowflake_str@,
{
    let mut out = String::from_str("https://discord.com/api/v9/users/");
    out.append(user_id.as_str());
    out
}

/// A page of at most `limit` messages of a channel, older than
/// `before_message_id` when it is given.
pub fn messages(channel_id: &Snowflake, before_message_id: Option<&Snowflake>, limit: u8) -> (r: String)
    ensures
        r@ == match before_message_id {
            Some(b) => "https://discord.com/api/v9/channels/"@ + channel_id.snowflake_str@ + "/messages?before="@
                + b.snowflake_str@ + "&limit="@ + decimal(limit as nat),
            None => "https://discord.com/api/v9/channels/"@ + channel_id.snowflake_str@ + "/messages?&limit="@
                + decimal(limit as nat),
        },
{
    let mut out = String::from_str("https://discord.com/api/v9/channels/");
    out.append(channel_id.as_str());
    match before_message_id {
        Some(b) => {
            out.append("/messages?before=");
            out.append(b.as_str());
            out.append("&limit=");
        },
        None => {
            out.append("/messages?&limit=");
        },
    }
    push_decimal(&mut out, limit);
    out
}

pub fn message(channel_id: &Snowflake, message_id: &Snowflake) -> (r: String)
    ensures
        r@ == "https://discord.com/api/v9/channels/"@ + channel_id.snowflake_str@ + "/messages/"@
            + message_id.snowflake_str@,
{
    let mut out = String::from_str("https://discord.com/api/v9/channels/");
    out.append(channel_id.as_str());
    out.append("/messages/");
    out.append(message_id.as_str());
    out
}

} // verus!
