//! Discord REST endpoints and the payload shapes the bot exchanges with them.

use vstd::prelude::*;
use vstd::string::StringExecFns;

verus! {

pub const BASE_URL: &'static str = "https://discord.com/api/v8";

/// The character a decimal digit prints as.
pub open spec fn digit_char(d: nat) -> char {
    if d == 0 {
        '0'
    } else if d == 1 {
        '1'
    } else if d == 2 {
        '2'
    } else if d == 3 {
        '3'
    } else if d == 4 {
        '4'
    } else if d == 5 {
        '5'
    } else if d == 6 {
        '6'
    } else if d == 7 {
        '7'
    } else if d == 8 {
        '8'
    } else {
        '9'
    }
}

/// The decimal rendering of `n`, most significant digit first.
pub open spec fn dec_seq(n: nat) -> Seq<char>
    decreases n,
{
    if n < 10 {
        seq![digit_char(n)]
    } else {
        dec_seq(n / 10).push(digit_char(n % 10))
    }
}

/// Appends the decimal rendering of `n` to `s`.
pub fn push_dec(s: &mut String, n: u64)
    ensures
        final(s)@ == old(s)@ + dec_seq(n as nat),
    decreases n,
{
    if n >= 10 {
        push_dec(s, n / 10);
    }
    let d = n % 10;
    proof {
        reveal_strlit("0");
        reveal_strlit("1");
        reveal_strlit("2");
        reveal_strlit("3");
        reveal_strlit("4");
        reveal_strlit("5");
        reveal_strlit("6");
        reveal_strlit("7");
        reveal_strlit("8");
        reveal_strlit("9");
    }
    if d == 0 {
        s.append("0");
        proof {
            assert("0"@ =~= seq![digit_char(0)]);
        }
    } else if d == 1 {
        s.append("1");
        proof {
            assert("1"@ =~= seq![digit_char(1)]);
        }
    } else if d == 2 {
        s.append("2");
        proof {
            assert("2"@ =~= seq![digit_char(2)]);
        }
    } else if d == 3 {
        s.append("3");
        proof {
            assert("3"@ =~= seq![digit_char(3)]);
        }
    } else if d == 4 {
        s.append("4");
        proof {
            assert("4"@ =~= seq![digit_char(4)]);
        }
    } else if d == 5 {
        s.append("5");
        proof {
            assert("5"@ =~= seq![digit_char(5)]);
        }
    } else if d == 6 {
        s.append("6");
        proof {
            assert("6"@ =~= seq![digit_char(6)]);
        }
    } else if d == 7 {
        s.append("7");
        proof {
            assert("7"@ =~= seq![digit_char(7)]);
        }
    } else if d == 8 {
        s.append("8");
        proof {
            assert("8"@ =~= seq![digit_char(8)]);
        }
    } else {
        s.append("9");
        proof {
            assert("9"@ =~= seq![digit_char(9)]);
        }
    }
    proof {
        if n >= 10 {
            assert(final(s)@ =~= old(s)@ + dec_seq(n as nat));
        } else {
            assert(final(s)@ =~= old(s)@ + dec_seq(n as nat));
        }
    }
}

/// The webhook URL a slash-command interaction is answered through.
pub fn create_new_followup_url(application_id: u64, token: &str) -> (r: String)
    ensures
        r@ == "https://discord.com/api/webhooks/"@ + dec_seq(application_id as nat) + "/"@
            + token@,
{
    let mut url = "https://discord.com/api/webhooks/".to_owned();
    push_dec(&mut url, application_id);
    url.append("/");
    url.append(token);
    url
}

/// The endpoint a new channel message is posted to.
pub fn create_message_url(channel_id: u64) -> (r: String)
    ensures
        r@ == "https://discord.com/api/v8/channels/"@ + dec_seq(channel_id as nat) + "/messages"@,
{
    let mut url = "https://discord.com/api/v8/channels/".to_owned();
    push_dec(&mut url, channel_id);
    url.append("/messages");
    url
}

/// The endpoint a single channel message is edited or deleted through,
/// for a message whose id arrived as text.
pub fn edit_message_url(channel_id: u64, message_id: &str) -> (r: String)
    ensures
        r@ == "https://discord.com/api/v8/channels/"@ + dec_seq(channel_id as nat) + "/messages/"@
            + message_id@,
{
    let mut url = "https://discord.com/api/v8/channels/".to_owned();
    push_dec(&mut url, channel_id);
    url.append("/messages/");
    url.append(message_id);
    url
}

/// The endpoint a single channel message is edited or deleted through,
/// for a message identified by its numeric id.
pub fn delete_message_url(channel_id: u64, message_id: u64) -> (r: String)
    ensures
        r@ == "https://discord.com/api/v8/channels/"@ + dec_seq(channel_id as nat) + "/messages/"@
            + dec_seq(message_id as nat),
{
    let mut url = "https://discord.com/api/v8/channels/".to_owned();
    push_dec(&mut url, channel_id);
    url.append("/messages/");
    push_dec(&mut url, message_id);
    url
}

/// A message as Discord returns it after a post.
#[derive(Debug, Clone)]
pub struct Message {
    pub id: String,
    pub message_reference: MessageReference,
}

impl Message {
    /// An empty message skeleton.
    pub fn new() -> (r: Message)
        ensures
            r.id@ == Seq::<char>::empty(),
            r.message_reference.channel_id@ == Seq::<char>::empty(),
            r.message_reference.guild_id@ == Seq::<char>::empty(),
            r.message_reference.message_id@ == Seq::<char>::empty(),
    {
        Message { id: String::new(), message_reference: MessageReference::new() }
    }
}

impl Default for Message {
    fn default() -> (r: Message)
        ensures
            r.id@ == Seq::<char>::empty(),
            r.message_reference.channel_id@ == Seq::<char>::empty(),
            r.message_reference.guild_id@ == Seq::<char>::empty(),
            r.message_reference.message_id@ == Seq::<char>::empty(),
    {
        Message::new()
    }
}

/// The reference a Discord message carries to the message it answers.
#[derive(Debug, Clone)]
pub struct MessageReference {
    pub channel_id: String,
    pub guild_id: String,
    pub message_id: String,
}

impl MessageReference {
    /// An empty reference skeleton.
    pub fn new() -> (r: MessageReference)
        ensures
            r.channel_id@ == Seq::<char>::empty(),
            r.guild_id@ == Seq::<char>::empty(),
            r.message_id@ == Seq::<char>::empty(),
    {
        MessageReference {
            channel_id: String::new(),
            guild_id: String::new(),
            message_id: String::new(),
        }
    }
}

impl Default for MessageReference {
    fn default() -> (r: MessageReference)
        ensures
            r.channel_id@ == Seq::<char>::empty(),
            r.guild_id@ == Seq::<char>::empty(),
            r.message_id@ == Seq::<char>::empty(),
    {
        MessageReference::new()
    }
}

/// What a client sends to have a fresh followup URL minted.
#[derive(Debug, Clone)]
pub struct InteractionFollowupUrlData {
    pub application_id: u64,
    pub interaction_token: String,
}

} // verus!
