//! The HTTP route that sets the announcement channel.

use vstd::prelude::*;
use crate::json::{json_string, json_string_literal, lemma_json_plain_unescaped};
use crate::text::{decimal, push_decimal, lemma_decimal_digits, is_digit};

verus! {

/// The text that confirms the announcement channel `channel`.
pub open spec fn channel_set_text(channel: u64) -> Seq<char> {
    "Channel ID set to "@ + decimal(channel as nat)
}

/// The JSON body that answers a request setting the announcement channel to
/// `new_channel_id`: the confirmation text as a JSON string. Channel ids are
/// never zero (a zero id is refused when it is turned into a channel).
pub fn channel_set_reply(new_channel_id: u64) -> (body: String)
    requires
        new_channel_id != 0,
    ensures
        body@ == json_string(channel_set_text(new_channel_id)),
        body@ == seq!['"'] + channel_set_text(new_channel_id) + seq!['"'],
{
    let mut text = "Channel ID set to ".to_owned();
    push_decimal(&mut text, new_channel_id);
    proof {
        reveal_strlit("Channel ID set to ");
        let t = channel_set_text(new_channel_id);
        let d = decimal(new_channel_id as nat);
        lemma_decimal_digits(new_channel_id as nat);
        assert forall|i: int| 0 <= i < t.len() implies {
            let c = #[trigger] t[i];
            c != '"' && c != '\\' && (c as nat) >= 0x20
        } by {
            if i >= 18 {
                assert(t[i] == d[i - 18]);
                assert(is_digit(d[i - 18]));
            }
        }
        lemma_json_plain_unescaped(t);
    }
    json_string_literal(text.as_str())
}


/// A channel set over HTTP is the one `!check_channel` then reports, and the
/// route's confirmation names the same channel.
pub proof fn law_http_set_then_check(new_channel_id: u64, check: Seq<char>, message_channel: u64)
    requires
        crate::bot::command_spec(check) == Some(crate::bot::Command::CheckChannel),
    ensures
        crate::bot::message_action_spec(false, check, Some(new_channel_id), message_channel)
            == crate::bot::MessageActionView::Reply("Current channel ID: "@ + decimal(new_channel_id as nat)),
        channel_set_text(new_channel_id) == "Channel ID set to "@ + decimal(new_channel_id as nat),
{
}

} // verus!
