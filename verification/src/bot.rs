//! What the bot says and does: its announcement texts, the chat commands it
//! understands, the answers it gives, and which coins it announces as new.

use vstd::prelude::*;
use crate::models::Coin;
use crate::text::{decimal, push_decimal, parse_u64_spec, parse_u64, trim, trimmed};

verus! {

/// The announcement of `coin`, headed by `prefix` (such as `New`).
pub open spec fn coin_message_spec(coin: Coin, prefix: Seq<char>) -> Seq<char> {
    prefix + " Zora Coin!\nName: "@ + coin.name@ + "\nSymbol: "@ + coin.symbol@ + "\nImage: "@
        + coin.media_content.preview_image.small@ + "\nCreated: "@ + coin.created_at@
}

/// Announces `coin` under the heading `prefix`: its name, symbol, preview
/// image and creation time, one per line.
pub fn coin_message(coin: &Coin, prefix: &str) -> (msg: String)
    ensures
        msg@ == coin_message_spec(*coin, prefix@),
{
    let mut msg = prefix.to_owned();
    msg.append(" Zora Coin!\nName: ");
    msg.append(coin.name.as_str());
    msg.append("\nSymbol: ");
    msg.append(coin.symbol.as_str());
    msg.append("\nImage: ");
    msg.append(coin.media_content.preview_image.small.as_str());
    msg.append("\nCreated: ");
    msg.append(coin.created_at.as_str());
    msg
}

/// The announcement of the top gainer `coin`.
pub open spec fn top_gainer_message_spec(coin: Coin) -> Seq<char> {
    "Top Gainer: "@ + coin.name@ + "\nSymbol: "@ + coin.symbol@ + "\n24h Gain: $"@
        + coin.market_cap_delta_24h@ + "\nImage: "@ + coin.media_content.preview_image.small@
        + "\nTrades: "@ + decimal(coin.transfers.count as nat)
}

/// Announces `coin` as the top gainer: its name, symbol, market-cap gain over
/// 24 hours, preview image and number of transfers, one per line.
pub fn top_gainer_message(coin: &Coin) -> (msg: String)
    ensures
        msg@ == top_gainer_message_spec(*coin),
{
    let mut msg = "Top Gainer: ".to_owned();
    msg.append(coin.name.as_str());
    msg.append("\nSymbol: ");
    msg.append(coin.symbol.as_str());
    msg.append("\n24h Gain: $");
    msg.append(coin.market_cap_delta_24h.as_str());
    msg.append("\nImage: ");
    msg.append(coin.media_content.preview_image.small.as_str());
    msg.append("\nTrades: ");
    push_decimal(&mut msg, coin.transfers.count as u64);
    msg
}


/// The chat commands the bot understands.
#[derive(Clone, Copy, Debug, PartialEq, Eq, Structural)]
pub enum Command {
    /// `!fetch_new_coins`: announce the newest coins now.
    FetchNewCoins,
    /// `!fetch_top_gainers`: announce the top gainer now.
    FetchTopGainers,
    /// `!check_channel`: tell which channel gets the announcements.
    CheckChannel,
    /// `!notify_this_channel`: send the announcements to this channel.
    NotifyThisChannel,
}

/// The command that a chat message holds: its text, without leading and
/// trailing white space, must be exactly the command's name.
pub open spec fn command_spec(content: Seq<char>) -> Option<Command> {
    let t = trimmed(content);
    if t == "!fetch_new_coins"@ {
        Some(Command::FetchNewCoins)
    } else if t == "!fetch_top_gainers"@ {
        Some(Command::FetchTopGainers)
    } else if t == "!check_channel"@ {
        Some(Command::CheckChannel)
    } else if t == "!notify_this_channel"@ {
        Some(Command::NotifyThisChannel)
    } else {
        None
    }
}

/// Reads the command that the chat message `content` holds, if any.
pub fn parse_command(content: &str) -> (c: Option<Command>)
    ensures
        c == command_spec(content@),
{
    let t = trim(content).to_owned();
    if t == "!fetch_new_coins".to_owned() {
        Some(Command::FetchNewCoins)
    } else if t == "!fetch_top_gainers".to_owned() {
        Some(Command::FetchTopGainers)
    } else if t == "!check_channel".to_owned() {
        Some(Command::CheckChannel)
    } else if t == "!notify_this_channel".to_owned() {
        Some(Command::NotifyThisChannel)
    } else {
        None
    }
}

/// The answer to `!check_channel` when the announcement channel is `channel`.
pub open spec fn check_channel_reply_spec(channel: Option<u64>) -> Seq<char> {
    match channel {
        Some(id) => "Current channel ID: "@ + decimal(id as nat),
        None => "Channel ID not set"@,
    }
}

/// The answer to `!notify_this_channel` sent from the channel `channel`.
pub open spec fn notify_reply_spec(channel: u64) -> Seq<char> {
    "Notifications will now be sent to this channel (ID: "@ + decimal(channel as nat) + ")"@
}

/// The answer to a fetch command while no announcement channel is set.
pub open spec fn channel_not_set_reply() -> Seq<char> {
    "Channel not set. Use !notify_this_channel or the HTTP route to set it."@
}

/// What the bot does about a chat message.
#[derive(Debug)]
pub enum MessageAction {
    /// Nothing.
    Ignore,
    /// Fetch the newest coins and announce each in `channel`.
    FetchNewCoins { channel: u64 },
    /// Fetch the top gainers and announce the first in `channel`.
    FetchTopGainers { channel: u64 },
    /// Answer the message with this text.
    Reply(String),
    /// Make `channel` the announcement channel and answer with `reply`.
    SetChannel { channel: u64, reply: String },
}

/// A [`MessageAction`] with its texts as character sequences.
pub enum MessageActionView {
    Ignore,
    FetchNewCoins(u64),
    FetchTopGainers(u64),
    Reply(Seq<char>),
    SetChannel(u64, Seq<char>),
}

impl View for MessageAction {
    type V = MessageActionView;

    open spec fn view(&self) -> MessageActionView {
        match self {
            MessageAction::Ignore => MessageActionView::Ignore,
            MessageAction::FetchNewCoins { channel } => MessageActionView::FetchNewCoins(*channel),
            MessageAction::FetchTopGainers { channel } => MessageActionView::FetchTopGainers(*channel),
            MessageAction::Reply(text) => MessageActionView::Reply(text@),
            MessageAction::SetChannel { channel, reply } => MessageActionView::SetChannel(*channel, reply@),
        }
    }
}

/// What the bot does about a message `content` written in the channel
/// `message_channel` while `current_channel` is the announcement channel:
/// messages of bots and messages that hold no command are ignored; the fetch
/// commands need an announcement channel; `!check_channel` tells it;
/// `!notify_this_channel` moves it to the message's channel.
pub open spec fn message_action_spec(
    author_is_bot: bool,
    content: Seq<char>,
    current_channel: Option<u64>,
    message_channel: u64,
) -> MessageActionView {
    if author_is_bot {
        MessageActionView::Ignore
    } else {
        match command_spec(content) {
            None => MessageActionView::Ignore,
            Some(Command::FetchNewCoins) => match current_channel {
                Some(c) => MessageActionView::FetchNewCoins(c),
                None => MessageActionView::Reply(channel_not_set_reply()),
            },
            Some(Command::FetchTopGainers) => match current_channel {
                Some(c) => MessageActionView::FetchTopGainers(c),
                None => MessageActionView::Reply(channel_not_set_reply()),
            },
            Some(Command::CheckChannel) => MessageActionView::Reply(
                check_channel_reply_spec(current_channel),
            ),
            Some(Command::NotifyThisChannel) => MessageActionView::SetChannel(
                message_channel,
                notify_reply_spec(message_channel),
            ),
        }
    }
}

/// Decides what the bot does about a chat message (see [`message_action_spec`]).
pub fn on_message(
    author_is_bot: bool,
    content: &str,
    current_channel: Option<u64>,
    message_channel: u64,
) -> (action: MessageAction)
    ensures
        action@ == message_action_spec(author_is_bot, content@, current_channel, message_channel),
{
    if author_is_bot {
        return MessageAction::Ignore;
    }
    match parse_command(content) {
        None => MessageAction::Ignore,
        Some(Command::FetchNewCoins) => match current_channel {
            Some(c) => MessageAction::FetchNewCoins { channel: c },
            None => MessageAction::Reply(
                "Channel not set. Use !notify_this_channel or the HTTP route to set it.".to_owned(),
            ),
        },
        Some(Command::FetchTopGainers) => match current_channel {
            Some(c) => MessageAction::FetchTopGainers { channel: c },
            None => MessageAction::Reply(
                "Channel not set. Use !notify_this_channel or the HTTP route to set it.".to_owned(),
            ),
        },
        Some(Command::CheckChannel) => {
            let reply = match current_channel {
                Some(id) => {
                    let mut r = "Current channel ID: ".to_owned();
                    push_decimal(&mut r, id);
                    r
                },
                None => "Channel ID not set".to_owned(),
            };
            MessageAction::Reply(reply)
        },
        Some(Command::NotifyThisChannel) => {
            let mut reply = "Notifications will now be sent to this channel (ID: ".to_owned();
            push_decimal(&mut reply, message_channel);
            reply.append(")");
            MessageAction::SetChannel { channel: message_channel, reply }
        },
    }
}


/// A message the bot sends.
#[derive(Debug)]
pub enum Outgoing {
    /// Post `text` in the channel `channel`.
    Say { channel: u64, text: String },
    /// Answer the command's message with this text.
    Reply(String),
}

/// An [`Outgoing`] message with its text as a character sequence.
pub enum OutgoingView {
    Say(u64, Seq<char>),
    Reply(Seq<char>),
}

impl View for Outgoing {
    type V = OutgoingView;

    open spec fn view(&self) -> OutgoingView {
        match self {
            Outgoing::Say { channel, text } => OutgoingView::Say(*channel, text@),
            Outgoing::Reply(text) => OutgoingView::Reply(text@),
        }
    }
}

/// The messages that answer `!fetch_new_coins` with announcement channel
/// `channel`, once the fetch gave `fetched` (coins, or the text of an error).
pub open spec fn new_coins_outcome_spec(channel: u64, fetched: Result<Seq<Coin>, Seq<char>>) -> Seq<
    OutgoingView,
> {
    match fetched {
        Ok(coins) => coins.map_values(|c: Coin| OutgoingView::Say(channel, coin_message_spec(c, "New"@))),
        Err(e) => seq![OutgoingView::Reply("Error fetching new coins: "@ + e)],
    }
}

/// The coins of a fetch result, or the text of its error.
pub open spec fn fetched_view(fetched: Result<Vec<Coin>, String>) -> Result<Seq<Coin>, Seq<char>> {
    match fetched {
        Ok(coins) => Ok(coins@),
        Err(e) => Err(e@),
    }
}

/// Answers `!fetch_new_coins`: every fetched coin is announced as new in the
/// announcement channel, in the order fetched; a failed fetch is reported to
/// the command's author.
pub fn new_coins_outcome(channel: u64, fetched: Result<Vec<Coin>, String>) -> (out: Vec<Outgoing>)
    ensures
        out@.map_values(|o: Outgoing| o@) == new_coins_outcome_spec(channel, fetched_view(fetched)),
{
    let ghost fv = fetched_view(fetched);
    match fetched {
        Ok(coins) => {
            let mut out: Vec<Outgoing> = Vec::new();
            let n = coins.len();
            for i in 0..n
                invariant
                    n == coins@.len(),
                    fv == Ok::<Seq<Coin>, Seq<char>>(coins@),
                    out@.map_values(|o: Outgoing| o@) =~= coins@.take(i as int).map_values(
                        |c: Coin| OutgoingView::Say(channel, coin_message_spec(c, "New"@)),
                    ),
            {
                let text = coin_message(&coins[i], "New");
                let ghost before = out@;
                let o = Outgoing::Say { channel, text };
                assert(o@ == OutgoingView::Say(channel, coin_message_spec(coins@[i as int], "New"@)));
                out.push(o);
                assert(out@ =~= before.push(o));
                assert(out@.map_values(|o: Outgoing| o@) =~= before.map_values(|o: Outgoing| o@).push(o@));
                assert(coins@.take(i as int + 1) =~= coins@.take(i as int).push(coins@[i as int]));
                assert(out@.map_values(|o: Outgoing| o@) =~= coins@.take(i as int + 1).map_values(
                    |c: Coin| OutgoingView::Say(channel, coin_message_spec(c, "New"@)),
                ));
            }
            assert(coins@.take(n as int) =~= coins@);
            out
        },
        Err(e) => {
            let mut text = "Error fetching new coins: ".to_owned();
            text.append(e.as_str());
            let out = vec![Outgoing::Reply(text)];
            assert(out@.map_values(|o: Outgoing| o@) =~= new_coins_outcome_spec(channel, fv));
            out
        },
    }
}

/// The message that answers `!fetch_top_gainers` with announcement channel
/// `channel`, once the fetch gave `fetched`.
pub open spec fn top_gainers_outcome_spec(channel: u64, fetched: Result<Seq<Coin>, Seq<char>>) -> OutgoingView {
    match fetched {
        Ok(coins) => if coins.len() > 0 {
            OutgoingView::Say(channel, top_gainer_message_spec(coins[0]))
        } else {
            OutgoingView::Reply("No top gainers found."@)
        },
        Err(e) => OutgoingView::Reply("Error fetching top gainers: "@ + e),
    }
}

/// Answers `!fetch_top_gainers`: the first fetched coin is announced as the
/// top gainer in the announcement channel; an empty list or a failed fetch is
/// reported to the command's author.
pub fn top_gainers_outcome(channel: u64, fetched: Result<Vec<Coin>, String>) -> (out: Outgoing)
    ensures
        out@ == top_gainers_outcome_spec(channel, fetched_view(fetched)),
{
    match fetched {
        Ok(coins) => {
            if coins.len() > 0 {
                Outgoing::Say { channel, text: top_gainer_message(&coins[0]) }
            } else {
                Outgoing::Reply("No top gainers found.".to_owned())
            }
        },
        Err(e) => {
            let mut text = "Error fetching top gainers: ".to_owned();
            text.append(e.as_str());
            Outgoing::Reply(text)
        },
    }
}

/// The announcement a scheduled look at the top gainers makes: the first of
/// `coins`, if there is one.
pub fn top_gainer_announcement(coins: &Vec<Coin>) -> (msg: Option<String>)
    ensures
        msg is Some <==> coins@.len() > 0,
        msg matches Some(m) ==> m@ == top_gainer_message_spec(coins@[0]),
{
    if coins.len() > 0 {
        Some(top_gainer_message(&coins[0]))
    } else {
        None
    }
}

/// The default number of seconds between two looks at the newest coins.
pub const NEW_COINS_INTERVAL_DEFAULT: u64 = 60;

/// The default number of seconds between two looks at the top gainers.
pub const TOP_GAINERS_INTERVAL_DEFAULT: u64 = 300;

/// The polling interval that the setting `setting` (absent, or its text)
/// asks for: the number it spells, or `default` when it is absent or spells
/// no `u64`.
pub open spec fn poll_interval_spec(setting: Option<Seq<char>>, default: u64) -> u64 {
    match setting {
        Some(s) => match parse_u64_spec(s) {
            Some(n) => n,
            None => default,
        },
        None => default,
    }
}

/// Reads a polling interval in seconds from its setting.
pub fn poll_interval(setting: Option<&str>, default: u64) -> (secs: u64)
    ensures
        secs == poll_interval_spec(
            match setting {
                Some(s) => Some(s@),
                None => None,
            },
            default,
        ),
{
    match setting {
        Some(s) => match parse_u64(s) {
            Some(n) => n,
            None => default,
        },
        None => default,
    }
}


/// Whether some coin of `known` has the address `address`.
pub open spec fn known_address(known: Seq<Coin>, address: Seq<char>) -> bool {
    exists|i: int| 0 <= i < known.len() && #[trigger] known[i].address@ == address
}

/// The coins of `fetched` whose address no coin of `known` has, in the order
/// of `fetched`.
pub open spec fn unseen_coins(fetched: Seq<Coin>, known: Seq<Coin>) -> Seq<Coin>
    decreases fetched.len(),
{
    if fetched.len() == 0 {
        Seq::empty()
    } else {
        let rest = unseen_coins(fetched.drop_last(), known);
        if known_address(known, fetched.last().address@) {
            rest
        } else {
            rest.push(fetched.last())
        }
    }
}

fn address_known(known: &Vec<Coin>, address: &String) -> (b: bool)
    ensures
        b == known_address(known@, address@),
{
    let n = known.len();
    for i in 0..n
        invariant
            n == known@.len(),
            forall|j: int| 0 <= j < i ==> #[trigger] known@[j].address@ != address@,
    {
        if known[i].address == *address {
            assert(known@[i as int].address@ == address@);
            return true;
        }
    }
    false
}

/// Remembers the coins of the last look at the newest coins, so that each
/// look announces only the coins that were not listed the time before.
#[derive(Debug)]
pub struct CoinTracker {
    pub last_coins: Vec<Coin>,
}

impl CoinTracker {
    /// A tracker that has seen no coin yet.
    pub fn new() -> (t: CoinTracker)
        ensures
            t.last_coins@ == Seq::<Coin>::empty(),
    {
        CoinTracker { last_coins: Vec::new() }
    }

    /// Takes the coins of a new look: announces, in their order, those whose
    /// address was not among the coins of the last look, and remembers all of
    /// them for the next one.
    pub fn observe(&mut self, fetched: Vec<Coin>) -> (announcements: Vec<String>)
        ensures
            final(self).last_coins@ == fetched@,
            announcements@.map_values(|m: String| m@) == unseen_coins(fetched@, old(self).last_coins@).map_values(
                |c: Coin| coin_message_spec(c, "New"@),
            ),
    {
        let mut announcements: Vec<String> = Vec::new();
        let n = fetched.len();
        for i in 0..n
            invariant
                n == fetched@.len(),
                self.last_coins@ == old(self).last_coins@,
                announcements@.map_values(|m: String| m@) =~= unseen_coins(
                    fetched@.take(i as int),
                    self.last_coins@,
                ).map_values(|c: Coin| coin_message_spec(c, "New"@)),
        {
            let ghost before = announcements@;
            assert(fetched@.take(i as int + 1).drop_last() =~= fetched@.take(i as int));
            assert(fetched@.take(i as int + 1).last() == fetched@[i as int]);
            if !address_known(&self.last_coins, &fetched[i].address) {
                let m = coin_message(&fetched[i], "New");
                announcements.push(m);
                assert(announcements@ =~= before.push(m));
                assert(announcements@.map_values(|m: String| m@) =~= before.map_values(|m: String| m@).push(m@));
            }
            assert(announcements@.map_values(|m: String| m@) =~= unseen_coins(
                fetched@.take(i as int + 1),
                self.last_coins@,
            ).map_values(|c: Coin| coin_message_spec(c, "New"@)));
        }
        assert(fetched@.take(n as int) =~= fetched@);
        self.last_coins = fetched;
        announcements
    }
}

/// The coins announced as new are exactly the fetched coins whose address was
/// not known: each announced coin was fetched and is unknown, and each fetched
/// coin with an unknown address is announced.
pub proof fn law_unseen_coins_are_exactly_the_new(fetched: Seq<Coin>, known: Seq<Coin>)
    ensures
        forall|c: Coin| #[trigger] unseen_coins(fetched, known).contains(c) <==> (fetched.contains(c)
            && !known_address(known, c.address@)),
    decreases fetched.len(),
{
    if fetched.len() > 0 {
        let init = fetched.drop_last();
        law_unseen_coins_are_exactly_the_new(init, known);
        assert forall|c: Coin| #[trigger] unseen_coins(fetched, known).contains(c) <==> (fetched.contains(
            c,
        ) && !known_address(known, c.address@)) by {
            let rest = unseen_coins(init, known);
            if fetched.contains(c) {
                let k = choose|k: int| 0 <= k < fetched.len() && fetched[k] == c;
                if k < fetched.len() - 1 {
                    assert(init[k] == c);
                }
            }
            if init.contains(c) {
                let k = choose|k: int| 0 <= k < init.len() && init[k] == c;
                assert(fetched[k] == c);
            }
            if !known_address(known, fetched.last().address@) {
                assert(unseen_coins(fetched, known) == rest.push(fetched.last()));
                if rest.push(fetched.last()).contains(c) {
                    let k = choose|k: int| 0 <= k < rest.len() + 1 && rest.push(fetched.last())[k] == c;
                    if k < rest.len() {
                        assert(rest[k] == c);
                    }
                }
                if rest.contains(c) {
                    let k = choose|k: int| 0 <= k < rest.len() && rest[k] == c;
                    assert(rest.push(fetched.last())[k] == c);
                }
                assert(rest.push(fetched.last())[rest.len() as int] == fetched.last());
            }
        }
    }
}

/// A coin is announced as new at most once in a row: looking again at the
/// very coins of the last look announces nothing.
pub proof fn law_no_repeat_announcement(fetched: Seq<Coin>)
    ensures
        unseen_coins(fetched, fetched) == Seq::<Coin>::empty(),
{
    lemma_unseen_of_known(fetched, fetched);
}

proof fn lemma_unseen_of_known(fetched: Seq<Coin>, known: Seq<Coin>)
    requires
        forall|j: int| 0 <= j < fetched.len() ==> known_address(known, #[trigger] fetched[j].address@),
    ensures
        unseen_coins(fetched, known) == Seq::<Coin>::empty(),
    decreases fetched.len(),
{
    if fetched.len() > 0 {
        let init = fetched.drop_last();
        assert forall|j: int| 0 <= j < init.len() implies known_address(known, #[trigger] init[j].address@) by {
            assert(init[j] == fetched[j]);
        }
        lemma_unseen_of_known(init, known);
        assert(known_address(known, fetched[fetched.len() - 1].address@));
    }
}


/// Messages written by bots are never acted upon, whatever they say.
pub proof fn law_bot_messages_ignored(content: Seq<char>, current_channel: Option<u64>, message_channel: u64)
    ensures
        message_action_spec(true, content, current_channel, message_channel) == MessageActionView::Ignore,
{
}

/// White space around a command does not change it: a message means what its
/// trimmed text means.
pub proof fn law_commands_ignore_surrounding_whitespace(content: Seq<char>)
    ensures
        command_spec(trimmed(content)) == command_spec(content),
{
    crate::text::law_trim_idempotent(content);
}

/// The fetch commands need an announcement channel: without one, each is
/// answered by the hint to set it, and nothing is fetched.
pub proof fn law_fetch_needs_channel(content: Seq<char>, message_channel: u64)
    requires
        command_spec(content) == Some(Command::FetchNewCoins) || command_spec(content) == Some(
            Command::FetchTopGainers,
        ),
    ensures
        message_action_spec(false, content, None, message_channel) == MessageActionView::Reply(
            channel_not_set_reply(),
        ),
{
}

/// `!notify_this_channel` makes the message's channel the announcement
/// channel, and from then on `!check_channel` reports that channel and the
/// fetch commands announce there.
pub proof fn law_notify_then_check(
    notify: Seq<char>,
    check: Seq<char>,
    fetch: Seq<char>,
    current_channel: Option<u64>,
    message_channel: u64,
    later_channel: u64,
)
    requires
        command_spec(notify) == Some(Command::NotifyThisChannel),
        command_spec(check) == Some(Command::CheckChannel),
        command_spec(fetch) == Some(Command::FetchNewCoins),
    ensures
        message_action_spec(false, notify, current_channel, message_channel)
            == MessageActionView::SetChannel(message_channel, notify_reply_spec(message_channel)),
        message_action_spec(false, check, Some(message_channel), later_channel)
            == MessageActionView::Reply("Current channel ID: "@ + decimal(message_channel as nat)),
        message_action_spec(false, fetch, Some(message_channel), later_channel)
            == MessageActionView::FetchNewCoins(message_channel),
{
}


/// The four command words are told apart: a message whose trimmed text is one
/// of `!fetch_new_coins`, `!fetch_top_gainers`, `!check_channel`,
/// `!notify_this_channel` holds that command, and any other text holds none.
pub proof fn law_command_words(content: Seq<char>)
    ensures
        trimmed(content) == "!fetch_new_coins"@ ==> command_spec(content) == Some(Command::FetchNewCoins),
        trimmed(content) == "!fetch_top_gainers"@ ==> command_spec(content) == Some(
            Command::FetchTopGainers,
        ),
        trimmed(content) == "!check_channel"@ ==> command_spec(content) == Some(Command::CheckChannel),
        trimmed(content) == "!notify_this_channel"@ ==> command_spec(content) == Some(
            Command::NotifyThisChannel,
        ),
        (trimmed(content) != "!fetch_new_coins"@ && trimmed(content) != "!fetch_top_gainers"@
            && trimmed(content) != "!check_channel"@ && trimmed(content) != "!notify_this_channel"@)
            ==> command_spec(content) is None,
{
    reveal_strlit("!fetch_new_coins");
    reveal_strlit("!fetch_top_gainers");
    reveal_strlit("!check_channel");
    reveal_strlit("!notify_this_channel");
    assert("!fetch_new_coins"@.len() == 16);
    assert("!fetch_top_gainers"@.len() == 18);
    assert("!check_channel"@.len() == 14);
    assert("!notify_this_channel"@.len() == 20);
    assert("!fetch_new_coins"@ != "!fetch_top_gainers"@);
    assert("!fetch_new_coins"@ != "!check_channel"@);
    assert("!fetch_top_gainers"@ != "!check_channel"@);
    assert("!fetch_new_coins"@ != "!notify_this_channel"@);
    assert("!fetch_top_gainers"@ != "!notify_this_channel"@);
    assert("!check_channel"@ != "!notify_this_channel"@);
}

/// `!fetch_top_gainers` from a person fetches the top gainers for the
/// announcement channel, whichever channel the message was written in; with
/// no announcement channel it only gets the hint to set one.
pub proof fn law_top_gainers_command(content: Seq<char>, channel: u64, message_channel: u64)
    requires
        trimmed(content) == "!fetch_top_gainers"@,
    ensures
        message_action_spec(false, content, Some(channel), message_channel)
            == MessageActionView::FetchTopGainers(channel),
        message_action_spec(false, content, None, message_channel) == MessageActionView::Reply(
            "Channel not set. Use !notify_this_channel or the HTTP route to set it."@,
        ),
{
    law_command_words(content);
}

/// `!fetch_new_coins` from a person fetches the newest coins for the
/// announcement channel, whichever channel the message was written in; with
/// no announcement channel it only gets the hint to set one.
pub proof fn law_new_coins_command(content: Seq<char>, channel: u64, message_channel: u64)
    requires
        trimmed(content) == "!fetch_new_coins"@,
    ensures
        message_action_spec(false, content, Some(channel), message_channel)
            == MessageActionView::FetchNewCoins(channel),
        message_action_spec(false, content, None, message_channel) == MessageActionView::Reply(
            "Channel not set. Use !notify_this_channel or the HTTP route to set it."@,
        ),
{
    law_command_words(content);
}

/// `!check_channel` from a person reports the announcement channel in decimal,
/// or that none is set; it changes nothing.
pub proof fn law_check_channel_command(content: Seq<char>, channel: u64, message_channel: u64)
    requires
        trimmed(content) == "!check_channel"@,
    ensures
        message_action_spec(false, content, Some(channel), message_channel) == MessageActionView::Reply(
            "Current channel ID: "@ + decimal(channel as nat),
        ),
        message_action_spec(false, content, None, message_channel) == MessageActionView::Reply(
            "Channel ID not set"@,
        ),
{
    law_command_words(content);
}

/// `!notify_this_channel` from a person makes the channel it was written in
/// the announcement channel, whatever the announcement channel was, and
/// confirms it with that channel's id.
pub proof fn law_notify_command(content: Seq<char>, current_channel: Option<u64>, message_channel: u64)
    requires
        trimmed(content) == "!notify_this_channel"@,
    ensures
        message_action_spec(false, content, current_channel, message_channel) == MessageActionView::SetChannel(
            message_channel,
            "Notifications will now be sent to this channel (ID: "@ + decimal(message_channel as nat)
                + ")"@,
        ),
{
    law_command_words(content);
}

/// A message that holds no command is ignored.
pub proof fn law_other_messages_ignored(
    author_is_bot: bool,
    content: Seq<char>,
    current_channel: Option<u64>,
    message_channel: u64,
)
    requires
        command_spec(content) is None,
    ensures
        message_action_spec(author_is_bot, content, current_channel, message_channel)
            == MessageActionView::Ignore,
{
}

/// `!fetch_new_coins` announces every fetched coin, one message per coin in the
/// order fetched, each the `New` announcement of its coin posted in the
/// announcement channel; a failed fetch yields the one reply that reports it.
pub proof fn law_new_coins_outcome_announces_all(channel: u64, fetched: Result<Seq<Coin>, Seq<char>>)
    ensures
        fetched matches Ok(coins) ==> {
            &&& new_coins_outcome_spec(channel, fetched).len() == coins.len()
            &&& forall|i: int| 0 <= i < coins.len() ==> #[trigger] new_coins_outcome_spec(channel, fetched)[i]
                == OutgoingView::Say(channel, coin_message_spec(coins[i], "New"@))
        },
        fetched matches Err(e) ==> new_coins_outcome_spec(channel, fetched) == seq![
            OutgoingView::Reply("Error fetching new coins: "@ + e),
        ],
{
}

/// `!fetch_top_gainers` announces the first coin of a non-empty fetched list
/// (the top gainer) in the announcement channel, just as the scheduled look
/// does; an empty list or a failed fetch is reported by a reply.
pub proof fn law_top_gainer_is_first_coin(channel: u64, fetched: Result<Seq<Coin>, Seq<char>>)
    ensures
        fetched matches Ok(coins) ==> (coins.len() > 0 ==> top_gainers_outcome_spec(channel, fetched)
            == OutgoingView::Say(channel, top_gainer_message_spec(coins[0]))),
        fetched matches Ok(coins) ==> (coins.len() == 0 ==> top_gainers_outcome_spec(channel, fetched)
            == OutgoingView::Reply("No top gainers found."@)),
        fetched matches Err(e) ==> top_gainers_outcome_spec(channel, fetched) == OutgoingView::Reply(
            "Error fetching top gainers: "@ + e,
        ),
{
}

/// A setting that spells a number sets the interval to that number, whatever
/// the default; the default is used exactly when the setting is absent or
/// spells no `u64`.
pub proof fn law_poll_interval_uses_setting(n: u64, default: u64, setting: Seq<char>)
    ensures
        poll_interval_spec(Some(decimal(n as nat)), default) == n,
        parse_u64_spec(setting) matches Some(m) ==> poll_interval_spec(Some(setting), default) == m,
        parse_u64_spec(setting) is None ==> poll_interval_spec(Some(setting), default) == default,
        poll_interval_spec(None, default) == default,
{
    crate::text::law_parse_decimal_roundtrip(n);
}

/// The first look at the newest coins announces every coin it fetched, in order.
pub proof fn law_first_look_announces_all(fetched: Seq<Coin>)
    ensures
        unseen_coins(fetched, Seq::<Coin>::empty()) == fetched,
    decreases fetched.len(),
{
    if fetched.len() > 0 {
        law_first_look_announces_all(fetched.drop_last());
        assert(fetched.drop_last().push(fetched.last()) =~= fetched);
    } else {
        assert(fetched =~= Seq::<Coin>::empty());
    }
}


/// Looking at two batches of coins one after the other in a single fetch
/// announces what each batch announces, in the same order: the announcements
/// keep the order of the fetched list and judge each coin on its own.
pub proof fn law_unseen_coins_concat(first: Seq<Coin>, second: Seq<Coin>, known: Seq<Coin>)
    ensures
        unseen_coins(first + second, known) == unseen_coins(first, known) + unseen_coins(second, known),
    decreases second.len(),
{
    if second.len() == 0 {
        assert(first + second =~= first);
        assert(unseen_coins(first, known) + unseen_coins(second, known) =~= unseen_coins(first, known));
    } else {
        let init = second.drop_last();
        law_unseen_coins_concat(first, init, known);
        assert((first + second).drop_last() =~= first + init);
        assert((first + second).last() == second.last());
        let c = second.last();
        if known_address(known, c.address@) {
        } else {
            assert(unseen_coins(first, known) + unseen_coins(init, known).push(c) =~= (unseen_coins(
                first,
                known,
            ) + unseen_coins(init, known)).push(c));
        }
    }
}

/// A single fetched coin is announced exactly when its address is not among
/// the known coins.
pub proof fn law_unseen_single_coin(c: Coin, known: Seq<Coin>)
    ensures
        unseen_coins(seq![c], known) == (if known_address(known, c.address@) {
            Seq::<Coin>::empty()
        } else {
            seq![c]
        }),
{
    assert(seq![c].drop_last() =~= Seq::<Coin>::empty());
    assert(seq![c].last() == c);
    assert(Seq::<Coin>::empty().push(c) =~= seq![c]);
    assert(unseen_coins(Seq::<Coin>::empty(), known) == Seq::<Coin>::empty());
    assert(unseen_coins(seq![c], known) == (if known_address(known, c.address@) {
        unseen_coins(seq![c].drop_last(), known)
    } else {
        unseen_coins(seq![c].drop_last(), known).push(c)
    }));
}


/// Lines of text joined by line feeds.
pub open spec fn join_lines(lines: Seq<Seq<char>>) -> Seq<char>
    decreases lines.len(),
{
    if lines.len() == 0 {
        Seq::empty()
    } else if lines.len() == 1 {
        lines[0]
    } else {
        join_lines(lines.drop_last()) + seq!['\n'] + lines.last()
    }
}

/// A coin announcement has five lines: the heading `<prefix> Zora Coin!`, then
/// the coin's name, symbol, preview image and creation time, each behind its
/// label.
pub proof fn law_coin_message_lines(coin: Coin, prefix: Seq<char>)
    ensures
        coin_message_spec(coin, prefix) == join_lines(
            seq![
                prefix + " Zora Coin!"@,
                "Name: "@ + coin.name@,
                "Symbol: "@ + coin.symbol@,
                "Image: "@ + coin.media_content.preview_image.small@,
                "Created: "@ + coin.created_at@,
            ],
        ),
{
    reveal_strlit(" Zora Coin!\nName: ");
    reveal_strlit("\nSymbol: ");
    reveal_strlit("\nImage: ");
    reveal_strlit("\nCreated: ");
    reveal_strlit(" Zora Coin!");
    reveal_strlit("Name: ");
    reveal_strlit("Symbol: ");
    reveal_strlit("Image: ");
    reveal_strlit("Created: ");
    let lines = seq![
        prefix + " Zora Coin!"@,
        "Name: "@ + coin.name@,
        "Symbol: "@ + coin.symbol@,
        "Image: "@ + coin.media_content.preview_image.small@,
        "Created: "@ + coin.created_at@,
    ];
    reveal_with_fuel(join_lines, 6);
    assert(lines.drop_last().drop_last().drop_last().drop_last() =~= seq![lines[0]]);
    assert(lines.drop_last().drop_last().drop_last() =~= seq![lines[0], lines[1]]);
    assert(lines.drop_last().drop_last() =~= seq![lines[0], lines[1], lines[2]]);
    assert(lines.drop_last() =~= seq![lines[0], lines[1], lines[2], lines[3]]);
    assert(coin_message_spec(coin, prefix) =~= join_lines(lines));
}

/// A top-gainer announcement has five lines: the coin's name, symbol, gain in
/// market cap over 24 hours in dollars, preview image and number of
/// transfers in decimal, each behind its label.
pub proof fn law_top_gainer_message_lines(coin: Coin)
    ensures
        top_gainer_message_spec(coin) == join_lines(
            seq![
                "Top Gainer: "@ + coin.name@,
                "Symbol: "@ + coin.symbol@,
                "24h Gain: $"@ + coin.market_cap_delta_24h@,
                "Image: "@ + coin.media_content.preview_image.small@,
                "Trades: "@ + decimal(coin.transfers.count as nat),
            ],
        ),
{
    reveal_strlit("\nSymbol: ");
    reveal_strlit("\n24h Gain: $");
    reveal_strlit("\nImage: ");
    reveal_strlit("\nTrades: ");
    reveal_strlit("Symbol: ");
    reveal_strlit("24h Gain: $");
    reveal_strlit("Image: ");
    reveal_strlit("Trades: ");
    let lines = seq![
        "Top Gainer: "@ + coin.name@,
        "Symbol: "@ + coin.symbol@,
        "24h Gain: $"@ + coin.market_cap_delta_24h@,
        "Image: "@ + coin.media_content.preview_image.small@,
        "Trades: "@ + decimal(coin.transfers.count as nat),
    ];
    reveal_with_fuel(join_lines, 6);
    assert(lines.drop_last().drop_last().drop_last().drop_last() =~= seq![lines[0]]);
    assert(lines.drop_last().drop_last().drop_last() =~= seq![lines[0], lines[1]]);
    assert(lines.drop_last().drop_last() =~= seq![lines[0], lines[1], lines[2]]);
    assert(lines.drop_last() =~= seq![lines[0], lines[1], lines[2], lines[3]]);
    assert(top_gainer_message_spec(coin) =~= join_lines(lines));
}

} // verus!
