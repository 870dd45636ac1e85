use zora_bot::bot::{
    coin_message, new_coins_outcome, on_message, parse_command, poll_interval, top_gainer_announcement,
    top_gainer_message, top_gainers_outcome, Command, CoinTracker, MessageAction, Outgoing,
    NEW_COINS_INTERVAL_DEFAULT, TOP_GAINERS_INTERVAL_DEFAULT,
};
use zora_bot::models::{Coin, MediaContent, PreviewImage, Transfers};

fn coin(name: &str, symbol: &str, address: &str, count: u32) -> Coin {
    Coin {
        name: name.to_string(),
        description: format!("about {}", name),
        address: address.to_string(),
        symbol: symbol.to_string(),
        total_volume: "100".to_string(),
        volume_24h: "10".to_string(),
        created_at: "2025-01-02T03:04:05Z".to_string(),
        market_cap: "5000".to_string(),
        market_cap_delta_24h: "123.45".to_string(),
        media_content: MediaContent {
            mime_type: "image/png".to_string(),
            original_uri: "ipfs://orig".to_string(),
            preview_image: PreviewImage {
                small: format!("https://img/{}.png", symbol),
                blurhash: "LKO2".to_string(),
            },
        },
        transfers: Transfers { count },
        unique_holders: 7,
    }
}

fn say_text(o: &Outgoing) -> (u64, String) {
    match o {
        Outgoing::Say { channel, text } => (*channel, text.clone()),
        Outgoing::Reply(t) => panic!("expected a post, got reply {:?}", t),
    }
}

#[test]
fn coin_message_layout() {
    let c = coin("Frog", "FRG", "0xabc", 3);
    assert_eq!(
        coin_message(&c, "New"),
        "New Zora Coin!\nName: Frog\nSymbol: FRG\nImage: https://img/FRG.png\nCreated: 2025-01-02T03:04:05Z"
    );
}

#[test]
fn top_gainer_message_layout() {
    let c = coin("Frog", "FRG", "0xabc", 42);
    assert_eq!(
        top_gainer_message(&c),
        "Top Gainer: Frog\nSymbol: FRG\n24h Gain: $123.45\nImage: https://img/FRG.png\nTrades: 42"
    );
}

#[test]
fn commands_are_read_from_trimmed_text() {
    assert_eq!(parse_command("!fetch_new_coins"), Some(Command::FetchNewCoins));
    assert_eq!(parse_command("  !fetch_top_gainers\n"), Some(Command::FetchTopGainers));
    assert_eq!(parse_command("\t!check_channel "), Some(Command::CheckChannel));
    assert_eq!(parse_command("!notify_this_channel"), Some(Command::NotifyThisChannel));
    assert_eq!(parse_command("!check_channel please"), None);
    assert_eq!(parse_command("!CHECK_CHANNEL"), None);
    assert_eq!(parse_command(""), None);
}

#[test]
fn bot_authors_are_ignored() {
    assert!(matches!(on_message(true, "!check_channel", Some(5), 9), MessageAction::Ignore));
}

#[test]
fn non_commands_are_ignored() {
    assert!(matches!(on_message(false, "hello", Some(5), 9), MessageAction::Ignore));
}

#[test]
fn fetch_without_channel_gets_hint() {
    for cmd in ["!fetch_new_coins", "!fetch_top_gainers"] {
        match on_message(false, cmd, None, 9) {
            MessageAction::Reply(t) => {
                assert_eq!(t, "Channel not set. Use !notify_this_channel or the HTTP route to set it.")
            },
            other => panic!("unexpected {:?}", other),
        }
    }
}

#[test]
fn fetch_with_channel_fetches_for_that_channel() {
    assert!(matches!(on_message(false, "!fetch_new_coins", Some(77), 9), MessageAction::FetchNewCoins { channel: 77 }));
    assert!(matches!(on_message(false, " !fetch_top_gainers", Some(77), 9), MessageAction::FetchTopGainers { channel: 77 }));
}

#[test]
fn check_channel_reports_channel() {
    match on_message(false, "!check_channel", Some(1234567890123), 9) {
        MessageAction::Reply(t) => assert_eq!(t, "Current channel ID: 1234567890123"),
        other => panic!("unexpected {:?}", other),
    }
    match on_message(false, "!check_channel", None, 9) {
        MessageAction::Reply(t) => assert_eq!(t, "Channel ID not set"),
        other => panic!("unexpected {:?}", other),
    }
}

#[test]
fn notify_then_check_reports_new_channel() {
    let channel = match on_message(false, "!notify_this_channel", Some(1), 555) {
        MessageAction::SetChannel { channel, reply } => {
            assert_eq!(reply, "Notifications will now be sent to this channel (ID: 555)");
            channel
        },
        other => panic!("unexpected {:?}", other),
    };
    assert_eq!(channel, 555);
    match on_message(false, "!check_channel", Some(channel), 1) {
        MessageAction::Reply(t) => assert_eq!(t, "Current channel ID: 555"),
        other => panic!("unexpected {:?}", other),
    }
}

#[test]
fn new_coins_command_announces_every_coin() {
    let coins = vec![coin("A", "AA", "0x1", 1), coin("B", "BB", "0x2", 2)];
    let out = new_coins_outcome(8, Ok(coins.clone()));
    assert_eq!(out.len(), 2);
    assert_eq!(say_text(&out[0]), (8, coin_message(&coins[0], "New")));
    assert_eq!(say_text(&out[1]), (8, coin_message(&coins[1], "New")));
    assert!(new_coins_outcome(8, Ok(vec![])).is_empty());
}

#[test]
fn new_coins_command_reports_error() {
    let out = new_coins_outcome(8, Err("timeout".to_string()));
    assert_eq!(out.len(), 1);
    match &out[0] {
        Outgoing::Reply(t) => assert_eq!(t, "Error fetching new coins: timeout"),
        other => panic!("unexpected {:?}", other),
    }
}

#[test]
fn top_gainers_command_outcomes() {
    let coins = vec![coin("Top", "TP", "0x1", 9), coin("Second", "SC", "0x2", 1)];
    assert_eq!(say_text(&top_gainers_outcome(3, Ok(coins.clone()))), (3, top_gainer_message(&coins[0])));
    match top_gainers_outcome(3, Ok(vec![])) {
        Outgoing::Reply(t) => assert_eq!(t, "No top gainers found."),
        other => panic!("unexpected {:?}", other),
    }
    match top_gainers_outcome(3, Err("500".to_string())) {
        Outgoing::Reply(t) => assert_eq!(t, "Error fetching top gainers: 500"),
        other => panic!("unexpected {:?}", other),
    }
}

#[test]
fn top_gainer_announcement_takes_first() {
    let coins = vec![coin("Top", "TP", "0x1", 9), coin("Second", "SC", "0x2", 1)];
    assert_eq!(top_gainer_announcement(&coins), Some(top_gainer_message(&coins[0])));
    assert_eq!(top_gainer_announcement(&vec![]), None);
}

#[test]
fn tracker_announces_only_unseen_addresses() {
    let mut t = CoinTracker::new();
    let first = vec![coin("A", "AA", "0x1", 1), coin("B", "BB", "0x2", 2)];
    let ann = t.observe(first.clone());
    assert_eq!(ann, vec![coin_message(&first[0], "New"), coin_message(&first[1], "New")]);
    // Same addresses again: nothing new, even if other fields changed.
    let again = vec![coin("A renamed", "AA", "0x1", 5), coin("B", "BB", "0x2", 2)];
    assert!(t.observe(again.clone()).is_empty());
    let third = vec![coin("C", "CC", "0x3", 1), coin("A", "AA", "0x1", 1), coin("D", "DD", "0x4", 1)];
    let ann = t.observe(third.clone());
    assert_eq!(ann, vec![coin_message(&third[0], "New"), coin_message(&third[2], "New")]);
    assert_eq!(t.last_coins.len(), 3);
    assert_eq!(t.last_coins[1].address, "0x1");
}

#[test]
fn tracker_forgets_coins_missing_from_last_look() {
    let mut t = CoinTracker::new();
    let a = vec![coin("A", "AA", "0x1", 1)];
    t.observe(a.clone());
    t.observe(vec![coin("B", "BB", "0x2", 1)]);
    assert_eq!(t.observe(a.clone()), vec![coin_message(&a[0], "New")]);
}

#[test]
fn poll_interval_setting() {
    assert_eq!(NEW_COINS_INTERVAL_DEFAULT, 60);
    assert_eq!(TOP_GAINERS_INTERVAL_DEFAULT, 300);
    assert_eq!(poll_interval(None, 60), 60);
    assert_eq!(poll_interval(Some("15"), 60), 15);
    assert_eq!(poll_interval(Some("+15"), 60), 15);
    assert_eq!(poll_interval(Some("fifteen"), 300), 300);
    assert_eq!(poll_interval(Some(""), 300), 300);
    assert_eq!(poll_interval(Some("-5"), 300), 300);
}
