use zora_bot::api::{
    backoff_step, coins_from_response, create_coin_endpoint, create_token_request, explore_url,
    token_creation_result, BackoffStep, TokenResponse,
};
use zora_bot::ethereum::{deploy_arguments, CoinParams};
use zora_bot::models::{ApiResponse, Coin, Edge, ExploreList, MediaContent, PageInfo, PreviewImage, Transfers};
use zora_bot::web::channel_set_reply;

fn coin(address: &str) -> Coin {
    Coin {
        name: format!("coin {}", address),
        description: String::new(),
        address: address.to_string(),
        symbol: "SYM".to_string(),
        total_volume: "0".to_string(),
        volume_24h: "0".to_string(),
        created_at: "today".to_string(),
        market_cap: "0".to_string(),
        market_cap_delta_24h: "0".to_string(),
        media_content: MediaContent {
            mime_type: String::new(),
            original_uri: String::new(),
            preview_image: PreviewImage { small: String::new(), blurhash: String::new() },
        },
        transfers: Transfers { count: 0 },
        unique_holders: 0,
    }
}

#[test]
fn explore_urls() {
    assert_eq!(explore_url("NEW"), "https://api-sdk.zora.engineering/explore?listType=NEW&count=10");
    assert_eq!(
        explore_url("TOP_GAINERS"),
        "https://api-sdk.zora.engineering/explore?listType=TOP_GAINERS&count=10"
    );
}

#[test]
fn coins_come_in_answer_order() {
    let response = ApiResponse {
        explore_list: ExploreList {
            edges: vec![
                Edge { node: coin("0x1"), cursor: "c1".to_string() },
                Edge { node: coin("0x2"), cursor: "c2".to_string() },
                Edge { node: coin("0x3"), cursor: "c3".to_string() },
            ],
            page_info: PageInfo { end_cursor: "c3".to_string(), has_next_page: true },
        },
    };
    let coins = coins_from_response(response);
    let addresses: Vec<&str> = coins.iter().map(|c| c.address.as_str()).collect();
    assert_eq!(addresses, vec!["0x1", "0x2", "0x3"]);
    let empty = ApiResponse {
        explore_list: ExploreList {
            edges: vec![],
            page_info: PageInfo { end_cursor: String::new(), has_next_page: false },
        },
    };
    assert!(coins_from_response(empty).is_empty());
}

#[test]
fn backoff_doubles_then_gives_up() {
    let mut retries = 0;
    let mut delays = Vec::new();
    loop {
        match backoff_step(retries, 3, false) {
            BackoffStep::RetryAfter { delay_secs, retries: next } => {
                assert_eq!(next, retries + 1);
                delays.push(delay_secs);
                retries = next;
            },
            BackoffStep::GiveUp => break,
            BackoffStep::Finished => panic!("a failed fetch cannot finish"),
        }
    }
    assert_eq!(delays, vec![1, 2, 4]);
    assert!(matches!(backoff_step(0, 3, true), BackoffStep::Finished));
    assert!(matches!(backoff_step(3, 3, true), BackoffStep::Finished));
    assert!(matches!(backoff_step(0, 0, false), BackoffStep::GiveUp));
    assert!(matches!(
        backoff_step(63, 64, false),
        BackoffStep::RetryAfter { delay_secs: 9223372036854775808, retries: 64 }
    ));
}

#[test]
fn token_request_without_key() {
    assert_eq!(create_token_request(None, "n", "s", "m").unwrap_err(), "ZORA_API_KEY not set");
}

#[test]
fn token_request_with_key() {
    let req = create_token_request(Some("SECRET"), "My \"Coin\"", "MC", "line1\nline2\\ \u{1}").unwrap();
    assert_eq!(create_coin_endpoint(), "https://api.zora.co/coins/sdk/create-coin");
    assert_eq!(req.url, "https://api.zora.co/coins/sdk/create-coin");
    assert_eq!(req.authorization, "Bearer SECRET");
    assert_eq!(
        req.body,
        "{\"metadata\":\"line1\\nline2\\\\ \\u0001\",\"name\":\"My \\\"Coin\\\"\",\"symbol\":\"MC\"}"
    );
    let parsed: serde_json::Value = serde_json::from_str(&req.body).unwrap();
    assert_eq!(parsed["name"], "My \"Coin\"");
    assert_eq!(parsed["metadata"], "line1\nline2\\ \u{1}");
    assert_eq!(parsed["symbol"], "MC");
}

#[test]
fn token_results() {
    assert_eq!(
        token_creation_result(TokenResponse::SendFailed("dns".to_string())),
        Err("Request failed: dns".to_string())
    );
    assert_eq!(token_creation_result(TokenResponse::Success(Ok("{}".to_string()))), Ok("{}".to_string()));
    assert_eq!(
        token_creation_result(TokenResponse::Success(Err("eof".to_string()))),
        Err("Failed to read response: eof".to_string())
    );
    assert_eq!(
        token_creation_result(TokenResponse::Failure(Some("bad key".to_string()))),
        Err("API error: bad key".to_string())
    );
    assert_eq!(
        token_creation_result(TokenResponse::Failure(None)),
        Err("API error: Unknown error".to_string())
    );
}

#[test]
fn channel_set_reply_is_json_string() {
    assert_eq!(channel_set_reply(987654321), "\"Channel ID set to 987654321\"");
    assert_eq!(channel_set_reply(987654321), serde_json::to_string("Channel ID set to 987654321").unwrap());
}

#[test]
fn deploy_arguments_default_referrer() {
    let params = CoinParams {
        name: "N".to_string(),
        symbol: "S".to_string(),
        uri: "ipfs://u".to_string(),
        payout_recipient: [7u8; 20],
        platform_referrer: None,
        initial_purchase_wei: [1, 0, 0, 0],
    };
    let args = deploy_arguments(params.clone());
    assert_eq!(args.platform_referrer, [0u8; 20]);
    assert_eq!(args.payout_recipient, [7u8; 20]);
    assert_eq!(args.initial_purchase_wei, [1, 0, 0, 0]);
    assert_eq!((args.name.as_str(), args.symbol.as_str(), args.uri.as_str()), ("N", "S", "ipfs://u"));
    let with_referrer = CoinParams { platform_referrer: Some([9u8; 20]), ..params };
    assert_eq!(deploy_arguments(with_referrer).platform_referrer, [9u8; 20]);
}
