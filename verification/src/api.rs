//! Requests to the Zora APIs and the decisions around them: the explore URL,
//! the coins of an explore answer, the retry schedule, and the token-creation
//! request and its outcome.

use vstd::prelude::*;
use vstd::arithmetic::power2::pow2;
use crate::models::{ApiResponse, Coin, Edge};
use crate::json::{json_string, json_string_literal, lemma_json_plain_unescaped};

verus! {

/// The explore URL that lists ten coins of the list `list_type`.
pub open spec fn explore_url_spec(list_type: Seq<char>) -> Seq<char> {
    "https://api-sdk.zora.engineering/explore?listType="@ + list_type
        + "&count=10"@
}

/// The explore URL that lists ten coins of the list `list_type`
/// (`NEW`, `TOP_GAINERS`, ...).
pub fn explore_url(list_type: &str) -> (url: String)
    ensures
        url@ == explore_url_spec(list_type@),
{
    let mut url = "https://api-sdk.zora.engineering/explore?listType=".to_owned();
    url.append(list_type);
    url.append("&count=10");
    url
}

/// The list type stands in the explore URL as it is, at one fixed place: the
/// URL for `list_type` is the URL for the empty list type with `list_type`
/// inserted after its first 50 characters (`...explore?listType=`), and the
/// URL asks for ten coins.
pub proof fn law_explore_url_inserts_list_type(list_type: Seq<char>)
    ensures
        explore_url_spec(list_type) == explore_url_spec(Seq::empty()).take(50) + list_type
            + explore_url_spec(Seq::empty()).skip(50),
        explore_url_spec(list_type).skip(50 + list_type.len() as int) == "&count=10"@,
{
    reveal_strlit("https://api-sdk.zora.engineering/explore?listType=");
    let base = "https://api-sdk.zora.engineering/explore?listType="@;
    assert(base.len() == 50);
    assert(explore_url_spec(Seq::empty()).take(50) =~= base);
    assert(explore_url_spec(Seq::empty()).skip(50) =~= "&count=10"@);
    assert(explore_url_spec(list_type) =~= base + list_type + "&count=10"@);
    assert(explore_url_spec(list_type).skip(50 + list_type.len() as int) =~= "&count=10"@);
}

/// The coins of an explore answer, in the order the answer lists them.
pub fn coins_from_response(response: ApiResponse) -> (coins: Vec<Coin>)
    ensures
        coins@ == response.explore_list.edges@.map_values(|e: Edge| e.node),
{
    let edges = response.explore_list.edges;
    let ghost all = edges@;
    let mut coins: Vec<Coin> = Vec::new();
    for edge in it: edges
        invariant
            it.seq() == all,
            coins@ == all.take(it.index() as int).map_values(|e: Edge| e.node),
    {
        assert(all.take(it.index() as int + 1) =~= all.take(it.index() as int).push(edge));
        coins.push(edge.node);
        assert(coins@ =~= all.take(it.index() as int + 1).map_values(|e: Edge| e.node));
    }
    assert(all.take(all.len() as int) =~= all);
    coins
}


/// What to do after one attempt to fetch a list of coins.
#[derive(Debug)]
pub enum BackoffStep {
    /// The fetch succeeded: hand its coins to the caller.
    Finished,
    /// The fetch failed and retries are left: wait `delay_secs` seconds,
    /// then try again with `retries` retries used.
    RetryAfter { delay_secs: u64, retries: u32 },
    /// The fetch failed and no retry is left: hand its error to the caller.
    GiveUp,
}

/// The retry schedule with exponential backoff: after the failed attempt that
/// follows `retries` retries, wait `2^retries` seconds while fewer than
/// `max_retries` retries were used.
pub open spec fn backoff_spec(retries: u32, max_retries: u32, fetch_succeeded: bool) -> BackoffStep {
    if fetch_succeeded {
        BackoffStep::Finished
    } else if retries < max_retries {
        BackoffStep::RetryAfter { delay_secs: pow2(retries as nat) as u64, retries: (retries + 1) as u32 }
    } else {
        BackoffStep::GiveUp
    }
}

/// Decides what follows an attempt to fetch coins, `retries` retries into a
/// fetch allowed `max_retries` retries. A delay of `2^retries` seconds must fit
/// in a `u64`, hence `retries < 64` whenever a retry is due.
pub fn backoff_step(retries: u32, max_retries: u32, fetch_succeeded: bool) -> (step: BackoffStep)
    requires
        !fetch_succeeded && retries < max_retries ==> retries < 64,
    ensures
        step == backoff_spec(retries, max_retries, fetch_succeeded),
{
    if fetch_succeeded {
        BackoffStep::Finished
    } else if retries < max_retries {
        let shift: u64 = retries as u64;
        proof {
            vstd::bits::lemma_u64_pow2_no_overflow(shift as nat);
            vstd::bits::lemma_u64_shl_is_mul(1, shift);
        }
        BackoffStep::RetryAfter { delay_secs: 1u64 << shift, retries: retries + 1 }
    } else {
        BackoffStep::GiveUp
    }
}

/// The waits of a fetch whose every attempt fails, from `retries` retries
/// used on, as repeated steps of [`backoff_spec`] produce them.
pub open spec fn failing_waits(retries: u32, max_retries: u32) -> Seq<u64>
    decreases max_retries - retries,
{
    match backoff_spec(retries, max_retries, false) {
        BackoffStep::RetryAfter { delay_secs, retries: next } => if next > retries {
            seq![delay_secs] + failing_waits(next, max_retries)
        } else {
            Seq::empty()
        },
        _ => Seq::empty(),
    }
}

/// Exponential backoff: when every attempt fails, a fetch that starts with
/// `retries` retries used retries exactly `max_retries - retries` more times,
/// the k-th wait lasting `2^(retries + k)` seconds (1, 2, 4, ... from the
/// start), and then gives up; so a fetch makes at most `max_retries + 1`
/// attempts. An attempt that succeeds always ends the fetch.
pub proof fn law_backoff_schedule(retries: u32, max_retries: u32)
    requires
        retries <= max_retries,
        max_retries <= 64,
    ensures
        failing_waits(retries, max_retries).len() == max_retries - retries,
        forall|k: int| 0 <= k < max_retries - retries ==>
            #[trigger] failing_waits(retries, max_retries)[k] == pow2((retries + k) as nat),
        backoff_spec(max_retries, max_retries, false) == BackoffStep::GiveUp,
        forall|r: u32| #[trigger] backoff_spec(r, max_retries, true) == BackoffStep::Finished,
    decreases max_retries - retries,
{
    if retries < max_retries {
        law_backoff_schedule((retries + 1) as u32, max_retries);
        vstd::bits::lemma_u64_pow2_no_overflow(retries as nat);
        let tail = failing_waits((retries + 1) as u32, max_retries);
        assert forall|k: int| 0 <= k < max_retries - retries implies
            #[trigger] failing_waits(retries, max_retries)[k] == pow2((retries + k) as nat) by {
            if k > 0 {
                assert(failing_waits(retries, max_retries)[k] == tail[k - 1]);
            }
        }
    }
}


/// The endpoint of the Zora API that creates a coin.
pub fn create_coin_endpoint() -> (url: &'static str)
    ensures
        url@ == "https://api.zora.co/coins/sdk/create-coin"@,
{
    "https://api.zora.co/coins/sdk/create-coin"
}

/// The JSON body that asks for a coin: an object with the keys `metadata`,
/// `name` and `symbol`, in the sorted order in which serde_json's default map
/// writes them, each bound to its value as a JSON string.
pub open spec fn token_payload(name: Seq<char>, symbol: Seq<char>, metadata: Seq<char>) -> Seq<char> {
    "{\"metadata\":"@ + json_string(metadata) + ",\"name\":"@ + json_string(name)
        + ",\"symbol\":"@ + json_string(symbol) + "}"@
}

/// A request that creates a coin: where it goes, its `Authorization` header
/// and its JSON body.
#[derive(Debug)]
pub struct TokenRequest {
    pub url: String,
    pub authorization: String,
    pub body: String,
}

/// Builds the request that creates a coin with `name`, `symbol` and
/// `metadata`, authorized by `api_key` as a bearer token; without an API key
/// there is no request, only the error `ZORA_API_KEY not set`.
pub fn create_token_request(api_key: Option<&str>, name: &str, symbol: &str, metadata: &str) -> (r:
    Result<TokenRequest, String>)
    ensures
        r is Err <==> api_key is None,
        r matches Err(e) ==> e@ == "ZORA_API_KEY not set"@,
        r matches Ok(req) ==> {
            &&& req.url@ == "https://api.zora.co/coins/sdk/create-coin"@
            &&& req.authorization@ == "Bearer "@ + api_key->0@
            &&& req.body@ == token_payload(name@, symbol@, metadata@)
        },
{
    match api_key {
        None => Err("ZORA_API_KEY not set".to_owned()),
        Some(key) => {
            let mut authorization = "Bearer ".to_owned();
            authorization.append(key);
            let mut body = "{\"metadata\":".to_owned();
            let quoted_metadata = json_string_literal(metadata);
            body.append(quoted_metadata.as_str());
            body.append(",\"name\":");
            let quoted_name = json_string_literal(name);
            body.append(quoted_name.as_str());
            body.append(",\"symbol\":");
            let quoted_symbol = json_string_literal(symbol);
            body.append(quoted_symbol.as_str());
            body.append("}");
            Ok(TokenRequest { url: create_coin_endpoint().to_owned(), authorization, body })
        },
    }
}

/// How a request to create a coin went, as far as the bot looks at it.
#[derive(Debug)]
pub enum TokenResponse {
    /// The request could not be sent; the text of the error.
    SendFailed(String),
    /// The API answered with a success status; its body, or the text of the
    /// error met while reading it.
    Success(Result<String, String>),
    /// The API answered with another status; its body, if it could be read.
    Failure(Option<String>),
}

/// The texts inside a result of texts.
pub open spec fn text_result(r: Result<String, String>) -> Result<Seq<char>, Seq<char>> {
    match r {
        Ok(t) => Ok(t@),
        Err(e) => Err(e@),
    }
}

/// What creating a coin yields for each way the request went.
pub open spec fn token_creation_spec(response: TokenResponse) -> Result<Seq<char>, Seq<char>> {
    match response {
        TokenResponse::SendFailed(e) => Err("Request failed: "@ + e@),
        TokenResponse::Success(Ok(body)) => Ok(body@),
        TokenResponse::Success(Err(e)) => Err("Failed to read response: "@ + e@),
        TokenResponse::Failure(Some(body)) => Err("API error: "@ + body@),
        TokenResponse::Failure(None) => Err("API error: Unknown error"@),
    }
}

/// What creating a coin yields for each way the request went: the body of a
/// successful answer, or an error message.
pub fn token_creation_result(response: TokenResponse) -> (r: Result<String, String>)
    ensures
        text_result(r) == token_creation_spec(response),
{
    match response {
        TokenResponse::SendFailed(e) => {
            let mut m = "Request failed: ".to_owned();
            m.append(e.as_str());
            Err(m)
        },
        TokenResponse::Success(Ok(body)) => Ok(body),
        TokenResponse::Success(Err(e)) => {
            let mut m = "Failed to read response: ".to_owned();
            m.append(e.as_str());
            Err(m)
        },
        TokenResponse::Failure(Some(body)) => {
            let mut m = "API error: ".to_owned();
            m.append(body.as_str());
            Err(m)
        },
        TokenResponse::Failure(None) => Err("API error: Unknown error".to_owned()),
    }
}


/// One member of a JSON object: the key as a JSON string, a colon, and the
/// value as a JSON string.
pub open spec fn json_member(key: Seq<char>, value: Seq<char>) -> Seq<char> {
    json_string(key) + seq![':'] + json_string(value)
}

/// The token-creation body is the JSON object that binds the key `metadata`
/// to the metadata argument, `name` to the name argument and `symbol` to the
/// symbol argument, each value written as the JSON string of that argument
/// whatever the arguments are.
pub proof fn law_token_payload_binds_fields(name: Seq<char>, symbol: Seq<char>, metadata: Seq<char>)
    ensures
        token_payload(name, symbol, metadata) == seq!['{'] + json_member("metadata"@, metadata) + seq![
            ',',
        ] + json_member("name"@, name) + seq![','] + json_member("symbol"@, symbol) + seq!['}'],
{
    reveal_strlit("{\"metadata\":");
    reveal_strlit(",\"name\":");
    reveal_strlit(",\"symbol\":");
    reveal_strlit("}");
    reveal_strlit("metadata");
    reveal_strlit("name");
    reveal_strlit("symbol");
    lemma_json_plain_unescaped("metadata"@);
    lemma_json_plain_unescaped("name"@);
    lemma_json_plain_unescaped("symbol"@);
    assert(token_payload(name, symbol, metadata) =~= seq!['{'] + json_member("metadata"@, metadata)
        + seq![','] + json_member("name"@, name) + seq![','] + json_member("symbol"@, symbol) + seq![
        '}',
    ]);
}

/// Creating a coin succeeds exactly when the API answered with a success
/// status and its body could be read, and then yields that body unchanged;
/// every other outcome is an error whose message carries the error's text or
/// the API's answer.
pub proof fn law_token_result(response: TokenResponse)
    ensures
        token_creation_spec(response) is Ok <==> response matches TokenResponse::Success(Ok(_)),
        response matches TokenResponse::Success(Ok(body)) ==> token_creation_spec(response) == Ok::<
            Seq<char>,
            Seq<char>,
        >(body@),
        response matches TokenResponse::SendFailed(e) ==> token_creation_spec(response) == Err::<
            Seq<char>,
            Seq<char>,
        >("Request failed: "@ + e@),
        response matches TokenResponse::Success(Err(e)) ==> token_creation_spec(response) == Err::<
            Seq<char>,
            Seq<char>,
        >("Failed to read response: "@ + e@),
        response matches TokenResponse::Failure(Some(body)) ==> token_creation_spec(response) == Err::<
            Seq<char>,
            Seq<char>,
        >("API error: "@ + body@),
        response matches TokenResponse::Failure(None) ==> token_creation_spec(response) == Err::<
            Seq<char>,
            Seq<char>,
        >("API error: Unknown error"@),
{
}

} // verus!
