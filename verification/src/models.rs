//! The answer of the Zora explore API, as plain values.

use vstd::prelude::*;

verus! {

/// A small preview of a coin's image.
#[derive(Clone, Debug)]
pub struct PreviewImage {
    pub small: String,
    pub blurhash: String,
}

/// The media attached to a coin.
#[derive(Clone, Debug)]
pub struct MediaContent {
    pub mime_type: String,
    pub original_uri: String,
    pub preview_image: PreviewImage,
}

/// A coin as the explore API lists it.
#[derive(Clone, Debug)]
pub struct Coin {
    pub name: String,
    pub description: String,
    pub address: String,
    pub symbol: String,
    pub total_volume: String,
    pub volume_24h: String,
    pub created_at: String,
    pub market_cap: String,
    pub market_cap_delta_24h: String,
    pub media_content: MediaContent,
    pub transfers: Transfers,
    pub unique_holders: u32,
}

/// How often a coin changed hands.
#[derive(Clone, Debug)]
pub struct Transfers {
    pub count: u32,
}

/// One entry of an explore list.
#[derive(Clone, Debug)]
pub struct Edge {
    pub node: Coin,
    pub cursor: String,
}

/// Where the next page of an explore list starts.
#[derive(Clone, Debug)]
pub struct PageInfo {
    pub end_cursor: String,
    pub has_next_page: bool,
}

/// One page of coins.
#[derive(Clone, Debug)]
pub struct ExploreList {
    pub edges: Vec<Edge>,
    pub page_info: PageInfo,
}

/// The whole answer of the explore API.
#[derive(Clone, Debug)]
pub struct ApiResponse {
    pub explore_list: ExploreList,
}

} // verus!
