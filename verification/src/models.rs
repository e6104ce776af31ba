//! Records exchanged with the qBittorrent Web API that the server's logic reads.
use vstd::prelude::*;

verus! {

/// Global transfer statistics and limits.
#[derive(Debug)]
pub struct TransferInfo {
    pub dl_info_speed: i64,
    pub dl_info_data: i64,
    pub up_info_speed: i64,
    pub up_info_data: i64,
    pub dl_rate_limit: i64,
    pub up_rate_limit: i64,
    pub dht_nodes: i64,
    pub connection_status: String,
}

/// One search hit.
#[derive(Debug)]
pub struct SearchResult {
    pub file_name: String,
    pub file_url: String,
    pub file_size: i64,
    pub nb_seeders: i64,
    pub nb_leechers: i64,
    pub site_url: String,
}

/// A started search job.
#[derive(Debug)]
pub struct SearchJob {
    pub id: i64,
}

/// The state of a search job (`Running` or `Stopped`).
#[derive(Debug)]
pub struct SearchStatus {
    pub id: i64,
    pub status: String,
    pub total: i64,
}

/// The results of a search job so far.
#[derive(Debug)]
pub struct SearchResultsResponse {
    pub results: Vec<SearchResult>,
    pub status: String,
    pub total: i64,
}

} // verus!
