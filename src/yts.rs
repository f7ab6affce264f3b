//! The movie-index provider: its request, and how the torrents of the movies
//! it lists become results.

use vstd::prelude::*;
use vstd::string::*;
use crate::text::{decimal, push_decimal};
use crate::piratebay::{url_encoded, url_encode, tracker_params};
use crate::torrent_search::TorrentSearchResult;

verus! {

/// One torrent of a listed movie, as the fields arrive; its size is already
/// human-readable.
#[derive(Debug, Clone)]
pub struct YtsTorrent {
    pub title: String,
    pub quality: String,
    pub hash: String,
    pub size: String,
    pub seeds: u32,
    pub peers: u32,
}

/// The search request for `query`, asking for at most `limit` movies.
pub open spec fn yts_url_text(query: Seq<char>, limit: u32) -> Seq<char> {
    "https://yts.mx/api/v2/list_movies.json?query_term="@ + url_encoded(query) + "&limit="@
        + decimal(limit as nat)
}

/// The display name of a torrent: the movie's title and the quality.
pub open spec fn yts_name(t: YtsTorrent) -> Seq<char> {
    t.title@ + " ["@ + t.quality@ + "]"@
}

/// Whether `out` is the result that torrent `t` becomes.
pub open spec fn result_of_torrent(out: TorrentSearchResult, t: YtsTorrent) -> bool {
    &&& out.name@ == yts_name(t)
    &&& out.size@ == t.size@
    &&& out.seeders == t.seeds
    &&& out.leechers == t.peers
    &&& out.magnet_link@ == "magnet:?xt=urn:btih:"@ + t.hash@ + "&dn="@ + url_encoded(yts_name(t))
        + tracker_params()
    &&& out.source@ == "YTS"@
}

/// The search request for `query`, asking for at most `limit` movies.
pub fn search_url(query: &str, limit: u32) -> (r: String)
    ensures
        r@ == yts_url_text(query@, limit),
{
    let mut url = String::from_str("https://yts.mx/api/v2/list_movies.json?query_term=");
    let enc = url_encode(query);
    url.append(enc.as_str());
    url.append("&limit=");
    push_decimal(&mut url, limit as u128);
    url
}

/// The result that one torrent becomes.
pub fn torrent_to_result(t: &YtsTorrent) -> (r: TorrentSearchResult)
    ensures
        result_of_torrent(r, *t),
{
    let mut name = t.title.clone();
    name.append(" [");
    name.append(t.quality.as_str());
    name.append("]");
    let magnet = crate::piratebay::magnet_link(t.hash.as_str(), name.as_str());
    TorrentSearchResult {
        name,
        size: t.size.clone(),
        seeders: t.seeds,
        leechers: t.peers,
        magnet_link: magnet,
        source: String::from_str("YTS"),
    }
}

/// Every torrent of the listed movies as a result, in listing order.
pub fn to_results(torrents: &Vec<YtsTorrent>) -> (r: Vec<TorrentSearchResult>)
    ensures
        r@.len() == torrents@.len(),
        forall|i: int| 0 <= i < r@.len() ==> result_of_torrent(#[trigger] r@[i], torrents@[i]),
{
    let mut out: Vec<TorrentSearchResult> = Vec::new();
    let mut i: usize = 0;
    while i < torrents.len()
        invariant
            i <= torrents@.len(),
            out@.len() == i,
            forall|k: int| 0 <= k < i ==> result_of_torrent(#[trigger] out@[k], torrents@[k]),
        decreases torrents@.len() - i,
    {
        out.push(torrent_to_result(&torrents[i]));
        i = i + 1;
    }
    out
}

} // verus!
