//! The JSON API provider: the request it makes and how its records become
//! search results.

use vstd::prelude::*;
use vstd::string::*;
use crate::text::{decimal, parsed_unsigned, parse_unsigned, decimal_string};
use crate::utils::{unit_exp, scaled_text, scaled_string, unit_exponent};
use crate::torrent_search::{TorrentSearchResult, ranked, rank_by_seeders, lemma_ranked_lower};

verus! {

/// The most records of one response that are looked at.
pub const MAX_RECORDS: usize = 20;

/// One record of the provider's response, as the fields arrive.
#[derive(Debug, Clone)]
pub struct PbRecord {
    pub name: String,
    pub info_hash: String,
    pub leechers: String,
    pub seeders: String,
    pub size: String,
}

/// The percent-encoding of `s` for use in a URL.
pub uninterp spec fn url_encoded(s: Seq<char>) -> Seq<char>;

/// Whether `c` is left as it is by percent-encoding: an ASCII letter or
/// digit, or one of `-_.~`.
pub open spec fn is_unreserved(c: char) -> bool {
    ('0' <= c && c <= '9') || ('A' <= c && c <= 'Z') || ('a' <= c && c <= 'z') || c == '-' || c
        == '_' || c == '.' || c == '~'
}

/// Relies on urlencoding::encode: percent-encodes every byte of `s` but ASCII
/// letters, digits and `-_.~` as `%` and two upper-case hex digits; the
/// result depends on `s` alone, is ASCII, and is `s` itself where every
/// character is left as it is.
#[verifier::external_body]
pub(crate) fn url_encode(s: &str) -> (r: String)
    ensures
        r@ == url_encoded(s@),
        forall|i: int| 0 <= i < r@.len() ==> (#[trigger] r@[i]) as u32 <= 127,
        (forall|i: int| 0 <= i < s@.len() ==> is_unreserved(#[trigger] s@[i])) ==> r@ == s@,
{
    urlencoding::encode(s).into_owned()
}

/// The search request for `query`.
pub open spec fn search_url_text(query: Seq<char>) -> Seq<char> {
    "https://apibay.org/q.php?q="@ + url_encoded(query) + "&cat=0"@
}

/// The trackers named in every retrieval link this provider builds.
pub open spec fn tracker_params() -> Seq<char> {
    "&tr=udp://tracker.coppersurfer.tk:6969/announce&tr=udp://9.rarbg.to:2920/announce&tr=udp://tracker.opentrackr.org:1337&tr=udp://tracker.internetwarriors.net:1337/announce&tr=udp://tracker.leechers-paradise.org:6969/announce&tr=udp://tracker.coppersurfer.tk:6969/announce&tr=udp://tracker.pirateparty.gr:6969/announce&tr=udp://tracker.cyberia.is:6969/announce"@
}

/// The retrieval link for a content hash and a display name.
pub open spec fn magnet_text(info_hash: Seq<char>, name: Seq<char>) -> Seq<char> {
    "magnet:?xt=urn:btih:"@ + info_hash + "&dn="@ + url_encoded(name) + tracker_params()
}

/// A size given as a byte count, shown in `B`, `KB`, `MB` or `GB` with one
/// decimal place above bytes; any other text is kept as it is.
pub open spec fn size_text(s: Seq<char>) -> Seq<char> {
    match parsed_unsigned(s, u64::MAX as nat) {
        Some(b) => if unit_exp(b, 3) == 0 {
            decimal(b) + " B"@
        } else {
            scaled_text(b, unit_exp(b, 3))
        },
        None => s,
    }
}

/// A count field: its value where it is a number that fits, else `0`.
pub open spec fn count_of(s: Seq<char>) -> u32 {
    match parsed_unsigned(s, u32::MAX as nat) {
        Some(v) => v as u32,
        None => 0,
    }
}

/// The records that become results: among the first `MAX_RECORDS`, those
/// with seeders, in their order.
pub open spec fn live_records(s: Seq<PbRecord>) -> Seq<PbRecord>
    decreases s.len(),
{
    if s.len() == 0 {
        s
    } else {
        let rest = live_records(s.drop_last());
        if count_of(s.last().seeders@) != 0 {
            rest.push(s.last())
        } else {
            rest
        }
    }
}

/// The records looked at: the first `MAX_RECORDS`.
pub open spec fn first_records(s: Seq<PbRecord>) -> Seq<PbRecord> {
    if s.len() <= MAX_RECORDS {
        s
    } else {
        s.take(MAX_RECORDS as int)
    }
}

/// Whether `out` is the result that record `rec` becomes.
pub open spec fn result_of_record(out: TorrentSearchResult, rec: PbRecord) -> bool {
    &&& out.name@ == rec.name@
    &&& out.size@ == size_text(rec.size@)
    &&& out.seeders == count_of(rec.seeders@)
    &&& out.leechers == count_of(rec.leechers@)
    &&& out.magnet_link@ == magnet_text(rec.info_hash@, rec.name@)
    &&& out.source@ == "PirateBay"@
}

/// The request URL for a search for `query`.
pub fn search_url(query: &str) -> (r: String)
    ensures
        r@ == search_url_text(query@),
{
    let mut url = String::from_str("https://apibay.org/q.php?q=");
    let enc = url_encode(query);
    url.append(enc.as_str());
    url.append("&cat=0");
    url
}

/// The retrieval link for a content hash and a display name.
pub fn magnet_link(info_hash: &str, name: &str) -> (r: String)
    ensures
        r@ == magnet_text(info_hash@, name@),
{
    let mut link = String::from_str("magnet:?xt=urn:btih:");
    link.append(info_hash);
    link.append("&dn=");
    let enc = url_encode(name);
    link.append(enc.as_str());
    link.append(
        "&tr=udp://tracker.coppersurfer.tk:6969/announce&tr=udp://9.rarbg.to:2920/announce&tr=udp://tracker.opentrackr.org:1337&tr=udp://tracker.internetwarriors.net:1337/announce&tr=udp://tracker.leechers-paradise.org:6969/announce&tr=udp://tracker.coppersurfer.tk:6969/announce&tr=udp://tracker.pirateparty.gr:6969/announce&tr=udp://tracker.cyberia.is:6969/announce",
    );
    link
}

/// Shows a size given as a byte count in `B`, `KB`, `MB` or `GB`; text that
/// is no byte count is kept as it is.
pub fn format_size(size_bytes: &str) -> (r: String)
    ensures
        r@ == size_text(size_bytes@),
{
    match parse_unsigned(size_bytes, u64::MAX) {
        Some(b) => {
            let k = unit_exponent(b, 3);
            if k == 0 {
                decimal_string(b).concat(" B")
            } else {
                scaled_string(b, k)
            }
        },
        None => String::from_str(size_bytes),
    }
}

/// Reads a count field: its value where it is a number that fits, else `0`.
pub fn parse_count(s: &str) -> (r: u32)
    ensures
        r == count_of(s@),
{
    match parse_unsigned(s, 4294967295) {
        Some(v) => v as u32,
        None => 0,
    }
}

/// The result that one record becomes.
pub fn record_to_result(rec: &PbRecord) -> (r: TorrentSearchResult)
    ensures
        result_of_record(r, *rec),
{
    TorrentSearchResult {
        name: rec.name.clone(),
        size: format_size(rec.size.as_str()),
        seeders: parse_count(rec.seeders.as_str()),
        leechers: parse_count(rec.leechers.as_str()),
        magnet_link: magnet_link(rec.info_hash.as_str(), rec.name.as_str()),
        source: String::from_str("PirateBay"),
    }
}

/// Turns the provider's records into results: of the first `MAX_RECORDS`,
/// those with seeders (a record without is dead and dropped), ranked by
/// seeders with equal counts in response order.
pub fn normalize_records(records: &Vec<PbRecord>) -> (r: Vec<TorrentSearchResult>)
    ensures
        exists|mid: Seq<TorrentSearchResult>|
            {
                &&& mid.len() == live_records(first_records(records@)).len()
                &&& forall|j: int|
                    0 <= j < mid.len() ==> result_of_record(
                        #[trigger] mid[j],
                        live_records(first_records(records@))[j],
                    )
                &&& r@ == ranked(mid)
            },
        forall|j: int| 0 <= j < r@.len() ==> #[trigger] r@[j].seeders > 0,
{
    let ghost first = first_records(records@);
    let n: usize = if records.len() <= MAX_RECORDS {
        records.len()
    } else {
        MAX_RECORDS
    };
    assert(first.len() == n);
    let mut out: Vec<TorrentSearchResult> = Vec::new();
    let mut i: usize = 0;
    while i < n
        invariant
            i <= n,
            n == first.len(),
            n <= records@.len(),
            first == first_records(records@),
            forall|j: int| 0 <= j < n ==> first[j] == records@[j],
            out@.len() == live_records(first.take(i as int)).len(),
            forall|j: int|
                0 <= j < out@.len() ==> result_of_record(
                    #[trigger] out@[j],
                    live_records(first.take(i as int))[j],
                ),
            forall|j: int| 0 <= j < out@.len() ==> #[trigger] out@[j].seeders > 0,
        decreases n - i,
    {
        let rec = &records[i];
        assert(first.take(i + 1).drop_last() =~= first.take(i as int));
        assert(first.take(i + 1).last() == *rec);
        if parse_count(rec.seeders.as_str()) != 0 {
            let res = record_to_result(rec);
            out.push(res);
        }
        i = i + 1;
    }
    assert(first.take(n as int) =~= first);
    let ghost mid = out@;
    proof {
        lemma_ranked_lower(mid, 1);
    }
    rank_by_seeders(out)
}

} // verus!
