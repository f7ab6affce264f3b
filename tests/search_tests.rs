use tui_torrent::piratebay::{magnet_link, normalize_records, search_url, PbRecord};
use tui_torrent::torrent_search::{merge_results, rank_by_seeders, ProviderOutcome, TorrentSearchResult};
use tui_torrent::x1337::{
    default_mirrors, get_categories, listing_rows, magnet_on_page, search_page_url, Phase,
    ScrapeAction, ScrapeSession, BASE_URL,
};
use tui_torrent::yts::{self, YtsTorrent};

fn result(name: &str, seeders: u32, source: &str) -> TorrentSearchResult {
    TorrentSearchResult {
        name: name.to_string(),
        size: "1.0 GB".to_string(),
        seeders,
        leechers: 0,
        magnet_link: format!("magnet:?xt=urn:btih:{name}"),
        source: source.to_string(),
    }
}

fn record(name: &str, seeders: &str, leechers: &str, size: &str) -> PbRecord {
    PbRecord {
        name: name.to_string(),
        info_hash: "ABCDEF".to_string(),
        leechers: leechers.to_string(),
        seeders: seeders.to_string(),
        size: size.to_string(),
    }
}

fn names(v: &[TorrentSearchResult]) -> Vec<String> {
    v.iter().map(|r| r.name.clone()).collect()
}

#[test]
fn api_search_url_is_percent_encoded() {
    assert_eq!(search_url("ubuntu iso"), "https://apibay.org/q.php?q=ubuntu%20iso&cat=0");
    assert_eq!(search_url("a&b"), "https://apibay.org/q.php?q=a%26b&cat=0");
}

#[test]
fn magnet_link_has_hash_name_and_trackers() {
    let m = magnet_link("ABC", "Ubuntu ISO");
    assert!(m.starts_with("magnet:?xt=urn:btih:ABC&dn=Ubuntu%20ISO&tr=udp://tracker.coppersurfer.tk:6969/announce"));
    assert!(m.ends_with("&tr=udp://tracker.cyberia.is:6969/announce"));
}

#[test]
fn ubuntu_scenario_single_api_result() {
    let recs = vec![record("Ubuntu ISO", "120", "5", "3221225472")];
    let api = normalize_records(&recs);
    assert_eq!(api.len(), 1);
    assert_eq!(api[0].size, "3.0 GB");
    assert_eq!(api[0].seeders, 120);
    assert_eq!(api[0].leechers, 5);
    assert_eq!(api[0].source, "PirateBay");
    let merged = merge_results(
        ProviderOutcome::Completed(Vec::new()),
        ProviderOutcome::Completed(api),
        ProviderOutcome::Completed(Vec::new()),
    );
    assert_eq!(merged.len(), 1);
    assert_eq!(merged[0].name, "Ubuntu ISO");
    assert_eq!(merged[0].size, "3.0 GB");
    assert_eq!(merged[0].seeders, 120);
}

#[test]
fn zero_seeder_records_are_dropped() {
    let recs = vec![
        record("dead", "0", "3", "10"),
        record("alive", "7", "1", "10"),
        record("garbled", "many", "1", "10"),
        record("busy", "90", "x", "10"),
    ];
    let out = normalize_records(&recs);
    assert_eq!(names(&out), vec!["busy", "alive"]);
    assert!(out.iter().all(|r| r.seeders > 0));
    assert_eq!(out[0].leechers, 0);
}

#[test]
fn only_first_twenty_records_are_read() {
    let recs: Vec<PbRecord> = (0..25).map(|i| record(&format!("r{i}"), &format!("{}", i + 1), "0", "1")).collect();
    let out = normalize_records(&recs);
    assert_eq!(out.len(), 20);
    assert_eq!(out[0].name, "r19");
    assert_eq!(out[19].name, "r0");
}

#[test]
fn ranking_is_stable_for_equal_seeders() {
    let items = vec![result("a", 5, "x"), result("b", 9, "x"), result("c", 5, "y"), result("d", 9, "y"), result("e", 1, "z")];
    let out = rank_by_seeders(items);
    assert_eq!(names(&out), vec!["b", "d", "a", "c", "e"]);
}

#[test]
fn merge_keeps_concatenation_order_for_ties() {
    let merged = merge_results(
        ProviderOutcome::Completed(vec![result("m1", 10, "YTS"), result("m2", 3, "YTS")]),
        ProviderOutcome::Completed(vec![result("api1", 10, "PirateBay")]),
        ProviderOutcome::Completed(vec![result("x1", 3, "1337x"), result("x2", 10, "1337x")]),
    );
    assert_eq!(names(&merged), vec!["m1", "api1", "x2", "m2", "x1"]);
}

#[test]
fn timed_out_provider_contributes_nothing() {
    let a = merge_results(
        ProviderOutcome::TimedOut,
        ProviderOutcome::Completed(vec![result("api1", 4, "PirateBay")]),
        ProviderOutcome::Failed,
    );
    assert_eq!(names(&a), vec!["api1"]);
    let none = merge_results(ProviderOutcome::TimedOut, ProviderOutcome::Failed, ProviderOutcome::TimedOut);
    assert!(none.is_empty());
}

#[test]
fn eighty_results_are_cut_to_top_fifty() {
    let a: Vec<_> = (0..30).map(|i| result(&format!("a{i}"), i, "YTS")).collect();
    let b: Vec<_> = (30..55).map(|i| result(&format!("b{i}"), i, "PirateBay")).collect();
    let c: Vec<_> = (55..80).map(|i| result(&format!("c{i}"), i, "1337x")).collect();
    let merged = merge_results(ProviderOutcome::Completed(a), ProviderOutcome::Completed(b), ProviderOutcome::Completed(c));
    assert_eq!(merged.len(), 50);
    assert_eq!(merged[0].seeders, 79);
    assert_eq!(merged[49].seeders, 30);
    assert!(merged.windows(2).all(|w| w[0].seeders >= w[1].seeders));
}

const PAGE: &str = r#"<html><body><table><tbody>
<tr><td class="coll-1"><a href="/sub/1/">i</a><a href="/torrent/1/ubuntu/"> Ubuntu 24.04 </a></td>
<td class="coll-2"> 120 </td><td class="coll-3">5</td><td class="coll-4">3.0 GB</td></tr>
<tr><td class="coll-1"><a href="/sub/2/">i</a></td><td class="coll-2">9</td></tr>
<tr><td class="coll-1"><a href="/sub/3/">i</a><a href="/torrent/3/debian/">Debian</a></td>
<td class="coll-2">n/a</td><td class="coll-3">2</td><td class="coll-4">650 MB</td></tr>
</tbody></table></body></html>"#;

const DETAIL: &str = r#"<html><body><a href="/x">x</a><a href="magnet:?xt=urn:btih:FEED">Magnet</a><a href="magnet:?xt=urn:btih:SECOND">M2</a></body></html>"#;

#[test]
fn listing_rows_keeps_complete_rows() {
    let rows = listing_rows(PAGE);
    assert_eq!(rows.len(), 2);
    assert_eq!(rows[0].name, "Ubuntu 24.04");
    assert_eq!(rows[0].href, "/torrent/1/ubuntu/");
    assert_eq!(rows[0].seeders, 120);
    assert_eq!(rows[0].leechers, 5);
    assert_eq!(rows[0].size, "3.0 GB");
    assert_eq!(rows[1].name, "Debian");
    assert_eq!(rows[1].seeders, 0);
}

#[test]
fn magnet_on_page_takes_first_magnet_anchor() {
    assert_eq!(magnet_on_page(DETAIL).as_deref(), Some("magnet:?xt=urn:btih:FEED"));
    assert_eq!(magnet_on_page("<a href=\"/x\">x</a>"), None);
}

#[test]
fn search_page_urls() {
    assert_eq!(search_page_url("https://m", "ubuntu", None), "https://m/search/ubuntu/1/");
    assert_eq!(search_page_url("https://m", "ubuntu", Some("Apps")), "https://m/category-search/ubuntu/Apps/1/");
}

#[test]
fn second_mirror_wins_and_third_is_never_asked() {
    let mirrors = vec!["https://a".to_string(), "https://b".to_string(), "https://c".to_string()];
    let (mut s, act) = ScrapeSession::start(mirrors, "ubuntu".into(), None, BASE_URL.to_string());
    assert!(matches!(act, ScrapeAction::FetchSearch(ref u) if u == "https://a/search/ubuntu/1/"));
    let act = s.on_search_failed();
    assert!(matches!(act, ScrapeAction::FetchSearch(ref u) if u == "https://b/search/ubuntu/1/"));
    let act = s.on_search_page(PAGE);
    assert!(matches!(act, ScrapeAction::FetchDetail(ref u) if u == "https://1337x.to/torrent/1/ubuntu/"));
    let act = s.on_detail(Some(DETAIL));
    assert!(matches!(act, ScrapeAction::FetchDetail(ref u) if u == "https://1337x.to/torrent/3/debian/"));
    let act = s.on_detail(None);
    assert!(matches!(act, ScrapeAction::Finish));
    assert!(matches!(s.phase, Phase::Finished));
    let out = s.into_results();
    assert_eq!(out.len(), 1);
    assert_eq!(out[0].name, "Ubuntu 24.04");
    assert_eq!(out[0].magnet_link, "magnet:?xt=urn:btih:FEED");
    assert_eq!(out[0].source, "1337x");
    assert_eq!(out[0].seeders, 120);
}

#[test]
fn all_mirrors_failing_gives_no_results() {
    let mirrors = vec!["https://a".to_string(), "https://b".to_string()];
    let (mut s, _) = ScrapeSession::start(mirrors, "q".into(), Some("Movies".into()), BASE_URL.to_string());
    assert!(matches!(s.on_search_failed(), ScrapeAction::FetchSearch(ref u) if u == "https://b/category-search/q/Movies/1/"));
    assert!(matches!(s.on_search_failed(), ScrapeAction::Finish));
    assert!(s.into_results().is_empty());
    let (s, act) = ScrapeSession::start(Vec::new(), "q".into(), None, BASE_URL.to_string());
    assert!(matches!(act, ScrapeAction::Finish));
    assert!(s.into_results().is_empty());
}

#[test]
fn scraping_stops_at_ten_results() {
    let mut page = String::from("<table><tbody>");
    for i in 0..12 {
        page.push_str(&format!(
            "<tr><td class=\"coll-1\"><a href=\"/s\">i</a><a href=\"/t/{i}/\">T{i}</a></td><td class=\"coll-2\">{i}</td><td class=\"coll-3\">0</td><td class=\"coll-4\">1 MB</td></tr>"
        ));
    }
    page.push_str("</tbody></table>");
    let (mut s, _) = ScrapeSession::start(default_mirrors(), "q".into(), None, BASE_URL.to_string());
    let mut act = s.on_search_page(&page);
    let mut fetched = 0;
    while let ScrapeAction::FetchDetail(_) = act {
        fetched += 1;
        act = s.on_detail(Some(DETAIL));
    }
    assert_eq!(fetched, 10);
    assert_eq!(s.into_results().len(), 10);
}

#[test]
fn categories_and_mirrors() {
    let cats = get_categories();
    assert_eq!(cats.len(), 9);
    assert!(cats.contains(&("Apps", "Applications")));
    assert_eq!(default_mirrors()[0], "https://1337x.to");
    assert_eq!(default_mirrors().len(), 4);
}

#[test]
fn movie_index_results() {
    assert_eq!(yts::search_url("the matrix", 20), "https://yts.mx/api/v2/list_movies.json?query_term=the%20matrix&limit=20");
    let t = YtsTorrent {
        title: "Inception".into(),
        quality: "1080p".into(),
        hash: "HASH".into(),
        size: "2.1 GB".into(),
        seeds: 300,
        peers: 12,
    };
    let out = yts::to_results(&vec![t]);
    assert_eq!(out.len(), 1);
    assert_eq!(out[0].name, "Inception [1080p]");
    assert_eq!(out[0].size, "2.1 GB");
    assert_eq!(out[0].seeders, 300);
    assert_eq!(out[0].source, "YTS");
    assert!(out[0].magnet_link.starts_with("magnet:?xt=urn:btih:HASH&dn=Inception%20%5B1080p%5D&tr="));
}

#[test]
fn cells_are_trimmed_of_unicode_whitespace() {
    let page = "<table><tbody><tr><td class=\"coll-1\"><a href=\"/s\">i</a><a href=\"/t/1/\" title=\"t\" class=\"c\">\u{3000}\u{2028}Name\t\n</a></td><td class=\"coll-2\">\u{2003}42\u{2003}</td><td class=\"coll-3\">1</td><td class=\"coll-4\">1 MB</td></tr></tbody></table>";
    let rows = listing_rows(page);
    assert_eq!(rows.len(), 1);
    assert_eq!(rows[0].name, "Name");
    assert_eq!(rows[0].seeders, 42);
    assert_eq!(listing_rows(page)[0].name, rows[0].name);
}

#[test]
fn unreserved_query_is_not_encoded() {
    assert_eq!(search_url("Ubuntu-24.04_x~"), "https://apibay.org/q.php?q=Ubuntu-24.04_x~&cat=0");
}
