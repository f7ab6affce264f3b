//! The scraped provider: the pages it asks for, how a result page becomes
//! rows, and a session that fails over between mirrors and resolves each row's
//! retrieval link from its detail page.

use vstd::prelude::*;
use vstd::string::*;
use crate::piratebay::{count_of, parse_count};
use crate::torrent_search::TorrentSearchResult;

verus! {

/// The most results one search collects.
pub const MAX_SCRAPED: usize = 10;

/// Rows of the result table.
pub open spec fn row_selector() -> Seq<char> {
    "tbody tr"@
}

/// The cell holding a row's title link.
pub open spec fn name_selector() -> Seq<char> {
    "td.coll-1 a:nth-child(2)"@
}

pub open spec fn seeders_selector() -> Seq<char> {
    "td.coll-2"@
}

pub open spec fn leechers_selector() -> Seq<char> {
    "td.coll-3"@
}

pub open spec fn size_selector() -> Seq<char> {
    "td.coll-4"@
}

/// The anchors on a detail page that carry a retrieval link.
pub open spec fn magnet_selector() -> Seq<char> {
    "a[href^='magnet:']"@
}

/// For each element of `html` matching `rows`, the inner HTML of its first
/// descendant matching `cell`, if any.
pub uninterp spec fn first_cell_html(html: Seq<char>, rows: Seq<char>, cell: Seq<char>) -> Seq<
    Option<Seq<char>>,
>;

/// For each element of `html` matching `rows`, the attribute `attr` of its
/// first descendant matching `cell`, if both exist.
pub uninterp spec fn first_cell_attr(
    html: Seq<char>,
    rows: Seq<char>,
    cell: Seq<char>,
    attr: Seq<char>,
) -> Seq<Option<Seq<char>>>;

/// The attribute `attr` of the first element of `html` matching `sel`.
pub uninterp spec fn first_match_attr(html: Seq<char>, sel: Seq<char>, attr: Seq<char>) -> Option<
    Seq<char>,
>;

/// Whether `c` has the Unicode White_Space property, as `char::is_whitespace`
/// documents it.
pub open spec fn is_whitespace(c: char) -> bool {
    let u = c as u32;
    (0x9 <= u <= 0xd) || u == 0x20 || u == 0x85 || u == 0xa0 || u == 0x1680 || (0x2000 <= u
        <= 0x200a) || u == 0x2028 || u == 0x2029 || u == 0x202f || u == 0x205f || u == 0x3000
}

/// `s` without its leading whitespace.
pub open spec fn trimmed_start(s: Seq<char>) -> Seq<char>
    decreases s.len(),
{
    if s.len() > 0 && is_whitespace(s[0]) {
        trimmed_start(s.drop_first())
    } else {
        s
    }
}

/// `s` without its trailing whitespace.
pub open spec fn trimmed_end(s: Seq<char>) -> Seq<char>
    decreases s.len(),
{
    if s.len() > 0 && is_whitespace(s.last()) {
        trimmed_end(s.drop_last())
    } else {
        s
    }
}

/// `s` without leading and trailing whitespace.
pub open spec fn trimmed(s: Seq<char>) -> Seq<char> {
    trimmed_end(trimmed_start(s))
}

pub open spec fn opt_view(o: Option<String>) -> Option<Seq<char>> {
    match o {
        Some(s) => Some(s@),
        None => None,
    }
}

pub open spec fn opt_views(s: Seq<Option<String>>) -> Seq<Option<Seq<char>>> {
    s.map_values(|o: Option<String>| opt_view(o))
}

/// Relies on scraper's Html::parse_document, Selector::parse,
/// ElementRef::select and ElementRef::inner_html. With scraper's
/// `deterministic` feature (enabled in Cargo.toml) attributes are kept in
/// source order, so the serialized cells depend on the arguments alone; the
/// result is empty where a selector does not parse.
#[verifier::external_body]
fn select_cells_html(html: &str, rows: &str, cell: &str) -> (r: Vec<Option<String>>)
    ensures
        opt_views(r@) == first_cell_html(html@, rows@, cell@),
{
    let doc = scraper::Html::parse_document(html);
    match (scraper::Selector::parse(rows), scraper::Selector::parse(cell)) {
        (Ok(rs), Ok(cs)) => doc.select(&rs).map(
            |row| row.select(&cs).next().map(|e| e.inner_html()),
        ).collect(),
        _ => Vec::new(),
    }
}

/// Relies on scraper's Html::parse_document, Selector::parse,
/// ElementRef::select and Element::attr; the result depends on the arguments
/// alone, and is empty where a selector does not parse.
#[verifier::external_body]
fn select_cells_attr(html: &str, rows: &str, cell: &str, attr: &str) -> (r: Vec<Option<String>>)
    ensures
        opt_views(r@) == first_cell_attr(html@, rows@, cell@, attr@),
{
    let doc = scraper::Html::parse_document(html);
    match (scraper::Selector::parse(rows), scraper::Selector::parse(cell)) {
        (Ok(rs), Ok(cs)) => doc.select(&rs).map(
            |row| row.select(&cs).next().and_then(|e| e.value().attr(attr)).map(String::from),
        ).collect(),
        _ => Vec::new(),
    }
}

/// Relies on scraper's Html::parse_document, Selector::parse, Html::select
/// and Element::attr; the result depends on the arguments alone, and is
/// `None` where the selector does not parse.
#[verifier::external_body]
fn select_first_attr(html: &str, sel: &str, attr: &str) -> (r: Option<String>)
    ensures
        opt_view(r) == first_match_attr(html@, sel@, attr@),
{
    let doc = scraper::Html::parse_document(html);
    match scraper::Selector::parse(sel) {
        Ok(s) => doc.select(&s).next().and_then(|e| e.value().attr(attr)).map(String::from),
        Err(_) => None,
    }
}

/// Relies on str::trim: `s` without leading and trailing characters that
/// have the White_Space property.
#[verifier::external_body]
fn trim(s: &str) -> (r: &str)
    ensures
        r@ == trimmed(s@),
{
    s.trim()
}

/// One row of a result page.
#[derive(Debug, Clone)]
pub struct ListingRow {
    pub name: String,
    pub href: String,
    pub seeders: u32,
    pub leechers: u32,
    pub size: String,
}

/// The columns of a result page, one entry per table row.
pub open spec fn names_of(html: Seq<char>) -> Seq<Option<Seq<char>>> {
    first_cell_html(html, row_selector(), name_selector())
}

pub open spec fn hrefs_of(html: Seq<char>) -> Seq<Option<Seq<char>>> {
    first_cell_attr(html, row_selector(), name_selector(), "href"@)
}

pub open spec fn seeders_of(html: Seq<char>) -> Seq<Option<Seq<char>>> {
    first_cell_html(html, row_selector(), seeders_selector())
}

pub open spec fn leechers_of(html: Seq<char>) -> Seq<Option<Seq<char>>> {
    first_cell_html(html, row_selector(), leechers_selector())
}

pub open spec fn sizes_of(html: Seq<char>) -> Seq<Option<Seq<char>>> {
    first_cell_html(html, row_selector(), size_selector())
}

/// The number of table rows that every column reports on.
pub open spec fn row_count(html: Seq<char>) -> nat {
    let a = names_of(html).len();
    let b = seeders_of(html).len();
    let c = leechers_of(html).len();
    let d = sizes_of(html).len();
    let e = hrefs_of(html).len();
    let ab = if a <= b { a } else { b };
    let cd = if c <= d { c } else { d };
    let abcd = if ab <= cd { ab } else { cd };
    if abcd <= e { abcd } else { e }
}

/// Whether table row `i` has a title, seeders, leechers and a size.
pub open spec fn row_complete(html: Seq<char>, i: int) -> bool {
    &&& names_of(html)[i] is Some
    &&& seeders_of(html)[i] is Some
    &&& leechers_of(html)[i] is Some
    &&& sizes_of(html)[i] is Some
}

/// The complete rows among the first `n` table rows, by index.
pub open spec fn complete_rows(html: Seq<char>, n: nat) -> Seq<int>
    decreases n,
{
    if n == 0 {
        Seq::empty()
    } else {
        let rest = complete_rows(html, (n - 1) as nat);
        if row_complete(html, n - 1) {
            rest.push(n - 1)
        } else {
            rest
        }
    }
}

/// Whether `r` is what table row `i` of `html` reads as.
pub open spec fn row_reads(r: ListingRow, html: Seq<char>, i: int) -> bool {
    &&& r.name@ == trimmed(names_of(html)[i]->0)
    &&& r.href@ == match hrefs_of(html)[i] {
        Some(h) => h,
        None => Seq::empty(),
    }
    &&& r.seeders == count_of(trimmed(seeders_of(html)[i]->0))
    &&& r.leechers == count_of(trimmed(leechers_of(html)[i]->0))
    &&& r.size@ == trimmed(sizes_of(html)[i]->0)
}

/// Whether `rows` are the complete rows of the page `html`, in page order.
pub open spec fn page_rows(rows: Seq<ListingRow>, html: Seq<char>) -> bool {
    let idx = complete_rows(html, row_count(html));
    &&& rows.len() == idx.len()
    &&& forall|j: int| 0 <= j < rows.len() ==> row_reads(#[trigger] rows[j], html, idx[j])
}

/// The rows of a result page that have a title, seeders, leechers and a
/// size, in page order; other rows are skipped.
pub fn listing_rows(html: &str) -> (r: Vec<ListingRow>)
    ensures
        page_rows(r@, html@),
{
    let names = select_cells_html(html, "tbody tr", "td.coll-1 a:nth-child(2)");
    let hrefs = select_cells_attr(html, "tbody tr", "td.coll-1 a:nth-child(2)", "href");
    let seeds = select_cells_html(html, "tbody tr", "td.coll-2");
    let leeches = select_cells_html(html, "tbody tr", "td.coll-3");
    let sizes = select_cells_html(html, "tbody tr", "td.coll-4");
    let mut n = names.len();
    if seeds.len() < n {
        n = seeds.len();
    }
    if leeches.len() < n {
        n = leeches.len();
    }
    if sizes.len() < n {
        n = sizes.len();
    }
    if hrefs.len() < n {
        n = hrefs.len();
    }
    let ghost h = html@;
    assert(n == row_count(h));
    let mut out: Vec<ListingRow> = Vec::new();
    let mut i: usize = 0;
    while i < n
        invariant
            i <= n,
            n == row_count(h),
            h == html@,
            n <= names@.len() && n <= seeds@.len() && n <= leeches@.len() && n <= sizes@.len()
                && n <= hrefs@.len(),
            opt_views(names@) == names_of(h),
            opt_views(hrefs@) == hrefs_of(h),
            opt_views(seeds@) == seeders_of(h),
            opt_views(leeches@) == leechers_of(h),
            opt_views(sizes@) == sizes_of(h),
            out@.len() == complete_rows(h, i as nat).len(),
            forall|j: int|
                0 <= j < out@.len() ==> row_reads(
                    #[trigger] out@[j],
                    h,
                    complete_rows(h, i as nat)[j],
                ),
        decreases n - i,
    {
        assert(opt_views(names@)[i as int] == opt_view(names@[i as int]));
        assert(opt_views(hrefs@)[i as int] == opt_view(hrefs@[i as int]));
        assert(opt_views(seeds@)[i as int] == opt_view(seeds@[i as int]));
        assert(opt_views(leeches@)[i as int] == opt_view(leeches@[i as int]));
        assert(opt_views(sizes@)[i as int] == opt_view(sizes@[i as int]));
        match (&names[i], &seeds[i], &leeches[i], &sizes[i]) {
            (Some(name), Some(s), Some(l), Some(z)) => {
                let href = match &hrefs[i] {
                    Some(x) => x.clone(),
                    None => String::new(),
                };
                let row = ListingRow {
                    name: String::from_str(trim(name.as_str())),
                    href,
                    seeders: parse_count(trim(s.as_str())),
                    leechers: parse_count(trim(l.as_str())),
                    size: String::from_str(trim(z.as_str())),
                };
                out.push(row);
            },
            _ => {},
        }
        i = i + 1;
    }
    out
}

/// The search page of a mirror, as `{mirror}/search/{query}/1/`, or with a
/// category `{mirror}/category-search/{query}/{category}/1/`.
pub open spec fn search_page_text(mirror: Seq<char>, query: Seq<char>, category: Option<Seq<char>>) -> Seq<char> {
    match category {
        Some(c) => mirror + "/category-search/"@ + query + "/"@ + c + "/1/"@,
        None => mirror + "/search/"@ + query + "/1/"@,
    }
}

/// The search page of `mirror` for `query`, in `category` where one is given.
pub fn search_page_url(mirror: &str, query: &str, category: Option<&str>) -> (r: String)
    ensures
        r@ == search_page_text(mirror@, query@, match category {
            Some(c) => Some(c@),
            None => None,
        }),
{
    let mut url = String::from_str(mirror);
    match category {
        Some(c) => {
            url.append("/category-search/");
            url.append(query);
            url.append("/");
            url.append(c);
            url.append("/1/");
        },
        None => {
            url.append("/search/");
            url.append(query);
            url.append("/1/");
        },
    }
    url
}

/// The retrieval link on a detail page: the `href` of its first anchor whose
/// link starts with `magnet:`.
pub fn magnet_on_page(html: &str) -> (r: Option<String>)
    ensures
        opt_view(r) == first_match_attr(html@, magnet_selector(), "href"@),
{
    select_first_attr(html, "a[href^='magnet:']", "href")
}

/// Where a scrape session stands.
pub enum Phase {
    /// Waiting on the search page of the mirror at this index.
    Searching(usize),
    /// Waiting on the detail page of the row at this index.
    Resolving(usize),
    Finished,
}

/// What the session asks of its driver next.
pub enum ScrapeAction {
    /// Fetch this search page (after the courtesy delay) and report it with
    /// `on_search_page` or `on_search_failed`.
    FetchSearch(String),
    /// Fetch this detail page and report it with `on_detail`.
    FetchDetail(String),
    /// The search is over; the results are in `found`.
    Finish,
}

/// One search on the scraped provider. Mirrors are tried in order until one
/// answers with a page; that page's rows are then resolved one by one until
/// `MAX_SCRAPED` results are found or the rows run out. A row whose detail
/// page fails or holds no retrieval link is dropped.
pub struct ScrapeSession {
    pub mirrors: Vec<String>,
    pub query: String,
    pub category: Option<String>,
    pub base_url: String,
    pub phase: Phase,
    pub rows: Vec<ListingRow>,
    pub found: Vec<TorrentSearchResult>,
}

/// The result that a row becomes with its retrieval link.
pub open spec fn row_result(out: TorrentSearchResult, row: ListingRow, magnet: Seq<char>) -> bool {
    &&& out.name@ == row.name@
    &&& out.size@ == row.size@
    &&& out.seeders == row.seeders
    &&& out.leechers == row.leechers
    &&& out.magnet_link@ == magnet
    &&& out.source@ == "1337x"@
}

impl ScrapeSession {
    /// The session's invariant.
    pub open spec fn wf(&self) -> bool {
        match self.phase {
            Phase::Searching(i) => i < self.mirrors@.len() && self.rows@.len() == 0
                && self.found@.len() == 0,
            Phase::Resolving(n) => n < self.rows@.len() && self.found@.len() < MAX_SCRAPED,
            Phase::Finished => self.found@.len() <= MAX_SCRAPED,
        }
    }

    /// The search page of the mirror at index `i`.
    pub open spec fn search_page(&self, i: int) -> Seq<char> {
        search_page_text(self.mirrors@[i]@, self.query@, opt_view(self.category))
    }

    /// The detail page of the row at index `n`.
    pub open spec fn detail_page(&self, n: int) -> Seq<char> {
        self.base_url@ + self.rows@[n].href@
    }

    fn search_action(&self, i: usize) -> (r: ScrapeAction)
        requires
            i < self.mirrors@.len(),
        ensures
            r matches ScrapeAction::FetchSearch(u) && u@ == self.search_page(i as int),
    {
        let cat = match &self.category {
            Some(c) => Some(c.as_str()),
            None => None,
        };
        ScrapeAction::FetchSearch(
            search_page_url(self.mirrors[i].as_str(), self.query.as_str(), cat),
        )
    }

    fn detail_action(&self, n: usize) -> (r: ScrapeAction)
        requires
            n < self.rows@.len(),
        ensures
            r matches ScrapeAction::FetchDetail(u) && u@ == self.detail_page(n as int),
    {
        let mut url = self.base_url.clone();
        url.append(self.rows[n].href.as_str());
        ScrapeAction::FetchDetail(url)
    }

    /// Starts a search for `query` (in `category` where one is given): the
    /// first mirror's search page is asked for, or, with no mirror, the
    /// search is over with no result.
    pub fn start(mirrors: Vec<String>, query: String, category: Option<String>, base_url: String) -> (r: (ScrapeSession, ScrapeAction))
        ensures
            r.0.wf(),
            r.0.mirrors@ == mirrors@,
            r.0.query == query,
            r.0.category == category,
            r.0.base_url == base_url,
            r.0.found@.len() == 0,
            mirrors@.len() > 0 ==> r.0.phase == Phase::Searching(0) && (r.1 matches ScrapeAction::FetchSearch(u) && u@ == r.0.search_page(0)),
            mirrors@.len() == 0 ==> r.0.phase == Phase::Finished && r.1 is Finish,
    {
        let has_mirror = mirrors.len() > 0;
        let mut session = ScrapeSession {
            mirrors,
            query,
            category,
            base_url,
            phase: Phase::Finished,
            rows: Vec::new(),
            found: Vec::new(),
        };
        if has_mirror {
            session.phase = Phase::Searching(0);
            let action = session.search_action(0);
            (session, action)
        } else {
            (session, ScrapeAction::Finish)
        }
    }

    /// The search page of the current mirror failed: the next mirror's is
    /// asked for, or, after the last one, the search is over with no result.
    pub fn on_search_failed(&mut self) -> (r: ScrapeAction)
        requires
            old(self).wf(),
            old(self).phase is Searching,
        ensures
            final(self).wf(),
            final(self).mirrors == old(self).mirrors,
            final(self).query == old(self).query,
            final(self).category == old(self).category,
            final(self).base_url == old(self).base_url,
            final(self).found@.len() == 0,
            ({
                let i = old(self).phase->Searching_0;
                &&& i + 1 < old(self).mirrors@.len() ==> final(self).phase == Phase::Searching((i + 1) as usize)
                    && (r matches ScrapeAction::FetchSearch(u) && u@ == final(self).search_page(i + 1))
                &&& i + 1 >= old(self).mirrors@.len() ==> final(self).phase == Phase::Finished && r is Finish
            }),
    {
        let i = match self.phase {
            Phase::Searching(i) => i,
            _ => 0,
        };
        let count = self.mirrors.len();
        if i + 1 < count {
            self.phase = Phase::Searching(i + 1);
            self.search_action(i + 1)
        } else {
            self.phase = Phase::Finished;
            ScrapeAction::Finish
        }
    }

    /// The current mirror answered with `html`: no other mirror is asked
    /// again, and the page's rows are resolved in page order, whichever
    /// mirror it came from.
    pub fn on_search_page(&mut self, html: &str) -> (r: ScrapeAction)
        requires
            old(self).wf(),
            old(self).phase is Searching,
        ensures
            final(self).wf(),
            final(self).mirrors == old(self).mirrors,
            final(self).base_url == old(self).base_url,
            page_rows(final(self).rows@, html@),
            final(self).found@.len() == 0,
            final(self).rows@.len() > 0 ==> final(self).phase == Phase::Resolving(0)
                && (r matches ScrapeAction::FetchDetail(u) && u@ == final(self).detail_page(0)),
            final(self).rows@.len() == 0 ==> final(self).phase == Phase::Finished && r is Finish,
    {
        self.rows = listing_rows(html);
        if self.rows.len() > 0 {
            self.phase = Phase::Resolving(0);
            self.detail_action(0)
        } else {
            self.phase = Phase::Finished;
            ScrapeAction::Finish
        }
    }

    /// The detail page of the current row came back as `page` (`None` where
    /// it failed). The row becomes a result where the page holds a retrieval
    /// link; then the next row is asked for, unless `MAX_SCRAPED` results are
    /// found or no row is left. No search page is asked for again.
    pub fn on_detail(&mut self, page: Option<&str>) -> (r: ScrapeAction)
        requires
            old(self).wf(),
            old(self).phase is Resolving,
        ensures
            final(self).wf(),
            final(self).mirrors == old(self).mirrors,
            final(self).base_url == old(self).base_url,
            final(self).rows == old(self).rows,
            ({
                let n = old(self).phase->Resolving_0;
                let magnet = match page {
                    Some(h) => first_match_attr(h@, magnet_selector(), "href"@),
                    None => None,
                };
                &&& magnet is None ==> final(self).found@ == old(self).found@
                &&& magnet matches Some(m) ==> final(self).found@.len() == old(self).found@.len() + 1
                    && final(self).found@.drop_last() == old(self).found@
                    && row_result(final(self).found@.last(), old(self).rows@[n as int], m)
                &&& if final(self).found@.len() >= MAX_SCRAPED || n + 1 >= old(self).rows@.len() {
                    final(self).phase == Phase::Finished && r is Finish
                } else {
                    final(self).phase == Phase::Resolving((n + 1) as usize)
                        && (r matches ScrapeAction::FetchDetail(u) && u@ == final(self).detail_page(n + 1))
                }
            }),
    {
        let n = match self.phase {
            Phase::Resolving(n) => n,
            _ => 0,
        };
        let magnet = match page {
            Some(h) => magnet_on_page(h),
            None => None,
        };
        match magnet {
            Some(m) => {
                let row = &self.rows[n];
                let result = TorrentSearchResult {
                    name: row.name.clone(),
                    size: row.size.clone(),
                    seeders: row.seeders,
                    leechers: row.leechers,
                    magnet_link: m,
                    source: String::from_str("1337x"),
                };
                self.found.push(result);
            },
            None => {},
        }
        let count = self.rows.len();
        if self.found.len() >= MAX_SCRAPED || n + 1 >= count {
            self.phase = Phase::Finished;
            ScrapeAction::Finish
        } else {
            self.phase = Phase::Resolving(n + 1);
            self.detail_action(n + 1)
        }
    }

    /// The results found, in the order their rows stood on the page.
    pub fn into_results(self) -> (r: Vec<TorrentSearchResult>)
        ensures
            r@ == self.found@,
            r@.len() <= MAX_SCRAPED || !self.wf(),
    {
        self.found
    }
}

/// The site that detail links are resolved against.
pub const BASE_URL: &'static str = "https://1337x.to";

/// The mirrors tried, in order.
pub open spec fn mirror_list() -> Seq<Seq<char>> {
    seq!["https://1337x.to"@, "https://1337x.st"@, "https://x1337x.ws"@, "https://x1337x.eu"@]
}

/// The mirrors tried, in order.
pub fn default_mirrors() -> (r: Vec<String>)
    ensures
        r@.len() == mirror_list().len(),
        forall|i: int| 0 <= i < r@.len() ==> (#[trigger] r@[i])@ == mirror_list()[i],
{
    let r = vec![
        String::from_str("https://1337x.to"),
        String::from_str("https://1337x.st"),
        String::from_str("https://x1337x.ws"),
        String::from_str("https://x1337x.eu"),
    ];
    assert forall|i: int| 0 <= i < r@.len() implies (#[trigger] r@[i])@ == mirror_list()[i] by {}
    r
}

/// The categories the scraped provider knows, as pairs of a label and the
/// name the provider uses.
pub open spec fn category_table() -> Seq<(Seq<char>, Seq<char>)> {
    seq![
        ("Movies"@, "Movies"@),
        ("TV"@, "TV"@),
        ("Games"@, "Games"@),
        ("Music"@, "Music"@),
        ("Apps"@, "Applications"@),
        ("Anime"@, "Anime"@),
        ("Documentaries"@, "Documentaries"@),
        ("XXX"@, "XXX"@),
        ("Other"@, "Other"@),
    ]
}

/// The categories the scraped provider knows: a label and the name the
/// provider uses for each.
pub fn get_categories() -> (r: Vec<(&'static str, &'static str)>)
    ensures
        r@.len() == category_table().len(),
        forall|i: int| 0 <= i < r@.len() ==> (r@[i].0@, r@[i].1@) == #[trigger] category_table()[i],
{
    let r = vec![
        ("Movies", "Movies"),
        ("TV", "TV"),
        ("Games", "Games"),
        ("Music", "Music"),
        ("Apps", "Applications"),
        ("Anime", "Anime"),
        ("Documentaries", "Documentaries"),
        ("XXX", "XXX"),
        ("Other", "Other"),
    ];
    assert forall|i: int| 0 <= i < r@.len() implies (r@[i].0@, r@[i].1@) == #[trigger] category_table()[i] by {
    }
    r
}

} // verus!
