//! The interface state: modes, the search box with its recent searches, the
//! result and download lists, and how each key moves between them.

use vstd::prelude::*;
use vstd::string::*;
use crate::text::{contains_text, str_contains, push_char, without_last_char};
use crate::torrent_search::TorrentSearchResult;
use crate::aria2_client::TorrentStatus;

verus! {

/// What the interface is doing.
#[derive(PartialEq, Eq, Structural, Clone, Copy, Debug)]
pub enum AppMode {
    Normal,
    Search,
    Results,
    Searching,
}

/// A key press, as far as the interface tells keys apart.
#[derive(PartialEq, Eq, Structural, Clone, Copy, Debug)]
pub enum Key {
    Char(char),
    Enter,
    Esc,
    Backspace,
    Up,
    Down,
    Other,
}

/// How many recent searches show at once.
pub const RECENTS_SHOWN: usize = 5;

/// How many frames the loading animation has.
pub const LOADING_FRAMES: usize = 8;

pub struct App {
    pub mode: AppMode,
    pub search_query: String,
    pub search_results: Vec<TorrentSearchResult>,
    pub active_downloads: Vec<TorrentStatus>,
    pub selected_index: usize,
    pub search_history: Vec<String>,
    pub recents_index: usize,
    pub recents_offset: usize,
    pub filtered_recents: Vec<String>,
    pub should_quit: bool,
    pub search_in_progress: bool,
    pub status_message: String,
    pub selected_category: Option<String>,
    pub download_requested: bool,
    pub loading_frame: usize,
    pub search_progress: String,
}

/// The searches of `hist` that contain `q`, in their order.
pub open spec fn matching(hist: Seq<String>, q: Seq<char>) -> Seq<String>
    decreases hist.len(),
{
    if hist.len() == 0 {
        hist
    } else {
        let rest = matching(hist.drop_last(), q);
        if contains_text(hist.last()@, q) {
            rest.push(hist.last())
        } else {
            rest
        }
    }
}

/// The recent searches offered for the query `q`: all of them for an empty
/// query, else those that contain it.
pub open spec fn recents_for(hist: Seq<String>, q: Seq<char>) -> Seq<String> {
    if q.len() == 0 {
        hist
    } else {
        matching(hist, q)
    }
}

/// `idx` moved back inside a list of `len` entries.
pub open spec fn clamped(idx: usize, len: nat) -> usize {
    if idx >= len {
        if len == 0 {
            0
        } else {
            (len - 1) as usize
        }
    } else {
        idx
    }
}

/// The scroll offset kept at or before the selection `idx`.
pub open spec fn offset_for(offset: usize, idx: usize) -> usize {
    if offset > idx {
        if idx >= 4 {
            (idx - 4) as usize
        } else {
            0
        }
    } else {
        offset
    }
}

/// The next entry of a list of `len` entries, wrapping at the end.
pub open spec fn next_index(i: usize, len: nat) -> usize {
    ((i + 1) % (len as int)) as usize
}

/// The previous entry of a list of `len` entries, wrapping at the start.
pub open spec fn prev_index(i: usize, len: nat) -> usize {
    if i == 0 {
        (len - 1) as usize
    } else {
        (i - 1) as usize
    }
}

/// The progress messages shown while a search runs.
pub open spec fn progress_messages() -> Seq<Seq<char>> {
    seq![
        "Connecting to YTS movie database..."@,
        "Searching YTS for movies..."@,
        "Connecting to PirateBay API..."@,
        "Searching PirateBay torrents..."@,
        "Checking 1337x mirrors..."@,
        "Searching 1337x database..."@,
        "Sorting results by seeders..."@,
        "Finalizing search results..."@,
    ]
}

/// The frames of the loading animation.
pub open spec fn loading_frames() -> Seq<Seq<char>> {
    seq!["\u{280b}"@, "\u{2819}"@, "\u{2839}"@, "\u{2838}"@, "\u{283c}"@, "\u{2834}"@, "\u{2826}"@, "\u{2827}"@]
}

/// What a key does in the idle mode: quit, open the search box, or move
/// through the downloads.
pub open spec fn normal_key(a: App, b: App, key: Key) -> bool {
    &&& (key == Key::Char('q') ==> b.should_quit && b.mode == AppMode::Normal)
    &&& (key == Key::Char('s') ==> b.mode == AppMode::Search && b.recents_index
            == 0 && b.recents_offset == 0 && b.filtered_recents@
            == recents_for(a.search_history@, a.search_query@))
    &&& ((key == Key::Down || key == Key::Char('j')) && a.active_downloads@.len() > 0
            ==> b.selected_index == next_index(
            a.selected_index,
            a.active_downloads@.len()))
    &&& ((key == Key::Up || key == Key::Char('k')) && a.active_downloads@.len() > 0
            ==> b.selected_index == prev_index(
            a.selected_index,
            a.active_downloads@.len()))
    &&& (key != Key::Char('s') ==> b.mode == AppMode::Normal)
}

/// What a key does in the search box: edit the query (refreshing the
/// recent searches offered), move through them, start the search, or leave.
pub open spec fn search_key(a: App, b: App, key: Key) -> bool {
    &&& (key == Key::Esc ==> b.mode == AppMode::Normal && b.search_query@.len()
            == 0 && b.filtered_recents@.len() == 0)
    &&& (key == Key::Enter ==> {
            let q = if a.recents_index < a.filtered_recents@.len() {
                a.filtered_recents@[a.recents_index as int]
            } else {
                a.search_query
            };
            &&& b.search_query == q
            &&& q@.len() > 0 ==> b.mode == AppMode::Searching
                && b.search_in_progress
            &&& q@.len() == 0 ==> b.mode == AppMode::Search
        })
    &&& (key == Key::Backspace ==> b.mode == AppMode::Search && b.search_query@
            == (if a.search_query@.len() == 0 {
            a.search_query@
        } else {
            a.search_query@.drop_last()
        }) && b.filtered_recents@ == recents_for(
            a.search_history@,
            b.search_query@))
    &&& (key matches Key::Char(c) ==> b.mode == AppMode::Search
            && b.search_query@ == a.search_query@.push(c)
            && b.filtered_recents@ == recents_for(
            a.search_history@,
            b.search_query@))
    &&& (key == Key::Up ==> b == (App {
        recents_index: recents_up(a).0,
        recents_offset: recents_up(a).1,
        ..a
    }))
    &&& (key == Key::Down ==> b == (App {
        recents_index: recents_down(a).0,
        recents_offset: recents_down(a).1,
        ..a
    }))
}

/// The selection and scroll offset among the recent searches after `Up`:
/// one entry up unless at the top, scrolling to keep it in view.
pub open spec fn recents_up(a: App) -> (usize, usize) {
    if a.recents_index > 0 {
        let i = (a.recents_index - 1) as usize;
        (i, if i < a.recents_offset {
            i
        } else {
            a.recents_offset
        })
    } else {
        (a.recents_index, a.recents_offset)
    }
}

/// The selection and scroll offset among the recent searches after `Down`:
/// one entry down unless at the bottom (or the list is empty), scrolling so
/// that at most `RECENTS_SHOWN` entries lie from the offset to the selection.
pub open spec fn recents_down(a: App) -> (usize, usize) {
    if a.recents_index + 1 < a.filtered_recents@.len() {
        let i = (a.recents_index + 1) as usize;
        (i, if i >= a.recents_offset && i - a.recents_offset >= RECENTS_SHOWN {
            (i - 4) as usize
        } else {
            a.recents_offset
        })
    } else {
        (a.recents_index, a.recents_offset)
    }
}

/// What a key does in the result list: move through it, ask for the
/// download of the selected result, or leave.
pub open spec fn results_key(a: App, b: App, key: Key) -> bool {
    &&& (key == Key::Esc ==> b.mode == AppMode::Normal && b.search_results@.len()
            == 0 && b.selected_index == 0)
    &&& (key != Key::Esc ==> b.mode == AppMode::Results && b.search_results
            == a.search_results)
    &&& (key == Key::Enter ==> b.download_requested == (a.download_requested
            || a.search_results@.len() > 0))
    &&& ((key == Key::Down || key == Key::Char('j')) && a.search_results@.len() > 0
            ==> b.selected_index == next_index(
            a.selected_index,
            a.search_results@.len()))
    &&& ((key == Key::Up || key == Key::Char('k')) && a.search_results@.len() > 0
            ==> b.selected_index == prev_index(
            a.selected_index,
            a.search_results@.len()))
}

/// What a key does while a search runs: only `Esc` does anything, and
/// cancels it.
pub open spec fn searching_key(a: App, b: App, key: Key) -> bool {
    &&& (key == Key::Esc ==> b.mode == AppMode::Normal && !b.search_in_progress
            && b.status_message@ == "Search cancelled"@)
    &&& (key != Key::Esc ==> b.mode == AppMode::Searching
            && b.search_in_progress == a.search_in_progress
            && b.status_message == a.status_message)
}

fn copy_strings(v: &Vec<String>) -> (r: Vec<String>)
    ensures
        r@ == v@,
{
    let mut out: Vec<String> = Vec::new();
    let mut i: usize = 0;
    while i < v.len()
        invariant
            i <= v@.len(),
            out@ == v@.take(i as int),
        decreases v@.len() - i,
    {
        out.push(v[i].clone());
        i = i + 1;
        assert(out@ =~= v@.take(i as int));
    }
    assert(v@.take(v@.len() as int) =~= v@);
    out
}

/// Whether some string of `v` reads `t`.
pub open spec fn has_text(v: Seq<String>, t: Seq<char>) -> bool {
    exists|k: int| 0 <= k < v.len() && (#[trigger] v[k])@ == t
}

fn contains_string(v: &Vec<String>, s: &String) -> (r: bool)
    ensures
        r == has_text(v@, s@),
{
    let mut i: usize = 0;
    while i < v.len()
        invariant
            i <= v@.len(),
            forall|k: int| 0 <= k < i ==> (#[trigger] v@[k])@ != s@,
        decreases v@.len() - i,
    {
        if v[i] == *s {
            assert(v@[i as int]@ == s@);
            return true;
        }
        i = i + 1;
    }
    false
}

impl App {
    /// The invariant the interface keeps.
    pub open spec fn wf(&self) -> bool {
        self.loading_frame < LOADING_FRAMES
    }

    /// An idle interface with `history` as its recent searches.
    pub fn with_history(history: Vec<String>) -> (r: App)
        ensures
            r.wf(),
            r.mode == AppMode::Normal,
            r.search_query@.len() == 0,
            r.search_results@.len() == 0,
            r.active_downloads@.len() == 0,
            r.search_history@ == history@,
            r.filtered_recents@ == history@,
            r.selected_index == 0 && r.recents_index == 0 && r.recents_offset == 0,
            !r.should_quit && !r.search_in_progress && !r.download_requested,
            r.status_message@ == "Starting up..."@,
            r.selected_category is None,
            r.loading_frame == 0,
            r.search_progress@.len() == 0,
    {
        let filtered_recents = copy_strings(&history);
        App {
            mode: AppMode::Normal,
            search_query: String::new(),
            search_results: Vec::new(),
            active_downloads: Vec::new(),
            selected_index: 0,
            search_history: history,
            recents_index: 0,
            recents_offset: 0,
            filtered_recents,
            should_quit: false,
            search_in_progress: false,
            status_message: String::from_str("Starting up..."),
            selected_category: None,
            download_requested: false,
            loading_frame: 0,
            search_progress: String::new(),
        }
    }

    /// An idle interface with no recent searches.
    pub fn new() -> (r: App)
        ensures
            r.wf(),
            r.mode == AppMode::Normal,
            r.search_query@.len() == 0,
            r.search_results@.len() == 0,
            r.search_history@.len() == 0,
            r.filtered_recents@.len() == 0,
            !r.should_quit && !r.search_in_progress && !r.download_requested,
            r.loading_frame == 0,
    {
        App::with_history(Vec::new())
    }

    /// A search begins: the interface waits on it with an empty result list.
    pub fn start_search(&mut self)
        ensures
            final(self).mode == AppMode::Searching,
            final(self).search_in_progress,
            final(self).status_message@ == "Initializing search across multiple sources..."@,
            final(self).search_progress@ == "Starting search..."@,
            final(self).search_results@.len() == 0,
            final(self).selected_index == 0,
            final(self).loading_frame == 0,
            final(self).wf(),
            final(self).search_query == old(self).search_query,
            final(self).search_history == old(self).search_history,
    {
        self.mode = AppMode::Searching;
        self.search_in_progress = true;
        self.status_message = String::from_str("Initializing search across multiple sources...");
        self.search_progress = String::from_str("Starting search...");
        self.search_results = Vec::new();
        self.selected_index = 0;
        self.loading_frame = 0;
    }

    /// Adds `term` to the recent searches unless it is there already;
    /// returns whether it was added (and so is to be stored).
    pub fn add_to_search_history(&mut self, term: String) -> (added: bool)
        ensures
            added == !has_text(old(self).search_history@, term@),
            added ==> final(self).search_history@ == old(self).search_history@.push(term),
            !added ==> final(self).search_history@ == old(self).search_history@,
            final(self).mode == old(self).mode,
            final(self).loading_frame == old(self).loading_frame,
            final(self).search_query == old(self).search_query,
    {
        if contains_string(&self.search_history, &term) {
            false
        } else {
            self.search_history.push(term);
            true
        }
    }

    /// A search came back with `results`: they are shown, and the query
    /// joins the recent searches. Returns whether it was new there.
    pub fn finish_search(&mut self, results: Vec<TorrentSearchResult>) -> (added: bool)
        ensures
            !final(self).search_in_progress,
            final(self).search_results@ == results@,
            final(self).mode == AppMode::Results,
            final(self).status_message@ == "Found "@ + crate::text::decimal(results@.len()) + " results"@,
            final(self).selected_index == 0,
            added == (old(self).search_query@.len() > 0 && !has_text(
                old(self).search_history@,
                old(self).search_query@,
            )),
            added ==> final(self).search_history@ == old(self).search_history@.push(
                old(self).search_query,
            ),
            !added ==> final(self).search_history@ == old(self).search_history@,
            final(self).loading_frame == old(self).loading_frame,
    {
        let added = if self.search_query.as_str().unicode_len() > 0 {
            let q = self.search_query.clone();
            self.add_to_search_history(q)
        } else {
            false
        };
        self.search_in_progress = false;
        let n = results.len();
        self.search_results = results;
        self.mode = AppMode::Results;
        let mut msg = String::from_str("Found ");
        crate::text::push_decimal(&mut msg, n as u128);
        msg.append(" results");
        self.status_message = msg;
        self.selected_index = 0;
        added
    }

    /// A search failed with `error`: the interface is idle again and says so.
    pub fn search_error(&mut self, error: String)
        ensures
            !final(self).search_in_progress,
            final(self).mode == AppMode::Normal,
            final(self).status_message@ == "Search failed: "@ + error@,
            final(self).loading_frame == old(self).loading_frame,
    {
        self.search_in_progress = false;
        self.mode = AppMode::Normal;
        let mut msg = String::from_str("Search failed: ");
        msg.append(error.as_str());
        self.status_message = msg;
    }

    /// Advances the loading animation one frame while a search runs.
    pub fn update_loading_animation(&mut self)
        requires
            old(self).wf(),
        ensures
            final(self).wf(),
            old(self).search_in_progress ==> final(self).loading_frame == (old(self).loading_frame
                + 1) % (LOADING_FRAMES as int) && final(self).search_progress@
                == progress_messages()[(final(self).loading_frame / 4) as int],
            old(self).search_in_progress ==> *final(self) == (App {
                loading_frame: final(self).loading_frame,
                search_progress: final(self).search_progress,
                ..*old(self)
            }),
            !old(self).search_in_progress ==> *final(self) == *old(self),
    {
        if self.search_in_progress {
            self.loading_frame = (self.loading_frame + 1) % LOADING_FRAMES;
            let messages = [
                "Connecting to YTS movie database...",
                "Searching YTS for movies...",
                "Connecting to PirateBay API...",
                "Searching PirateBay torrents...",
                "Checking 1337x mirrors...",
                "Searching 1337x database...",
                "Sorting results by seeders...",
                "Finalizing search results...",
            ];
            let message_index = (self.loading_frame / 4) % 8;
            self.search_progress = String::from_str(messages[message_index]);
        }
    }

    /// The current frame of the loading animation.
    pub fn get_loading_indicator(&self) -> (r: &'static str)
        requires
            self.wf(),
        ensures
            r@ == loading_frames()[self.loading_frame as int],
    {
        let frames = ["\u{280b}", "\u{2819}", "\u{2839}", "\u{2838}", "\u{283c}", "\u{2834}", "\u{2826}", "\u{2827}"];
        frames[self.loading_frame]
    }

    /// Recomputes the recent searches offered for the current query, and
    /// keeps the selection and scroll offset inside them.
    pub fn filter_recents(&mut self)
        ensures
            final(self).filtered_recents@ == recents_for(old(self).search_history@, old(self).search_query@),
            final(self).recents_index == clamped(old(self).recents_index, final(self).filtered_recents@.len()),
            final(self).recents_offset == offset_for(old(self).recents_offset, final(self).recents_index),
            final(self).search_history == old(self).search_history,
            final(self).search_query == old(self).search_query,
            final(self).mode == old(self).mode,
            final(self).loading_frame == old(self).loading_frame,
            final(self).search_in_progress == old(self).search_in_progress,
            final(self).search_results == old(self).search_results,
    {
        if self.search_query.as_str().unicode_len() == 0 {
            self.filtered_recents = copy_strings(&self.search_history);
        } else {
            let mut out: Vec<String> = Vec::new();
            let mut i: usize = 0;
            let ghost hist = self.search_history@;
            let ghost q = self.search_query@;
            while i < self.search_history.len()
                invariant
                    i <= hist.len(),
                    hist == self.search_history@,
                    q == self.search_query@,
                    out@ == matching(hist.take(i as int), q),
                decreases hist.len() - i,
            {
                assert(hist.take(i + 1).drop_last() =~= hist.take(i as int));
                assert(hist.take(i + 1).last() == hist[i as int]);
                if str_contains(self.search_history[i].as_str(), self.search_query.as_str()) {
                    out.push(self.search_history[i].clone());
                }
                i = i + 1;
            }
            assert(hist.take(hist.len() as int) =~= hist);
            self.filtered_recents = out;
        }
        let len = self.filtered_recents.len();
        if self.recents_index >= len {
            self.recents_index = if len == 0 {
                0
            } else {
                len - 1
            };
        }
        if self.recents_offset > self.recents_index {
            self.recents_offset = if self.recents_index >= 4 {
                self.recents_index - 4
            } else {
                0
            };
        }
    }

    /// Handles a key in the current mode.
    pub fn handle_key(&mut self, key: Key)
        requires
            old(self).wf(),
        ensures
            final(self).wf(),
            old(self).mode == AppMode::Normal ==> normal_key(*old(self), *final(self), key),
            old(self).mode == AppMode::Search ==> search_key(*old(self), *final(self), key),
            old(self).mode == AppMode::Results ==> results_key(*old(self), *final(self), key),
            old(self).mode == AppMode::Searching ==> searching_key(*old(self), *final(self), key),
    {
        match self.mode {
            AppMode::Normal => self.handle_normal_mode(key),
            AppMode::Search => self.handle_search_mode(key),
            AppMode::Results => self.handle_results_mode(key),
            AppMode::Searching => self.handle_searching_mode(key),
        }
    }

    fn handle_normal_mode(&mut self, key: Key)
        requires
            old(self).wf(),
            old(self).mode == AppMode::Normal,
        ensures
            final(self).wf(),
            normal_key(*old(self), *final(self), key),
    {
        match key {
            Key::Char('q') => {
                self.should_quit = true;
            },
            Key::Char('s') => {
                self.mode = AppMode::Search;
                self.filter_recents();
                self.recents_index = 0;
                self.recents_offset = 0;
            },
            Key::Down | Key::Char('j') => {
                let len = self.active_downloads.len();
                if len > 0 {
                    self.selected_index = (self.selected_index % len + 1) % len;
                    proof {
                        lemma_next_index(old(self).selected_index, len);
                    }
                }
            },
            Key::Up | Key::Char('k') => {
                let len = self.active_downloads.len();
                if len > 0 {
                    self.selected_index = if self.selected_index == 0 {
                        len - 1
                    } else {
                        self.selected_index - 1
                    };
                }
            },
            _ => {},
        }
    }

    fn handle_search_mode(&mut self, key: Key)
        requires
            old(self).wf(),
            old(self).mode == AppMode::Search,
        ensures
            final(self).wf(),
            search_key(*old(self), *final(self), key),
    {
        match key {
            Key::Esc => {
                self.mode = AppMode::Normal;
                self.search_query = String::new();
                self.filtered_recents = Vec::new();
            },
            Key::Enter => {
                if self.recents_index < self.filtered_recents.len() {
                    self.search_query = self.filtered_recents[self.recents_index].clone();
                }
                if self.search_query.as_str().unicode_len() > 0 {
                    self.start_search();
                }
            },
            Key::Backspace => {
                self.search_query = without_last_char(&self.search_query);
                self.filter_recents();
            },
            Key::Up => {
                if self.recents_index > 0 {
                    self.recents_index = self.recents_index - 1;
                    if self.recents_index < self.recents_offset {
                        self.recents_offset = self.recents_index;
                    }
                }
            },
            Key::Down => {
                let len = self.filtered_recents.len();
                if len > 0 && self.recents_index < len - 1 {
                    self.recents_index = self.recents_index + 1;
                    if self.recents_index >= self.recents_offset && self.recents_index
                        - self.recents_offset >= RECENTS_SHOWN {
                        self.recents_offset = self.recents_index - 4;
                    }
                }
            },
            Key::Char(c) => {
                push_char(&mut self.search_query, c);
                self.filter_recents();
            },
            _ => {},
        }
    }

    fn handle_results_mode(&mut self, key: Key)
        requires
            old(self).wf(),
            old(self).mode == AppMode::Results,
        ensures
            final(self).wf(),
            results_key(*old(self), *final(self), key),
    {
        match key {
            Key::Esc => {
                self.mode = AppMode::Normal;
                self.search_results = Vec::new();
                self.selected_index = 0;
            },
            Key::Enter => {
                if self.search_results.len() > 0 {
                    self.download_requested = true;
                }
            },
            Key::Down | Key::Char('j') => {
                let len = self.search_results.len();
                if len > 0 {
                    self.selected_index = (self.selected_index % len + 1) % len;
                    proof {
                        lemma_next_index(old(self).selected_index, len);
                    }
                }
            },
            Key::Up | Key::Char('k') => {
                let len = self.search_results.len();
                if len > 0 {
                    self.selected_index = if self.selected_index == 0 {
                        len - 1
                    } else {
                        self.selected_index - 1
                    };
                }
            },
            _ => {},
        }
    }

    fn handle_searching_mode(&mut self, key: Key)
        requires
            old(self).wf(),
            old(self).mode == AppMode::Searching,
        ensures
            final(self).wf(),
            searching_key(*old(self), *final(self), key),
    {
        match key {
            Key::Esc => {
                self.search_in_progress = false;
                self.mode = AppMode::Normal;
                self.status_message = String::from_str("Search cancelled");
            },
            _ => {},
        }
    }
}

proof fn lemma_next_index(i: usize, len: usize)
    requires
        len > 0,
    ensures
        ((i as int % len as int) + 1) % (len as int) == (i + 1) % (len as int),
{
    vstd::arithmetic::div_mod::lemma_add_mod_noop(i as int, 1, len as int);
    if len == 1 {
        assert(1int % 1 == 0);
    } else {
        vstd::arithmetic::div_mod::lemma_small_mod(1, len as nat);
    }
}

} // verus!
