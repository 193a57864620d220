//! The state machine behind the interactive front-end: the application
//! model, key handling, engine-event handling, list navigation, the line
//! editors of the dialogs, chunk-map derivation and the sparkline. The
//! shell renders this state and performs the returned actions; nothing
//! here touches a terminal or the engine.

use vstd::prelude::*;

verus! {

use crate::commands::DownloadEvent;
use crate::config::CliConfig;
use crate::format::DownloadState;
use crate::id::DownloadId;
use crate::status::{DownloadStatus, GlobalStats};
use crate::util::{chars_to_string, string_chars};
use vstd::string::StringExecFns;

/// A key press, as the shell reports it.
#[derive(Debug, Clone, Copy, PartialEq, Eq, Structural)]
pub struct KeyInput {
    /// Which key.
    pub code: KeyCode,
    /// Whether control was held.
    pub ctrl: bool,
}

/// The keys the interface reacts to.
#[derive(Debug, Clone, Copy, PartialEq, Eq, Structural)]
pub enum KeyCode {
    Esc,
    Enter,
    Backspace,
    Left,
    Right,
    Up,
    Down,
    PageUp,
    PageDown,
    Tab,
    Char(char),
    Other,
}

/// Which downloads the list shows.
#[derive(Debug, Clone, Copy, PartialEq, Eq, Structural)]
pub enum ViewMode {
    All,
    Active,
    Completed,
}

/// The layout chosen from the terminal size.
#[derive(Debug, Clone, Copy, PartialEq, Eq, Structural)]
pub enum LayoutMode {
    TwoColumn,
    SingleColumn,
    Minimal,
}

/// Which right panel has focus in two-column mode.
#[derive(Debug, Clone, Copy, PartialEq, Eq, Structural)]
pub enum RightPanelFocus {
    Graph,
    Details,
    ChunkMap,
}

/// What the search filter matches against.
#[derive(Debug, Clone, Copy, PartialEq, Eq, Structural)]
pub enum SearchScope {
    All,
    Name,
    Url,
    State,
}

impl SearchScope {
    /// The label of the scope.
    pub fn label(&self) -> (r: &'static str)
        ensures
            *self == SearchScope::All ==> r@ == "All"@,
            *self == SearchScope::Name ==> r@ == "Name"@,
            *self == SearchScope::Url ==> r@ == "URL"@,
            *self == SearchScope::State ==> r@ == "State"@,
    {
        match self {
            SearchScope::All => "All",
            SearchScope::Name => "Name",
            SearchScope::Url => "URL",
            SearchScope::State => "State",
        }
    }

    /// The next scope in the cycle.
    pub fn next(&self) -> (r: SearchScope)
        ensures
            *self == SearchScope::All ==> r == SearchScope::Name,
            *self == SearchScope::Name ==> r == SearchScope::Url,
            *self == SearchScope::Url ==> r == SearchScope::State,
            *self == SearchScope::State ==> r == SearchScope::All,
    {
        match self {
            SearchScope::All => SearchScope::Name,
            SearchScope::Name => SearchScope::Url,
            SearchScope::Url => SearchScope::State,
            SearchScope::State => SearchScope::All,
        }
    }
}

/// The live search filter.
#[derive(Debug, Clone)]
pub struct SearchState {
    /// The query, as typed.
    pub query: String,
    /// The cursor, in characters.
    pub cursor: usize,
    /// What the query matches against.
    pub scope: SearchScope,
}

impl SearchState {
    /// An empty search over everything.
    pub fn empty() -> (r: SearchState)
        ensures
            r.query@ == Seq::<char>::empty(),
            r.cursor == 0,
            r.scope == SearchScope::All,
    {
        SearchState { query: String::new(), cursor: 0, scope: SearchScope::All }
    }
}

/// The rendering state of one chunk of the selected download.
#[derive(Debug, Clone, Copy, PartialEq, Eq, Structural)]
pub enum ChunkState {
    Pending,
    Downloading,
    Complete,
    Failed,
}

/// The weight of an activity entry.
#[derive(Debug, Clone, Copy, PartialEq, Eq, Structural)]
pub enum ActivityLevel {
    Info,
    Success,
    Warning,
    Error,
}

/// One line of the activity log.
#[derive(Debug, Clone)]
pub struct ActivityEntry {
    /// When it was logged, in milliseconds of the shell clock.
    pub tick: u64,
    /// Its weight.
    pub level: ActivityLevel,
    /// The message.
    pub message: String,
}

/// The weight of a toast notification.
#[derive(Debug, Clone, Copy, PartialEq, Eq, Structural)]
pub enum ToastLevel {
    Success,
    Error,
}

/// A transient notification.
#[derive(Debug, Clone)]
pub struct Toast {
    /// The message.
    pub message: String,
    /// Its weight.
    pub level: ToastLevel,
    /// When it appeared, in milliseconds of the shell clock.
    pub created_tick: u64,
}

/// One line of the batch import review.
#[derive(Debug, Clone)]
pub struct BatchEntry {
    /// The URL as entered.
    pub url: String,
    /// Whether it parsed.
    pub valid: bool,
    /// Whether it is selected for adding.
    pub selected: bool,
    /// The kind label shown.
    pub kind: String,
    /// The parse error, when invalid.
    pub error: Option<String>,
}

/// The two phases of the batch import dialog.
#[derive(Debug, Clone)]
pub enum BatchPhase {
    /// Free text entry, one URL per line.
    Input { lines: Vec<String>, cursor_line: usize, cursor_col: usize },
    /// Reviewing the parsed entries.
    Review { entries: Vec<BatchEntry>, selected: usize },
}

/// The dialog in front of the main view, when one is open.
#[derive(Debug, Clone)]
pub enum DialogState {
    /// Entering one URL to add.
    AddUrl { input: String, cursor: usize },
    /// Confirming a cancel.
    ConfirmCancel { id: DownloadId, delete_files: bool },
    /// Showing an error.
    Error { message: String },
    /// Editing the settings draft.
    Settings {
        active_tab: usize,
        selected_row: usize,
        editing: Option<String>,
        draft: CliConfig,
        dirty: bool,
    },
    /// Importing many URLs.
    BatchImport { phase: BatchPhase },
}

/// What the shell must do after a key: each action is performed outside
/// and the model is told the outcome.
#[derive(Debug, Clone)]
pub enum UiAction {
    /// Leave the interface.
    Quit,
    /// Add one download.
    Add { url: String },
    /// Pause a download.
    Pause { id: DownloadId },
    /// Resume a download.
    Resume { id: DownloadId },
    /// Cancel a download, optionally deleting its files.
    Cancel { id: DownloadId, delete_files: bool },
    /// Persist and apply the model's configuration.
    ApplySettings,
    /// Parse the batch lines and call `enter_batch_review`.
    ParseBatch { lines: Vec<String> },
    /// Refresh the download list from the engine.
    Refresh,
}

/// Insertion of one character at a character index: the cursor advances
/// past it.
pub open spec fn spec_edit_insert(text: Seq<char>, cursor: nat, c: char) -> (Seq<char>, nat) {
    let k = if cursor <= text.len() {
        cursor as int
    } else {
        text.len() as int
    };
    (text.take(k) + seq![c] + text.skip(k), cursor + 1)
}

/// Insert one character into a line editor.
pub fn edit_insert(text: &String, cursor: usize, c: char) -> (r: (String, usize))
    requires
        cursor <= text@.len(),
        cursor < usize::MAX,
    ensures
        (r.0@, r.1 as nat) == spec_edit_insert(text@, cursor as nat, c),
{
    let cs = string_chars(text.as_str());
    let mut out: Vec<char> = Vec::new();
    let mut i: usize = 0;
    while i < cursor
        invariant
            i <= cursor <= cs@.len(),
            cs@ == text@,
            out@ == cs@.take(i as int),
        decreases cursor - i,
    {
        out.push(cs[i]);
        proof {
            assert(cs@.take(i + 1) =~= cs@.take(i as int).push(cs@[i as int]));
        }
        i = i + 1;
    }
    out.push(c);
    let mut j: usize = cursor;
    while j < cs.len()
        invariant
            cursor <= j <= cs@.len(),
            cs@ == text@,
            out@ == cs@.take(cursor as int) + seq![c] + cs@.subrange(cursor as int, j as int),
        decreases cs@.len() - j,
    {
        out.push(cs[j]);
        proof {
            assert(cs@.subrange(cursor as int, j + 1) =~= cs@.subrange(
                cursor as int,
                j as int,
            ).push(cs@[j as int]));
            assert(out@ =~= cs@.take(cursor as int) + seq![c] + cs@.subrange(
                cursor as int,
                j + 1,
            ));
        }
        j = j + 1;
    }
    proof {
        assert(cs@.subrange(cursor as int, cs@.len() as int) =~= cs@.skip(cursor as int));
        assert(out@ =~= text@.take(cursor as int) + seq![c] + text@.skip(cursor as int));
    }
    (chars_to_string(&out), cursor + 1)
}

/// Deletion of the character before the cursor, when there is one.
pub open spec fn spec_edit_backspace(text: Seq<char>, cursor: nat) -> (Seq<char>, nat) {
    if cursor == 0 {
        (text, 0nat)
    } else {
        let k = cursor - 1;
        (text.take(k) + text.skip(k + 1), k as nat)
    }
}

/// Delete the character before the cursor.
pub fn edit_backspace(text: &String, cursor: usize) -> (r: (String, usize))
    requires
        0 < cursor <= text@.len(),
    ensures
        (r.0@, r.1 as nat) == spec_edit_backspace(text@, cursor as nat),
{
    let cs = string_chars(text.as_str());
    let mut out: Vec<char> = Vec::new();
    let mut i: usize = 0;
    while i < cursor - 1
        invariant
            i <= cursor - 1,
            cursor <= cs@.len(),
            cs@ == text@,
            out@ == cs@.take(i as int),
        decreases cursor - 1 - i,
    {
        out.push(cs[i]);
        proof {
            assert(cs@.take(i + 1) =~= cs@.take(i as int).push(cs@[i as int]));
        }
        i = i + 1;
    }
    let mut j: usize = cursor;
    while j < cs.len()
        invariant
            cursor <= j <= cs@.len(),
            cs@ == text@,
            out@ == cs@.take(cursor - 1) + cs@.subrange(cursor as int, j as int),
        decreases cs@.len() - j,
    {
        out.push(cs[j]);
        proof {
            assert(cs@.subrange(cursor as int, j + 1) =~= cs@.subrange(
                cursor as int,
                j as int,
            ).push(cs@[j as int]));
            assert(out@ =~= cs@.take(cursor - 1) + cs@.subrange(cursor as int, j + 1));
        }
        j = j + 1;
    }
    proof {
        assert(cs@.subrange(cursor as int, cs@.len() as int) =~= cs@.skip(cursor as int));
        assert(out@ =~= text@.take(cursor - 1) + text@.skip(cursor as int));
    }
    (chars_to_string(&out), cursor - 1)
}

/// The interface model: everything the renderer draws and the key
/// handler updates.
#[derive(Debug, Clone)]
pub struct TuiApp {
    /// Which downloads the list shows.
    pub mode: ViewMode,
    /// The cached download list.
    pub downloads: Vec<DownloadStatus>,
    /// The selected row.
    pub selected: usize,
    /// The scroll offset of the list.
    pub scroll_offset: usize,
    /// The last known visible height of the list.
    pub last_visible_height: usize,
    /// Download and upload speed samples, oldest first, at most sixty.
    pub speed_history: Vec<(u64, u64)>,
    /// Whether the help overlay is shown.
    pub show_help: bool,
    /// The open dialog, when one is.
    pub dialog: Option<DialogState>,
    /// Global download speed.
    pub download_speed: u64,
    /// Global upload speed.
    pub upload_speed: u64,
    /// Active toasts, oldest first, at most five.
    pub toasts: Vec<Toast>,
    /// The layout chosen from the terminal size.
    pub layout_mode: LayoutMode,
    /// Terminal width.
    pub terminal_width: u16,
    /// Terminal height.
    pub terminal_height: u16,
    /// Which right panel has focus.
    pub right_panel_focus: RightPanelFocus,
    /// The live search, when open.
    pub search: Option<SearchState>,
    /// Highest download speed seen.
    pub peak_download_speed: u64,
    /// Highest upload speed seen.
    pub peak_upload_speed: u64,
    /// The chunk map of the selected download.
    pub chunk_states: Vec<ChunkState>,
    /// How many chunks the selected download has.
    pub chunk_count: usize,
    /// The activity log, oldest first, at most five hundred.
    pub activity_log: Vec<ActivityEntry>,
    /// Whether the activity log panel is shown.
    pub show_activity_log: bool,
    /// The scroll offset of the activity log.
    pub activity_log_scroll: usize,
    /// Whether the interface should exit.
    pub should_quit: bool,
    /// The applied configuration.
    pub config: CliConfig,
}

/// The sequence with the elements at `a` and `b` exchanged.
pub open spec fn swapped<T>(s: Seq<T>, a: int, b: int) -> Seq<T>
    recommends
        0 <= a < s.len(),
        0 <= b < s.len(),
{
    s.update(a, s[b]).update(b, s[a])
}

/// The layout a terminal size calls for.
pub open spec fn spec_layout(w: u16, h: u16) -> LayoutMode {
    if w >= 100 && h >= 24 {
        LayoutMode::TwoColumn
    } else if w >= 80 && h >= 20 {
        LayoutMode::SingleColumn
    } else {
        LayoutMode::Minimal
    }
}

/// The scroll offset that keeps the selection visible within the height.
pub open spec fn spec_adjust_scroll(
    total: nat,
    selected: nat,
    offset: nat,
    height: nat,
) -> nat {
    let up = if selected < offset {
        selected
    } else if selected >= offset + height {
        (selected + 1 - height) as nat
    } else {
        offset
    };
    if total <= height {
        0
    } else if up > total - height {
        (total - height) as nat
    } else {
        up
    }
}

impl TuiApp {
    /// A fresh model over the given configuration, terminal size and
    /// download list.
    pub fn new(config: CliConfig, width: u16, height: u16, downloads: Vec<DownloadStatus>) -> (r:
        TuiApp)
        ensures
            r.mode == ViewMode::All,
            r.downloads@ == downloads@,
            r.selected == 0,
            r.scroll_offset == 0,
            r.last_visible_height == 20,
            r.show_help == false,
            r.dialog is None,
            r.layout_mode == spec_layout(width, height),
            r.search is None,
            r.should_quit == false,
    {
        let layout_mode = if width >= 100 && height >= 24 {
            LayoutMode::TwoColumn
        } else if width >= 80 && height >= 20 {
            LayoutMode::SingleColumn
        } else {
            LayoutMode::Minimal
        };
        TuiApp {
            mode: ViewMode::All,
            downloads,
            selected: 0,
            scroll_offset: 0,
            last_visible_height: 20,
            speed_history: Vec::new(),
            show_help: false,
            dialog: None,
            download_speed: 0,
            upload_speed: 0,
            toasts: Vec::new(),
            layout_mode,
            terminal_width: width,
            terminal_height: height,
            right_panel_focus: RightPanelFocus::Details,
            search: None,
            peak_download_speed: 0,
            peak_upload_speed: 0,
            chunk_states: Vec::new(),
            chunk_count: 0,
            activity_log: Vec::new(),
            show_activity_log: false,
            activity_log_scroll: 0,
            should_quit: false,
            config,
        }
    }

    /// Re-read the layout from the terminal size.
    pub fn detect_layout_mode(&mut self)
        ensures
            final(self).layout_mode == spec_layout(old(self).terminal_width, old(self).terminal_height),
            *final(self) == (TuiApp { layout_mode: final(self).layout_mode, ..*old(self) }),
    {
        self.layout_mode = if self.terminal_width >= 100 && self.terminal_height >= 24 {
            LayoutMode::TwoColumn
        } else if self.terminal_width >= 80 && self.terminal_height >= 20 {
            LayoutMode::SingleColumn
        } else {
            LayoutMode::Minimal
        };
    }

    /// Note a new terminal size and adapt the layout.
    pub fn resize(&mut self, width: u16, height: u16)
        ensures
            final(self).terminal_width == width,
            final(self).terminal_height == height,
            final(self).layout_mode == spec_layout(width, height),
            *final(self) == (TuiApp {
                terminal_width: width,
                terminal_height: height,
                layout_mode: final(self).layout_mode,
                ..*old(self)
            }),
    {
        self.terminal_width = width;
        self.terminal_height = height;
        self.detect_layout_mode();
    }

    /// Keep the selection visible within the given height.
    pub fn adjust_scroll(&mut self, visible_height: usize)
        requires
            old(self).selected < usize::MAX,
        ensures
            (final(self).scroll_offset as nat) == spec_adjust_scroll(
                old(self).downloads@.len(),
                old(self).selected as nat,
                old(self).scroll_offset as nat,
                visible_height as nat,
            ),
            *final(self) == (TuiApp { scroll_offset: final(self).scroll_offset, ..*old(self) }),
    {
        let total = self.downloads.len();
        if self.selected < self.scroll_offset {
            self.scroll_offset = self.selected;
        } else if self.selected - self.scroll_offset >= visible_height {
            self.scroll_offset = self.selected + 1 - visible_height;
        }
        if total <= visible_height {
            self.scroll_offset = 0;
        } else if self.scroll_offset > total - visible_height {
            self.scroll_offset = total - visible_height;
        }
    }

    /// Move the selection down one row.
    pub fn select_next(&mut self)
        requires
            old(self).selected < usize::MAX,
        ensures
            old(self).downloads@.len() == 0 ==> *final(self) == *old(self),
            old(self).downloads@.len() > 0 ==> (final(self).selected as int) == (if old(self).selected + 1 < old(self).downloads@.len() {
                old(self).selected + 1
            } else {
                old(self).downloads@.len() - 1
            }) && *final(self) == (TuiApp {
                selected: final(self).selected,
                scroll_offset: final(self).scroll_offset,
                ..*old(self)
            }),
    {
        if self.downloads.len() > 0 {
            let cap = self.downloads.len() - 1;
            self.selected = if self.selected < cap {
                self.selected + 1
            } else {
                cap
            };
            let h = self.last_visible_height;
            self.adjust_scroll(h);
        }
    }

    /// Move the selection up one row.
    pub fn select_prev(&mut self)
        ensures
            old(self).selected == 0 ==> *final(self) == *old(self),
            old(self).selected > 0 ==> final(self).selected == old(self).selected - 1 && *final(self) == (TuiApp {
                selected: final(self).selected,
                scroll_offset: final(self).scroll_offset,
                ..*old(self)
            }),
    {
        if self.selected > 0 {
            self.selected = self.selected - 1;
            let h = self.last_visible_height;
            self.adjust_scroll(h);
        }
    }

    /// Swap the selected download with its neighbour and follow it with
    /// the selection.
    pub fn reorder_download(&mut self, down: bool)
        ensures
            final(self).downloads@.len() == old(self).downloads@.len(),
            old(self).downloads@.len() < 2 ==> *final(self) == *old(self),
            old(self).downloads@.len() >= 2 && old(self).selected < old(self).downloads@.len()
                && (if down {
                old(self).selected + 1 < old(self).downloads@.len()
            } else {
                old(self).selected > 0
            }) ==> final(self).downloads@ == swapped(
                old(self).downloads@,
                old(self).selected as int,
                if down {
                    old(self).selected + 1
                } else {
                    old(self).selected - 1
                },
            ),
    {
        let len = self.downloads.len();
        if len < 2 {
            return ;
        }
        if down {
            if self.selected >= len - 1 {
                return ;
            }
        } else {
            if self.selected == 0 {
                return ;
            }
        }
        if self.selected >= len {
            return ;
        }
        let sel = self.selected;
        let new_idx = if down {
            sel + 1
        } else {
            sel - 1
        };
        self.swap_downloads(sel, new_idx);
        self.selected = new_idx;
        let h = self.last_visible_height;
        self.adjust_scroll(h);
    }

    /// Swap two distinct rows of the download list.
    fn swap_downloads(&mut self, a: usize, b: usize)
        requires
            a < old(self).downloads@.len(),
            b < old(self).downloads@.len(),
            a != b,
        ensures
            final(self).downloads@ == swapped(old(self).downloads@, a as int, b as int),
            final(self).downloads@.len() == old(self).downloads@.len(),
            *final(self) == (TuiApp { downloads: final(self).downloads, ..*old(self) }),
    {
        let (lo, hi) = if a < b {
            (a, b)
        } else {
            (b, a)
        };
        let x_hi = self.downloads.remove(hi);
        let x_lo = self.downloads.remove(lo);
        self.downloads.insert(lo, x_hi);
        self.downloads.insert(hi, x_lo);
        proof {
            assert(final(self).downloads@ =~= swapped(old(self).downloads@, a as int, b as int));
        }
    }

    /// Replace the download list and clamp the selection to it.
    pub fn set_downloads(&mut self, list: Vec<DownloadStatus>)
        ensures
            final(self).downloads@ == list@,
            final(self).selected == (if old(self).selected < list@.len() || list@.len() == 0 {
                old(self).selected as int
            } else {
                (list@.len() - 1)
            }),
            *final(self) == (TuiApp {
                downloads: final(self).downloads,
                selected: final(self).selected,
                ..*old(self)
            }),
    {
        self.downloads = list;
        if self.selected >= self.downloads.len() && self.downloads.len() > 0 {
            self.selected = self.downloads.len() - 1;
        }
    }

    /// Append an activity entry, keeping at most five hundred.
    pub fn push_activity(&mut self, tick: u64, level: ActivityLevel, message: String)
        ensures
            final(self).activity_log@.len() <= 500,
            final(self).activity_log@.len() > 0,
            final(self).activity_log@.last().tick == tick,
            final(self).activity_log@.last().level == level,
            final(self).activity_log@.last().message == message,
            *final(self) == (TuiApp { activity_log: final(self).activity_log, ..*old(self) }),
    {
        self.activity_log.push(ActivityEntry { tick, level, message });
        while self.activity_log.len() > 500
            invariant
                self.activity_log@.len() > 0,
                self.activity_log@.last() == (ActivityEntry { tick, level, message }),
                *self == (TuiApp { activity_log: self.activity_log, ..*old(self) }),
            decreases self.activity_log@.len(),
        {
            let _dropped = self.activity_log.remove(0);
        }
    }

    /// Show a toast, keeping at most five.
    pub fn push_toast(&mut self, tick: u64, message: String, level: ToastLevel)
        ensures
            final(self).toasts@.len() <= 5,
            final(self).toasts@.len() > 0,
            final(self).toasts@.last().message@ == message@,
            final(self).toasts@.last().level == level,
            final(self).toasts@.last().created_tick == tick,
            *final(self) == (TuiApp { toasts: final(self).toasts, ..*old(self) }),
    {
        let ghost entry_message = message@;
        self.toasts.push(Toast { message, level, created_tick: tick });
        while self.toasts.len() > 5
            invariant
                self.toasts@.len() > 0,
                self.toasts@.last().created_tick == tick,
                self.toasts@.last().level == level,
                self.toasts@.last().message@ == entry_message,
                *self == (TuiApp { toasts: self.toasts, ..*old(self) }),
            decreases self.toasts@.len(),
        {
            let _dropped = self.toasts.remove(0);
        }
    }
}


/// How many chunks the map shows: the piece count capped at 256 for
/// torrents, else one chunk per binary megabyte, clamped to 1..=256.
pub open spec fn spec_chunk_count(total: u64, torrent_pieces: Option<usize>) -> int {
    match torrent_pieces {
        Some(p) => if p < 256 {
            p as int
        } else {
            256
        },
        None => {
            let c = (total as int) / 0x100000;
            if c < 1 {
                1
            } else if c > 256 {
                256
            } else {
                c
            }
        },
    }
}

/// The state of chunk `i` when `done` chunks are complete: complete
/// first, then a short downloading window while active, then pending.
pub open spec fn spec_chunk_state(i: int, done: int, active: bool) -> ChunkState {
    if i < done {
        ChunkState::Complete
    } else if i < done + 3 && active {
        ChunkState::Downloading
    } else {
        ChunkState::Pending
    }
}

/// The highest sample, at least one.
pub open spec fn seq_max1(s: Seq<u64>) -> u64
    decreases s.len(),
{
    if s.len() == 0 {
        1
    } else {
        let rest = seq_max1(s.drop_last());
        if s.last() >= rest {
            s.last()
        } else {
            rest
        }
    }
}

/// `n / d` rounded to the nearest integer, halves away from zero.
pub open spec fn half_away(n: nat, d: nat) -> nat
    recommends
        d > 0,
{
    ((2 * n + d) / (2 * d)) as nat
}

/// The eight sparkline glyphs, lowest to highest.
pub open spec fn spark_char(i: nat) -> char {
    if i == 0 {
        '\u{2581}'
    } else if i == 1 {
        '\u{2582}'
    } else if i == 2 {
        '\u{2583}'
    } else if i == 3 {
        '\u{2584}'
    } else if i == 4 {
        '\u{2585}'
    } else if i == 5 {
        '\u{2586}'
    } else if i == 6 {
        '\u{2587}'
    } else {
        '\u{2588}'
    }
}

/// The glyph index of one sample against the maximum.
pub open spec fn spark_index(v: u64, max: u64) -> nat
    recommends
        max > 0,
{
    let x = half_away((v as nat) * 7, max as nat);
    if x > 7 {
        7
    } else {
        x
    }
}

/// The glyphs of a sample sequence against a maximum.
pub open spec fn spark_glyphs(s: Seq<u64>, max: u64) -> Seq<char> {
    s.map_values(|v: u64| spark_char(spark_index(v, max)))
}

/// The sparkline of a sample sequence at the given width: spaces when
/// empty, else the last `width` samples, left-padded with spaces, each as
/// a glyph scaled to the overall maximum.
pub open spec fn spec_sparkline(data: Seq<u64>, width: nat) -> Seq<char> {
    if data.len() == 0 {
        crate::report::spaces(width)
    } else {
        let shown = if data.len() > width {
            data.skip(data.len() - width)
        } else {
            data
        };
        let max = seq_max1(data);
        crate::report::spaces((width - shown.len()) as nat) + spark_glyphs(shown, max)
    }
}

/// Format a sparkline as a string.
pub fn sparkline_string(data: &Vec<u64>, width: usize) -> (r: String)
    ensures
        r@ == spec_sparkline(data@, width as nat),
{
    if data.len() == 0 {
        let blank = crate::report::repeat_char(' ', width);
        proof {
            crate::report::lemma_spaces_repeated(width as nat);
        }
        return blank;
    }
    let mut max: u64 = 1;
    let mut i: usize = 0;
    proof {
        assert(data@.take(0) =~= Seq::<u64>::empty());
    }
    while i < data.len()
        invariant
            i <= data@.len(),
            max == seq_max1(data@.take(i as int)),
            max >= 1,
        decreases data@.len() - i,
    {
        proof {
            assert(data@.take(i + 1).drop_last() =~= data@.take(i as int));
            assert(data@.take(i + 1).last() == data@[i as int]);
        }
        if data[i] > max {
            max = data[i];
        }
        i = i + 1;
    }
    proof {
        assert(data@.take(data@.len() as int) =~= data@);
    }
    let start: usize = if data.len() > width {
        data.len() - width
    } else {
        0
    };
    let mut r = crate::report::repeat_char(' ', width - (data.len() - start));
    proof {
        crate::report::lemma_spaces_repeated((width - (data@.len() - start)) as nat);
        if data@.len() > width {
            assert(data@.skip(start as int) =~= data@.skip(data@.len() - width));
        } else {
            assert(data@.skip(0) =~= data@);
        }
        let shown = data@.skip(start as int);
        assert(r@ =~= crate::report::spaces((width - shown.len()) as nat) + spark_glyphs(
            shown,
            max,
        ).take(0));
    }
    let mut k: usize = start;
    while k < data.len()
        invariant
            start <= k <= data@.len(),
            max == seq_max1(data@),
            max >= 1,
            r@ == crate::report::spaces((width - data@.skip(start as int).len()) as nat)
                + spark_glyphs(data@.skip(start as int), max).take(k - start),
        decreases data@.len() - k,
    {
        let v = data[k];
        let scaled: u128 = 2 * (v as u128) * 7 + (max as u128);
        let idx128: u128 = scaled / (2 * (max as u128));
        let idx: u64 = if idx128 > 7 {
            7
        } else {
            idx128 as u64
        };
        proof {
            assert((2 * (v as nat) * 7 + (max as nat)) == scaled as nat) by (nonlinear_arith)
                requires
                    scaled == 2 * (v as u128) * 7 + (max as u128),
                    v <= u64::MAX,
                    max <= u64::MAX,
            ;
            assert((idx as nat) == spark_index(v, max));
        }
        push_spark_char(&mut r, idx);
        proof {
            let shown = data@.skip(start as int);
            let glyphs = spark_glyphs(shown, max);
            assert(glyphs.take(k - start + 1) =~= glyphs.take(k - start).push(
                spark_char(spark_index(v, max)),
            ));
            assert(r@ =~= crate::report::spaces((width - shown.len()) as nat) + glyphs.take(
                k - start + 1,
            ));
        }
        k = k + 1;
    }
    proof {
        let shown = data@.skip(start as int);
        let glyphs = spark_glyphs(shown, max);
        assert(glyphs.take(shown.len() as int) =~= glyphs);
        assert(r@ =~= spec_sparkline(data@, width as nat));
    }
    r
}

/// Append one sparkline glyph.
fn push_spark_char(r: &mut String, idx: u64)
    requires
        idx <= 7,
    ensures
        final(r)@ == old(r)@.push(spark_char(idx as nat)),
{
    proof {
        reveal_strlit("\u{2581}");
        reveal_strlit("\u{2582}");
        reveal_strlit("\u{2583}");
        reveal_strlit("\u{2584}");
        reveal_strlit("\u{2585}");
        reveal_strlit("\u{2586}");
        reveal_strlit("\u{2587}");
        reveal_strlit("\u{2588}");
    }
    let g: &'static str = if idx == 0 {
        "\u{2581}"
    } else if idx == 1 {
        "\u{2582}"
    } else if idx == 2 {
        "\u{2583}"
    } else if idx == 3 {
        "\u{2584}"
    } else if idx == 4 {
        "\u{2585}"
    } else if idx == 5 {
        "\u{2586}"
    } else if idx == 6 {
        "\u{2587}"
    } else {
        "\u{2588}"
    };
    r.append(g);
    proof {
        assert(final(r)@ =~= old(r)@.push(spark_char(idx as nat)));
    }
}

/// How many of a slice of chunk states are `Complete`.
pub open spec fn count_complete(s: Seq<ChunkState>) -> nat
    decreases s.len(),
{
    if s.len() == 0 {
        0
    } else {
        count_complete(s.drop_last()) + (if s.last() == ChunkState::Complete {
            1nat
        } else {
            0nat
        })
    }
}

/// Whether a chunk state occurs in a slice.
pub open spec fn has_state(s: Seq<ChunkState>, c: ChunkState) -> bool {
    exists|i: int| 0 <= i < s.len() && s[i] == c
}

/// The state a block of chunks renders as: any failure shows failure, any
/// download shows download, a majority complete shows complete, else
/// pending.
pub open spec fn spec_majority_state(s: Seq<ChunkState>) -> ChunkState {
    if s.len() == 0 {
        ChunkState::Pending
    } else if has_state(s, ChunkState::Failed) {
        ChunkState::Failed
    } else if has_state(s, ChunkState::Downloading) {
        ChunkState::Downloading
    } else if count_complete(s) > s.len() / 2 {
        ChunkState::Complete
    } else {
        ChunkState::Pending
    }
}

/// The state a block of chunk states renders as.
pub fn majority_state(states: &Vec<ChunkState>, start: usize, end: usize) -> (r: ChunkState)
    requires
        start <= end <= states@.len(),
    ensures
        r == spec_majority_state(states@.subrange(start as int, end as int)),
{
    let ghost block = states@.subrange(start as int, end as int);
    if start == end {
        proof {
            assert(block.len() == 0);
        }
        return ChunkState::Pending;
    }
    let mut complete: usize = 0;
    let mut has_failed = false;
    let mut has_downloading = false;
    let mut i: usize = start;
    proof {
        assert(block.take(0) =~= Seq::<ChunkState>::empty());
    }
    while i < end
        invariant
            start <= i <= end <= states@.len(),
            block == states@.subrange(start as int, end as int),
            (complete as nat) == count_complete(block.take(i - start)),
            has_failed == has_state(block.take(i - start), ChunkState::Failed),
            has_downloading == has_state(block.take(i - start), ChunkState::Downloading),
            complete <= i - start,
        decreases end - i,
    {
        let c = states[i];
        proof {
            assert(block.take(i - start + 1).drop_last() =~= block.take(i - start));
            assert(block.take(i - start + 1).last() == block[i - start]);
            assert(block[i - start] == states@[i as int]);
        }
        if matches!(c, ChunkState::Complete) {
            complete = complete + 1;
        }
        if matches!(c, ChunkState::Failed) {
            has_failed = true;
        }
        if matches!(c, ChunkState::Downloading) {
            has_downloading = true;
        }
        proof {
            let t = block.take(i - start + 1);
            if has_failed && !has_state(block.take(i - start), ChunkState::Failed) {
                assert(t[i - start] == c);
            }
            if has_downloading && !has_state(block.take(i - start), ChunkState::Downloading) {
                assert(t[i - start] == c);
            }
        }
        i = i + 1;
    }
    proof {
        assert(block.take(end - start) =~= block);
    }
    if has_failed {
        ChunkState::Failed
    } else if has_downloading {
        ChunkState::Downloading
    } else if complete > (end - start) / 2 {
        ChunkState::Complete
    } else {
        ChunkState::Pending
    }
}

/// The five-segment connection quality level: more connections fill more
/// of the bar.
pub open spec fn spec_connection_level(connections: u32) -> int {
    if connections > 50 {
        5
    } else if connections > 20 {
        4
    } else if connections > 5 {
        3
    } else if connections > 1 {
        2
    } else if connections > 0 {
        1
    } else {
        0
    }
}

/// Connection quality as a filled/empty five-segment bar and its level.
pub fn connection_quality(connections: u32) -> (r: (u8, &'static str))
    ensures
        (r.0 as int) == spec_connection_level(connections),
        spec_connection_level(connections) == 5 ==> r.1@ ==
            "\u{25b0}\u{25b0}\u{25b0}\u{25b0}\u{25b0}"@,
        spec_connection_level(connections) == 0 ==> r.1@ ==
            "\u{25b1}\u{25b1}\u{25b1}\u{25b1}\u{25b1}"@,
{
    if connections > 50 {
        (5, "\u{25b0}\u{25b0}\u{25b0}\u{25b0}\u{25b0}")
    } else if connections > 20 {
        (4, "\u{25b0}\u{25b0}\u{25b0}\u{25b0}\u{25b1}")
    } else if connections > 5 {
        (3, "\u{25b0}\u{25b0}\u{25b0}\u{25b1}\u{25b1}")
    } else if connections > 1 {
        (2, "\u{25b0}\u{25b0}\u{25b1}\u{25b1}\u{25b1}")
    } else if connections > 0 {
        (1, "\u{25b0}\u{25b1}\u{25b1}\u{25b1}\u{25b1}")
    } else {
        (0, "\u{25b1}\u{25b1}\u{25b1}\u{25b1}\u{25b1}")
    }
}


/// The first position holding the given download, or the length when
/// none does.
pub open spec fn first_with_id(list: Seq<DownloadStatus>, id: DownloadId) -> int
    decreases list.len(),
{
    if list.len() == 0 {
        0
    } else if list[0].id == id {
        0
    } else {
        1 + first_with_id(list.drop_first(), id)
    }
}

/// The list with the progress of the first matching download replaced.
pub open spec fn with_progress(
    list: Seq<DownloadStatus>,
    id: DownloadId,
    p: crate::status::DownloadProgress,
) -> Seq<DownloadStatus> {
    let i = first_with_id(list, id);
    if i < list.len() {
        list.update(i, DownloadStatus { progress: p, ..list[i] })
    } else {
        list
    }
}

/// The list with the state of the first matching download replaced.
pub open spec fn with_state(
    list: Seq<DownloadStatus>,
    id: DownloadId,
    st: DownloadState,
) -> Seq<DownloadStatus> {
    let i = first_with_id(list, id);
    if i < list.len() {
        list.update(i, DownloadStatus { state: st, ..list[i] })
    } else {
        list
    }
}

/// The first match lies within the list where some element matches, and
/// matches there.
proof fn lemma_first_with_id(list: Seq<DownloadStatus>, id: DownloadId)
    ensures
        0 <= first_with_id(list, id) <= list.len(),
        first_with_id(list, id) < list.len() ==> list[first_with_id(list, id)].id == id,
        forall|j: int| 0 <= j < first_with_id(list, id) ==> list[j].id != id,
    decreases list.len(),
{
    if list.len() > 0 && list[0].id != id {
        lemma_first_with_id(list.drop_first(), id);
        assert forall|j: int| 0 <= j < first_with_id(list, id) implies list[j].id != id by {
            if j > 0 {
                assert(list.drop_first()[j - 1] == list[j]);
            }
        }
    }
}

impl TuiApp {
    /// Recompute the chunk map of the selected download.
    pub fn compute_chunk_states(&mut self)
        ensures
            *final(self) == (TuiApp {
                chunk_states: final(self).chunk_states,
                chunk_count: final(self).chunk_count,
                ..*old(self)
            }),
            chunks_current(*final(self)),
    {
        let sel = self.selected;
        if sel >= self.downloads.len() {
            self.chunk_states = Vec::new();
            self.chunk_count = 0;
            return ;
        }
        let total = match self.downloads[sel].progress.total_size {
            Some(t) => t,
            None => 0,
        };
        if total == 0 {
            self.chunk_states = Vec::new();
            self.chunk_count = 0;
            return ;
        }
        let count: usize = match &self.downloads[sel].torrent_info {
            Some(ti) => {
                if ti.pieces_count < 256 {
                    ti.pieces_count
                } else {
                    256
                }
            },
            None => {
                let c = total / 0x100000;
                if c < 1 {
                    1
                } else if c > 256 {
                    256
                } else {
                    c as usize
                }
            },
        };
        let completed = self.downloads[sel].progress.completed_size;
        proof {
            vstd::arithmetic::mul::lemma_mul_upper_bound(
                count as int,
                256,
                completed as int,
                0xffff_ffff_ffff_ffff,
            );
            assert((256 as int) * (0xffff_ffff_ffff_ffff as int)
                < 0x1_0000_0000_0000_0000_0000_0000_0000_0000) by (nonlinear_arith);
        }
        let product: u128 = (count as u128) * (completed as u128);
        let raw: u128 = product / (total as u128);
        proof {
            assert((product as int) == (count as int) * (completed as int)) by (nonlinear_arith)
                requires
                    product == (count as u128) * (completed as u128),
                    count <= 256,
                    completed <= 0xffff_ffff_ffff_ffff,
            ;
        }
        let done: usize = if raw >= (count as u128) {
            count
        } else {
            raw as usize
        };
        let active = match self.downloads[sel].state {
            DownloadState::Downloading => true,
            DownloadState::Connecting => true,
            _ => false,
        };
        let mut states: Vec<ChunkState> = Vec::new();
        let mut i: usize = 0;
        while i < count
            invariant
                i <= count,
                states@.len() == i,
                forall|j: int|
                    0 <= j < i ==> states@[j] == spec_chunk_state(
                        j,
                        (if (done as int) < (count as int) {
                            done as int
                        } else {
                            count as int
                        }),
                        active,
                    ),
            decreases count - i,
        {
            let st = if i < done {
                ChunkState::Complete
            } else if active && i - done < 3 {
                ChunkState::Downloading
            } else {
                ChunkState::Pending
            };
            states.push(st);
            i = i + 1;
        }
        self.chunk_states = states;
        self.chunk_count = count;
    }

    /// Note fresh global statistics: speeds, peaks, the speed history
    /// capped at sixty samples, the chunk map, and toast expiry after
    /// four seconds.
    pub fn update_stats(&mut self, stats: &GlobalStats, now_ms: u64)
        ensures
            final(self).download_speed == stats.download_speed,
            final(self).upload_speed == stats.upload_speed,
            final(self).peak_download_speed == (if stats.download_speed > old(self).peak_download_speed {
                stats.download_speed
            } else {
                old(self).peak_download_speed
            }),
            final(self).peak_upload_speed == (if stats.upload_speed > old(self).peak_upload_speed {
                stats.upload_speed
            } else {
                old(self).peak_upload_speed
            }),
            final(self).speed_history@.len() <= 60,
            final(self).speed_history@.len() > 0,
            final(self).speed_history@.last() == (stats.download_speed, stats.upload_speed),
            chunks_current(*final(self)),
            final(self).toasts@ == old(self).toasts@.filter(
                |t: Toast| t.created_tick + 4000 > now_ms,
            ),
            final(self).downloads@ == old(self).downloads@,
            final(self).dialog == old(self).dialog,
            final(self).should_quit == old(self).should_quit,
    {
        self.download_speed = stats.download_speed;
        self.upload_speed = stats.upload_speed;
        if stats.download_speed > self.peak_download_speed {
            self.peak_download_speed = stats.download_speed;
        }
        if stats.upload_speed > self.peak_upload_speed {
            self.peak_upload_speed = stats.upload_speed;
        }
        self.speed_history.push((stats.download_speed, stats.upload_speed));
        while self.speed_history.len() > 60
            invariant
                self.speed_history@.len() > 0,
                self.speed_history@.last() == (stats.download_speed, stats.upload_speed),
                self.download_speed == stats.download_speed,
                self.upload_speed == stats.upload_speed,
                self.peak_download_speed == (if stats.download_speed > old(self).peak_download_speed {
                    stats.download_speed
                } else {
                    old(self).peak_download_speed
                }),
                self.peak_upload_speed == (if stats.upload_speed > old(self).peak_upload_speed {
                    stats.upload_speed
                } else {
                    old(self).peak_upload_speed
                }),
                *self == (TuiApp {
                    speed_history: self.speed_history,
                    download_speed: self.download_speed,
                    upload_speed: self.upload_speed,
                    peak_download_speed: self.peak_download_speed,
                    peak_upload_speed: self.peak_upload_speed,
                    ..*old(self)
                }),
            decreases self.speed_history@.len(),
        {
            let _dropped = self.speed_history.remove(0);
        }
        let ghost toasts0 = self.toasts@;
        let mut kept: Vec<Toast> = Vec::new();
        let ghost mut k: int = 0;
        proof {
            assert(self.toasts@.skip(0) =~= toasts0);
            assert(toasts0.take(0).filter(|t: Toast| t.created_tick + 4000 > now_ms)
                =~= Seq::<Toast>::empty());
        }
        while self.toasts.len() > 0
            invariant
                0 <= k <= toasts0.len(),
                self.toasts@ == toasts0.skip(k),
                kept@ == toasts0.take(k).filter(|t: Toast| t.created_tick + 4000 > now_ms),
                self.download_speed == stats.download_speed,
                self.upload_speed == stats.upload_speed,
                self.peak_download_speed == (if stats.download_speed > old(self).peak_download_speed {
                    stats.download_speed
                } else {
                    old(self).peak_download_speed
                }),
                self.peak_upload_speed == (if stats.upload_speed > old(self).peak_upload_speed {
                    stats.upload_speed
                } else {
                    old(self).peak_upload_speed
                }),
                self.speed_history@.len() <= 60,
                self.speed_history@.len() > 0,
                self.speed_history@.last() == (stats.download_speed, stats.upload_speed),
                *self == (TuiApp {
                    toasts: self.toasts,
                    speed_history: self.speed_history,
                    download_speed: self.download_speed,
                    upload_speed: self.upload_speed,
                    peak_download_speed: self.peak_download_speed,
                    peak_upload_speed: self.peak_upload_speed,
                    ..*old(self)
                }),
            decreases self.toasts@.len(),
        {
            let t = self.toasts.remove(0);
            proof {
                assert(t == toasts0[k]);
                assert(self.toasts@ =~= toasts0.skip(k + 1));
                reveal(Seq::filter);
                assert(toasts0.take(k + 1).drop_last() =~= toasts0.take(k));
                assert(toasts0.take(k + 1).last() == toasts0[k]);
            }
            if t.created_tick > now_ms || now_ms - t.created_tick < 4000 {
                kept.push(t);
            }
            proof {
                k = k + 1;
            }
        }
        proof {
            assert(toasts0.take(toasts0.len() as int) =~= toasts0);
        }
        self.toasts = kept;
        self.compute_chunk_states();
    }

    /// React to one engine event; the result says whether the shell
    /// should refresh the download list.
    pub fn handle_engine_event(&mut self, ev: &DownloadEvent, tick: u64) -> (needs_refresh: bool)
        ensures
            *ev matches DownloadEvent::Progress { id, progress } ==> !needs_refresh && final(self).downloads@ == with_progress(old(self).downloads@, id, progress),
            *ev matches DownloadEvent::StateChanged { id, old_state, new_state } ==> !needs_refresh
                && final(self).downloads@ == with_state(old(self).downloads@, id, new_state),
            *ev matches DownloadEvent::Paused { id } ==> !needs_refresh && final(self).downloads@ == with_state(old(self).downloads@, id, DownloadState::Paused),
            *ev is Added || *ev is Removed || *ev is Completed || *ev is Failed || *ev is Resumed
                ==> needs_refresh && final(self).downloads@ == old(self).downloads@,
            *ev is Started ==> !needs_refresh && *final(self) == *old(self),
    {
        match ev {
            DownloadEvent::Added { id } => {
                proof {
                    reveal_strlit("Download added");
                }
                self.push_activity(tick, ActivityLevel::Info, "Download added".to_owned());
                true
            },
            DownloadEvent::Removed { id } => {
                proof {
                    reveal_strlit("Download added");
                }
                self.push_activity(tick, ActivityLevel::Info, "Download added".to_owned());
                true
            },
            DownloadEvent::Completed { id } => {
                let name = self.find_name(*id);
                match name {
                    Some(n) => {
                        let toast = crate::util::truncate_str(n.as_str(), 40);
                        self.push_toast(tick, toast, ToastLevel::Success);
                        let mut msg: String = "Completed: ".to_owned();
                        let short = crate::util::truncate_str(n.as_str(), 50);
                        msg.append(short.as_str());
                        self.push_activity(tick, ActivityLevel::Success, msg);
                    },
                    None => {},
                }
                true
            },
            DownloadEvent::Failed { id, error, retryable } => {
                let toast = crate::util::truncate_str(error.as_str(), 40);
                self.push_toast(tick, toast, ToastLevel::Error);
                let mut msg: String = "Failed: ".to_owned();
                let short = crate::util::truncate_str(error.as_str(), 50);
                msg.append(short.as_str());
                self.push_activity(tick, ActivityLevel::Error, msg);
                true
            },
            DownloadEvent::Progress { id, progress } => {
                self.replace_progress(*id, *progress);
                false
            },
            DownloadEvent::StateChanged { id, old_state, new_state } => {
                self.replace_state(*id, new_state.duplicate());
                false
            },
            DownloadEvent::Paused { id } => {
                let name = self.find_name(*id);
                self.replace_state(*id, DownloadState::Paused);
                match name {
                    Some(n) => {
                        let mut msg: String = "Paused: ".to_owned();
                        let short = crate::util::truncate_str(n.as_str(), 50);
                        msg.append(short.as_str());
                        self.push_activity(tick, ActivityLevel::Warning, msg);
                    },
                    None => {},
                }
                false
            },
            DownloadEvent::Resumed { id } => {
                proof {
                    reveal_strlit("Resumed");
                }
                self.push_activity(tick, ActivityLevel::Info, "Resumed".to_owned());
                true
            },
            DownloadEvent::Started { id } => false,
        }
    }

    /// The display name of a download, when the list holds it.
    fn find_name(&self, id: DownloadId) -> (r: Option<String>)
        ensures
            r is Some <==> first_with_id(self.downloads@, id) < self.downloads@.len(),
            r matches Some(n) ==> n@ == self.downloads@[first_with_id(
                self.downloads@,
                id,
            )].metadata.name@,
    {
        proof {
            lemma_first_with_id(self.downloads@, id);
        }
        let mut i: usize = 0;
        while i < self.downloads.len()
            invariant
                i <= self.downloads@.len(),
                forall|j: int| 0 <= j < i ==> self.downloads@[j].id != id,
            decreases self.downloads@.len() - i,
        {
            if self.downloads[i].id == id {
                proof {
                    lemma_first_within(self.downloads@, id, i as int);
                }
                return Some(self.downloads[i].metadata.name.clone());
            }
            i = i + 1;
        }
        proof {
            assert(forall|j: int| 0 <= j < self.downloads@.len() ==> self.downloads@[j].id != id);
        }
        proof {
            lemma_no_id_match(self.downloads@, id);
        }
        None
    }

    /// Replace the progress of the first matching download.
    fn replace_progress(&mut self, id: DownloadId, p: crate::status::DownloadProgress)
        ensures
            final(self).downloads@ == with_progress(old(self).downloads@, id, p),
            *final(self) == (TuiApp { downloads: final(self).downloads, ..*old(self) }),
    {
        proof {
            lemma_first_with_id(self.downloads@, id);
        }
        let mut i: usize = 0;
        while i < self.downloads.len()
            invariant
                i <= self.downloads@.len(),
                forall|j: int| 0 <= j < i ==> self.downloads@[j].id != id,
                *self == *old(self),
            decreases self.downloads@.len() - i,
        {
            if self.downloads[i].id == id {
                proof {
                    lemma_first_within(self.downloads@, id, i as int);
                }
                let d = self.downloads.remove(i);
                let updated = DownloadStatus { progress: p, ..d };
                self.downloads.insert(i, updated);
                proof {
                    assert(self.downloads@ =~= with_progress(old(self).downloads@, id, p));
                }
                return ;
            }
            i = i + 1;
        }
        proof {
            lemma_no_id_match(self.downloads@, id);
            assert(self.downloads@ =~= with_progress(old(self).downloads@, id, p));
        }
    }

    /// Replace the state of the first matching download.
    fn replace_state(&mut self, id: DownloadId, st: DownloadState)
        ensures
            final(self).downloads@ == with_state(old(self).downloads@, id, st),
            *final(self) == (TuiApp { downloads: final(self).downloads, ..*old(self) }),
    {
        proof {
            lemma_first_with_id(self.downloads@, id);
        }
        let mut i: usize = 0;
        while i < self.downloads.len()
            invariant
                i <= self.downloads@.len(),
                forall|j: int| 0 <= j < i ==> self.downloads@[j].id != id,
                *self == *old(self),
            decreases self.downloads@.len() - i,
        {
            if self.downloads[i].id == id {
                proof {
                    lemma_first_within(self.downloads@, id, i as int);
                }
                let d = self.downloads.remove(i);
                let updated = DownloadStatus { state: st, ..d };
                self.downloads.insert(i, updated);
                proof {
                    assert(self.downloads@ =~= with_state(old(self).downloads@, id, st));
                }
                return ;
            }
            i = i + 1;
        }
        proof {
            lemma_no_id_match(self.downloads@, id);
            assert(self.downloads@ =~= with_state(old(self).downloads@, id, st));
        }
    }
}

/// The chunk fields of the model agree with the selected download.
pub open spec fn chunks_current(app: TuiApp) -> bool {
    if app.selected >= app.downloads.len() {
        app.chunk_states@.len() == 0 && app.chunk_count == 0
    } else {
        let d = app.downloads@[app.selected as int];
        let total = match d.progress.total_size {
            Some(t) => t,
            None => 0,
        };
        if total == 0 {
            app.chunk_states@.len() == 0 && app.chunk_count == 0
        } else {
            let pieces = match d.torrent_info {
                Some(ti) => Some(ti.pieces_count),
                None => None,
            };
            let count = spec_chunk_count(total, pieces);
            let raw = (count * (d.progress.completed_size as int)) / (total as int);
            let done = if raw < count {
                raw
            } else {
                count
            };
            let active = d.state is Downloading || d.state is Connecting;
            &&& app.chunk_count == count
            &&& app.chunk_states@.len() == count
            &&& forall|j: int|
                0 <= j < count ==> app.chunk_states@[j] == spec_chunk_state(j, done, active)
        }
    }
}

/// The first match is no later than any match.
proof fn lemma_first_within(list: Seq<DownloadStatus>, id: DownloadId, i: int)
    requires
        0 <= i < list.len(),
        list[i].id == id,
        forall|j: int| 0 <= j < i ==> list[j].id != id,
    ensures
        first_with_id(list, id) == i,
    decreases i,
{
    if i > 0 {
        lemma_first_within(list.drop_first(), id, i - 1);
    }
}

/// Where no element matches, the first match is the length.
proof fn lemma_no_id_match(list: Seq<DownloadStatus>, id: DownloadId)
    requires
        forall|j: int| 0 <= j < list.len() ==> list[j].id != id,
    ensures
        first_with_id(list, id) == list.len(),
    decreases list.len(),
{
    if list.len() > 0 {
        lemma_no_id_match(list.drop_first(), id);
    }
}


impl TuiApp {
    /// Open the error dialog with a message; the shell reports engine
    /// failures through this.
    pub fn report_error(&mut self, message: String)
        ensures
            final(self).dialog matches Some(d) && d matches DialogState::Error { message: m } && m
                == message,
            *final(self) == (TuiApp { dialog: final(self).dialog, ..*old(self) }),
    {
        self.dialog = Some(DialogState::Error { message });
    }

    /// Enter the batch review phase with the parsed entries; with no
    /// entries the input phase stays.
    pub fn enter_batch_review(&mut self, entries: Vec<BatchEntry>)
        ensures
            *final(self) == (TuiApp { dialog: final(self).dialog, ..*old(self) }),
            old(self).dialog is Some && old(self).dialog->0 is BatchImport && entries@.len() > 0
                ==> (final(self).dialog matches Some(nd) && nd matches DialogState::BatchImport {
                phase,
            } && phase matches BatchPhase::Review { entries: es, selected } && es@ == entries@
                && selected == 0),
    {
        match &self.dialog {
            Some(DialogState::BatchImport { phase }) => {
                if entries.len() > 0 {
                    self.dialog = Some(
                        DialogState::BatchImport {
                            phase: BatchPhase::Review { entries, selected: 0 },
                        },
                    );
                }
            },
            _ => {},
        }
    }

    /// Handle one key press, returning the actions the shell must
    /// perform. Dialogs, the help overlay and the search field consume
    /// their keys first; the remaining keys drive the list and open
    /// dialogs, exactly as the contract states for each.
    pub fn handle_key(&mut self, key: KeyInput) -> (actions: Vec<UiAction>)
        requires
            old(self).selected < usize::MAX,
            old(self).downloads@.len() < usize::MAX,
        ensures
            old(self).show_help && old(self).dialog is None ==> !final(self).show_help && actions@
                =~= Seq::<UiAction>::empty(),
            plain_view(*old(self)) && key == (KeyInput { code: KeyCode::Char('q'), ctrl: false })
                ==> actions@.len() == 1 && actions@[0] is Quit,
            plain_view(*old(self)) && key == (KeyInput { code: KeyCode::Char('c'), ctrl: true })
                ==> actions@.len() == 1 && actions@[0] is Quit,
            plain_view(*old(self)) && key == (KeyInput { code: KeyCode::Char('?'), ctrl: false })
                ==> final(self).show_help,
            plain_view(*old(self)) && key == (KeyInput { code: KeyCode::Char('a'), ctrl: false })
                ==> (final(self).dialog matches Some(d) && d matches DialogState::AddUrl {
                input,
                cursor,
            } && input@ == Seq::<char>::empty() && cursor == 0),
            plain_view(*old(self)) && key == (KeyInput { code: KeyCode::Char('/'), ctrl: false })
                ==> final(self).search is Some,
    {
        let mut actions: Vec<UiAction> = Vec::new();
        if self.dialog.is_some() {
            self.handle_dialog_key(key, &mut actions);
            return actions;
        }
        if self.show_help {
            match key.code {
                _ => {
                    self.show_help = false;
                },
            }
            return actions;
        }
        if self.search.is_some() {
            let consumed = self.handle_search_key(key);
            if consumed {
                return actions;
            }
        }
        if (matches!(key.code, KeyCode::Char('c')) && key.ctrl) || (matches!(
            key.code,
            KeyCode::Char('q'),
        ) && !key.ctrl) {
            self.should_quit = true;
            actions.push(UiAction::Quit);
            return actions;
        }
        if !key.ctrl {
            match key.code {
                KeyCode::Char('?') => {
                    self.show_help = true;
                    return actions;
                },
                KeyCode::Up | KeyCode::Char('k') => {
                    self.select_prev();
                },
                KeyCode::Down | KeyCode::Char('j') => {
                    self.select_next();
                },
                KeyCode::PageUp => {
                    let mut n: usize = 0;
                    let page = self.last_visible_height;
                    while n < page
                        invariant
                            self.selected < usize::MAX,
                            self.downloads@.len() < usize::MAX,
                        decreases page - n,
                    {
                        self.select_prev();
                        n = n + 1;
                    }
                },
                KeyCode::PageDown => {
                    let mut n: usize = 0;
                    let page = self.last_visible_height;
                    while n < page
                        invariant
                            self.selected < usize::MAX,
                            self.downloads@.len() < usize::MAX,
                        decreases page - n,
                    {
                        self.select_next();
                        n = n + 1;
                    }
                },
                KeyCode::Char('a') => {
                    self.dialog = Some(DialogState::AddUrl { input: String::new(), cursor: 0 });
                    return actions;
                },
                KeyCode::Char('p') => {
                    if self.selected < self.downloads.len() {
                        let id = self.downloads[self.selected].id;
                        actions.push(UiAction::Pause { id });
                    }
                },
                KeyCode::Char('r') => {
                    if self.selected < self.downloads.len() {
                        let id = self.downloads[self.selected].id;
                        actions.push(UiAction::Resume { id });
                    }
                },
                KeyCode::Char('c') => {
                    if self.selected < self.downloads.len() {
                        let id = self.downloads[self.selected].id;
                        self.dialog = Some(
                            DialogState::ConfirmCancel { id, delete_files: false },
                        );
                    }
                },
                KeyCode::Char('d') => {
                    if self.selected < self.downloads.len() {
                        let id = self.downloads[self.selected].id;
                        self.dialog = Some(DialogState::ConfirmCancel { id, delete_files: true });
                    }
                },
                KeyCode::Char('1') => {
                    self.mode = ViewMode::All;
                    actions.push(UiAction::Refresh);
                },
                KeyCode::Char('2') => {
                    self.mode = ViewMode::Active;
                    actions.push(UiAction::Refresh);
                },
                KeyCode::Char('3') => {
                    self.mode = ViewMode::Completed;
                    actions.push(UiAction::Refresh);
                },
                KeyCode::Tab => {
                    self.right_panel_focus = match self.right_panel_focus {
                        RightPanelFocus::Graph => RightPanelFocus::Details,
                        RightPanelFocus::Details => RightPanelFocus::ChunkMap,
                        RightPanelFocus::ChunkMap => RightPanelFocus::Graph,
                    };
                },
                KeyCode::Char('L') => {
                    self.show_activity_log = !self.show_activity_log;
                },
                KeyCode::Char('/') => {
                    self.search = Some(SearchState::empty());
                    return actions;
                },
                KeyCode::Char('S') => {
                    let draft = self.config.clone();
                    self.dialog = Some(
                        DialogState::Settings {
                            active_tab: 0,
                            selected_row: 0,
                            editing: None,
                            draft,
                            dirty: false,
                        },
                    );
                },
                KeyCode::Char('A') => {
                    self.dialog = Some(
                        DialogState::BatchImport {
                            phase: BatchPhase::Input {
                                lines: Vec::new(),
                                cursor_line: 0,
                                cursor_col: 0,
                            },
                        },
                    );
                },
                KeyCode::Char('J') => {
                    self.reorder_download(true);
                },
                KeyCode::Char('K') => {
                    self.reorder_download(false);
                },
                _ => {},
            }
        }
        actions
    }

    /// Handle a key while the search field is open; the result says
    /// whether the key was consumed.
    fn handle_search_key(&mut self, key: KeyInput) -> (consumed: bool)
        requires
            old(self).search is Some,
        ensures
            key.code == KeyCode::Esc ==> consumed && final(self).search is None,
            final(self).selected == old(self).selected,
            final(self).downloads@ == old(self).downloads@,
            final(self).dialog == old(self).dialog,
            final(self).show_help == old(self).show_help,
            final(self).last_visible_height == old(self).last_visible_height,
    {
        let st = match &self.search {
            Some(st) => st,
            None => {
                return false;
            },
        };
        match key.code {
            KeyCode::Esc => {
                self.search = None;
                true
            },
            KeyCode::Enter => {
                if st.query.unicode_len() == 0 {
                    self.search = None;
                }
                true
            },
            KeyCode::Char(c) => {
                if key.ctrl && c == 's' {
                    let scope = st.scope.next();
                    let query = st.query.clone();
                    let cursor = st.cursor;
                    self.search = Some(SearchState { query, cursor, scope });
                } else if !key.ctrl {
                    let cursor = if st.cursor <= st.query.unicode_len() {
                        st.cursor
                    } else {
                        st.query.unicode_len()
                    };
                    if cursor < usize::MAX {
                        let (q, cur) = edit_insert(&st.query, cursor, c);
                        let scope = st.scope;
                        self.search = Some(SearchState { query: q, cursor: cur, scope });
                    }
                }
                true
            },
            KeyCode::Backspace => {
                if st.cursor > 0 && st.cursor <= st.query.unicode_len() {
                    let (q, cur) = edit_backspace(&st.query, st.cursor);
                    let scope = st.scope;
                    self.search = Some(SearchState { query: q, cursor: cur, scope });
                }
                true
            },
            _ => false,
        }
    }

    /// Handle a key while a dialog is open.
    fn handle_dialog_key(&mut self, key: KeyInput, actions: &mut Vec<UiAction>)
        requires
            old(self).dialog is Some,
    {
        let dialog = match self.dialog.take() {
            Some(d) => d,
            None => {
                return ;
            },
        };
        match dialog {
            DialogState::AddUrl { input, cursor } => {
                match key.code {
                    KeyCode::Esc => {},
                    KeyCode::Enter => {
                        if input.unicode_len() > 0 {
                            actions.push(UiAction::Add { url: input });
                        } else {
                            self.dialog = Some(DialogState::AddUrl { input, cursor });
                        }
                    },
                    KeyCode::Char(c) => {
                        let at = if cursor <= input.unicode_len() {
                            cursor
                        } else {
                            input.unicode_len()
                        };
                        if at < usize::MAX {
                            let (ni, nc) = edit_insert(&input, at, c);
                            self.dialog = Some(DialogState::AddUrl { input: ni, cursor: nc });
                        } else {
                            self.dialog = Some(DialogState::AddUrl { input, cursor });
                        }
                    },
                    KeyCode::Backspace => {
                        if cursor > 0 && cursor <= input.unicode_len() {
                            let (ni, nc) = edit_backspace(&input, cursor);
                            self.dialog = Some(DialogState::AddUrl { input: ni, cursor: nc });
                        } else {
                            self.dialog = Some(DialogState::AddUrl { input, cursor });
                        }
                    },
                    KeyCode::Left => {
                        let nc = if cursor > 0 {
                            cursor - 1
                        } else {
                            0
                        };
                        self.dialog = Some(DialogState::AddUrl { input, cursor: nc });
                    },
                    KeyCode::Right => {
                        let nc = if cursor < input.unicode_len() {
                            cursor + 1
                        } else {
                            cursor
                        };
                        self.dialog = Some(DialogState::AddUrl { input, cursor: nc });
                    },
                    _ => {
                        self.dialog = Some(DialogState::AddUrl { input, cursor });
                    },
                }
            },
            DialogState::ConfirmCancel { id, delete_files } => {
                match key.code {
                    KeyCode::Esc => {},
                    KeyCode::Char('n') => {},
                    KeyCode::Char('y') | KeyCode::Enter => {
                        actions.push(UiAction::Cancel { id, delete_files });
                    },
                    _ => {
                        self.dialog = Some(DialogState::ConfirmCancel { id, delete_files });
                    },
                }
            },
            DialogState::Error { message } => {
                match key.code {
                    KeyCode::Esc | KeyCode::Enter | KeyCode::Char('q') => {},
                    _ => {
                        self.dialog = Some(DialogState::Error { message });
                    },
                }
            },
            DialogState::Settings { active_tab, selected_row, editing, draft, dirty } => {
                self.handle_settings_key(key, active_tab, selected_row, editing, draft, dirty,
                    actions);
            },
            DialogState::BatchImport { phase } => {
                self.handle_batch_key(key, phase, actions);
            },
        }
    }

    /// Handle a key in the settings dialog.
    fn handle_settings_key(
        &mut self,
        key: KeyInput,
        active_tab: usize,
        selected_row: usize,
        editing: Option<String>,
        draft: CliConfig,
        dirty: bool,
        actions: &mut Vec<UiAction>,
    )
    {
        match editing {
            Some(buf) => {
                match key.code {
                    KeyCode::Esc => {
                        self.dialog = Some(
                            DialogState::Settings {
                                active_tab,
                                selected_row,
                                editing: None,
                                draft,
                                dirty,
                            },
                        );
                    },
                    KeyCode::Enter => {
                        let mut d = draft;
                        crate::config::apply_settings_edit(
                            &mut d,
                            active_tab,
                            selected_row,
                            buf.as_str(),
                        );
                        self.dialog = Some(
                            DialogState::Settings {
                                active_tab,
                                selected_row,
                                editing: None,
                                draft: d,
                                dirty: true,
                            },
                        );
                    },
                    KeyCode::Backspace => {
                        let n = buf.unicode_len();
                        let shorter = if n > 0 {
                            let (b, _c) = edit_backspace(&buf, n);
                            b
                        } else {
                            buf
                        };
                        self.dialog = Some(
                            DialogState::Settings {
                                active_tab,
                                selected_row,
                                editing: Some(shorter),
                                draft,
                                dirty,
                            },
                        );
                    },
                    KeyCode::Char(c) => {
                        let n = buf.unicode_len();
                        let longer = if n < usize::MAX {
                            let (b, _c) = edit_insert(&buf, n, c);
                            b
                        } else {
                            buf
                        };
                        self.dialog = Some(
                            DialogState::Settings {
                                active_tab,
                                selected_row,
                                editing: Some(longer),
                                draft,
                                dirty,
                            },
                        );
                    },
                    _ => {
                        self.dialog = Some(
                            DialogState::Settings {
                                active_tab,
                                selected_row,
                                editing: Some(buf),
                                draft,
                                dirty,
                            },
                        );
                    },
                }
            },
            None => {
                match key.code {
                    KeyCode::Esc => {
                        if dirty {
                            self.config = draft;
                            actions.push(UiAction::ApplySettings);
                        }
                    },
                    KeyCode::Left => {
                        let tab = if active_tab > 0 {
                            active_tab - 1
                        } else {
                            active_tab
                        };
                        let row = if active_tab > 0 {
                            0
                        } else {
                            selected_row
                        };
                        self.dialog = Some(
                            DialogState::Settings {
                                active_tab: tab,
                                selected_row: row,
                                editing: None,
                                draft,
                                dirty,
                            },
                        );
                    },
                    KeyCode::Right => {
                        let tab = if active_tab < 4 {
                            active_tab + 1
                        } else {
                            active_tab
                        };
                        let row = if active_tab < 4 {
                            0
                        } else {
                            selected_row
                        };
                        self.dialog = Some(
                            DialogState::Settings {
                                active_tab: tab,
                                selected_row: row,
                                editing: None,
                                draft,
                                dirty,
                            },
                        );
                    },
                    KeyCode::Up | KeyCode::Char('k') => {
                        let row = if selected_row > 0 {
                            selected_row - 1
                        } else {
                            0
                        };
                        self.dialog = Some(
                            DialogState::Settings {
                                active_tab,
                                selected_row: row,
                                editing: None,
                                draft,
                                dirty,
                            },
                        );
                    },
                    KeyCode::Down | KeyCode::Char('j') => {
                        let row = if selected_row < usize::MAX - 1 {
                            selected_row + 1
                        } else {
                            selected_row
                        };
                        self.dialog = Some(
                            DialogState::Settings {
                                active_tab,
                                selected_row: row,
                                editing: None,
                                draft,
                                dirty,
                            },
                        );
                    },
                    KeyCode::Char('1') => {
                        self.settings_jump(0, draft, dirty);
                    },
                    KeyCode::Char('2') => {
                        self.settings_jump(1, draft, dirty);
                    },
                    KeyCode::Char('3') => {
                        self.settings_jump(2, draft, dirty);
                    },
                    KeyCode::Char('4') => {
                        self.settings_jump(3, draft, dirty);
                    },
                    KeyCode::Char('5') => {
                        self.settings_jump(4, draft, dirty);
                    },
                    KeyCode::Enter | KeyCode::Char(' ') => {
                        if crate::config::is_settings_bool(active_tab, selected_row) {
                            let mut d = draft;
                            crate::config::toggle_settings_bool(&mut d, active_tab, selected_row);
                            self.dialog = Some(
                                DialogState::Settings {
                                    active_tab,
                                    selected_row,
                                    editing: None,
                                    draft: d,
                                    dirty: true,
                                },
                            );
                        } else {
                            let current = crate::config::get_settings_value(
                                &draft,
                                active_tab,
                                selected_row,
                            );
                            self.dialog = Some(
                                DialogState::Settings {
                                    active_tab,
                                    selected_row,
                                    editing: Some(current),
                                    draft,
                                    dirty,
                                },
                            );
                        }
                    },
                    _ => {
                        self.dialog = Some(
                            DialogState::Settings {
                                active_tab,
                                selected_row,
                                editing: None,
                                draft,
                                dirty,
                            },
                        );
                    },
                }
            },
        }
    }

    /// Jump to a settings tab.
    fn settings_jump(&mut self, tab: usize, draft: CliConfig, dirty: bool)
        ensures
            final(self).dialog matches Some(d) && d matches DialogState::Settings {
                active_tab,
                selected_row,
                editing,
                draft: dr,
                dirty: di,
            } && active_tab == tab && selected_row == 0 && editing is None && di == dirty,
            *final(self) == (TuiApp { dialog: final(self).dialog, ..*old(self) }),
    {
        self.dialog = Some(
            DialogState::Settings {
                active_tab: tab,
                selected_row: 0,
                editing: None,
                draft,
                dirty,
            },
        );
    }

    /// Handle a key in the batch import dialog.
    fn handle_batch_key(&mut self, key: KeyInput, phase: BatchPhase, actions: &mut Vec<UiAction>)
    {
        match phase {
            BatchPhase::Input { lines, cursor_line, cursor_col } => {
                match key.code {
                    KeyCode::Esc => {},
                    KeyCode::Enter => {
                        if key.ctrl {
                            actions.push(UiAction::ParseBatch { lines: lines_copy(&lines) });
                            self.dialog = Some(
                                DialogState::BatchImport {
                                    phase: BatchPhase::Input { lines, cursor_line, cursor_col },
                                },
                            );
                        } else {
                            let mut ls = lines;
                            ls.push(String::new());
                            let nl = if cursor_line < usize::MAX - 1 {
                                cursor_line + 1
                            } else {
                                cursor_line
                            };
                            self.dialog = Some(
                                DialogState::BatchImport {
                                    phase: BatchPhase::Input {
                                        lines: ls,
                                        cursor_line: nl,
                                        cursor_col: 0,
                                    },
                                },
                            );
                        }
                    },
                    KeyCode::Char(c) => {
                        let mut ls = lines;
                        while ls.len() <= cursor_line
                            decreases cursor_line + 1 - ls@.len(),
                        {
                            ls.push(String::new());
                        }
                        let line = ls.remove(cursor_line);
                        let at = if cursor_col <= line.unicode_len() {
                            cursor_col
                        } else {
                            line.unicode_len()
                        };
                        if at < usize::MAX {
                            let (nl, nc) = edit_insert(&line, at, c);
                            ls.insert(cursor_line, nl);
                            self.dialog = Some(
                                DialogState::BatchImport {
                                    phase: BatchPhase::Input {
                                        lines: ls,
                                        cursor_line,
                                        cursor_col: nc,
                                    },
                                },
                            );
                        } else {
                            ls.insert(cursor_line, line);
                            self.dialog = Some(
                                DialogState::BatchImport {
                                    phase: BatchPhase::Input { lines: ls, cursor_line, cursor_col },
                                },
                            );
                        }
                    },
                    KeyCode::Backspace => {
                        let mut ls = lines;
                        if cursor_col > 0 && cursor_line < ls.len() {
                            let line = ls.remove(cursor_line);
                            if cursor_col <= line.unicode_len() {
                                let (nl, nc) = edit_backspace(&line, cursor_col);
                                ls.insert(cursor_line, nl);
                                self.dialog = Some(
                                    DialogState::BatchImport {
                                        phase: BatchPhase::Input {
                                            lines: ls,
                                            cursor_line,
                                            cursor_col: nc,
                                        },
                                    },
                                );
                            } else {
                                ls.insert(cursor_line, line);
                                self.dialog = Some(
                                    DialogState::BatchImport {
                                        phase: BatchPhase::Input {
                                            lines: ls,
                                            cursor_line,
                                            cursor_col,
                                        },
                                    },
                                );
                            }
                        } else if cursor_line > 0 && cursor_line < ls.len() {
                            let tail = ls.remove(cursor_line);
                            let head = ls.remove(cursor_line - 1);
                            let prev_col = head.unicode_len();
                            let mut merged = head;
                            merged.append(tail.as_str());
                            ls.insert(cursor_line - 1, merged);
                            self.dialog = Some(
                                DialogState::BatchImport {
                                    phase: BatchPhase::Input {
                                        lines: ls,
                                        cursor_line: cursor_line - 1,
                                        cursor_col: prev_col,
                                    },
                                },
                            );
                        } else {
                            self.dialog = Some(
                                DialogState::BatchImport {
                                    phase: BatchPhase::Input { lines: ls, cursor_line, cursor_col },
                                },
                            );
                        }
                    },
                    _ => {
                        self.dialog = Some(
                            DialogState::BatchImport {
                                phase: BatchPhase::Input { lines, cursor_line, cursor_col },
                            },
                        );
                    },
                }
            },
            BatchPhase::Review { entries, selected } => {
                match key.code {
                    KeyCode::Esc => {
                        let mut ls: Vec<String> = Vec::new();
                        let mut i: usize = 0;
                        while i < entries.len()
                            invariant
                                i <= entries@.len(),
                                ls@.len() == i,
                            decreases entries@.len() - i,
                        {
                            ls.push(entries[i].url.clone());
                            i = i + 1;
                        }
                        self.dialog = Some(
                            DialogState::BatchImport {
                                phase: BatchPhase::Input {
                                    lines: ls,
                                    cursor_line: 0,
                                    cursor_col: 0,
                                },
                            },
                        );
                    },
                    KeyCode::Up | KeyCode::Char('k') => {
                        let ns = if selected > 0 {
                            selected - 1
                        } else {
                            0
                        };
                        self.dialog = Some(
                            DialogState::BatchImport {
                                phase: BatchPhase::Review { entries, selected: ns },
                            },
                        );
                    },
                    KeyCode::Down | KeyCode::Char('j') => {
                        let ns = if entries.len() > 0 && selected < entries.len() - 1 {
                            selected + 1
                        } else {
                            selected
                        };
                        self.dialog = Some(
                            DialogState::BatchImport {
                                phase: BatchPhase::Review { entries, selected: ns },
                            },
                        );
                    },
                    KeyCode::Char(' ') => {
                        let mut es = entries;
                        if selected < es.len() {
                            let e = es.remove(selected);
                            let toggled = BatchEntry { selected: !e.selected, ..e };
                            es.insert(selected, toggled);
                        }
                        self.dialog = Some(
                            DialogState::BatchImport {
                                phase: BatchPhase::Review { entries: es, selected },
                            },
                        );
                    },
                    KeyCode::Enter => {
                        let mut i: usize = 0;
                        while i < entries.len()
                            invariant
                                i <= entries@.len(),
                            decreases entries@.len() - i,
                        {
                            let e = &entries[i];
                            if e.selected && e.valid {
                                actions.push(UiAction::Add { url: e.url.clone() });
                            }
                            i = i + 1;
                        }
                    },
                    _ => {
                        self.dialog = Some(
                            DialogState::BatchImport {
                                phase: BatchPhase::Review { entries, selected },
                            },
                        );
                    },
                }
            },
        }
    }
}

/// Whether the model is in its plain list view: no dialog, no help
/// overlay and no search field.
pub open spec fn plain_view(app: TuiApp) -> bool {
    app.dialog is None && !app.show_help && app.search is None
}

/// Copy a list of lines.
fn lines_copy(lines: &Vec<String>) -> (r: Vec<String>)
    ensures
        crate::report::line_views(r@) == crate::report::line_views(lines@),
{
    let mut r: Vec<String> = Vec::new();
    let mut i: usize = 0;
    while i < lines.len()
        invariant
            i <= lines@.len(),
            r@.len() == i,
            forall|j: int| 0 <= j < i ==> (#[trigger] r@[j])@ == lines@[j]@,
        decreases lines@.len() - i,
    {
        r.push(lines[i].clone());
        i = i + 1;
    }
    proof {
        assert(crate::report::line_views(r@) =~= crate::report::line_views(lines@));
    }
    r
}

} // verus!
