//! Plain-text reports over download statuses: the list table, the detailed
//! status view, and the global statistics summary, each returned as lines
//! for the shell to print.

use vstd::prelude::*;

verus! {

use crate::format::{
    spec_format_size,
    spec_format_speed,
    spec_format_duration,
    spec_format_state,
    format_size,
    format_speed,
    format_duration,
    format_state,
    DownloadState,
};
use crate::id::spec_gid;
use crate::numfmt::{decimal_digits, fixed1_chars, half_even, half_even_u128, u64_to_string,
    fixed1_string};
use crate::status::{DownloadKind, DownloadPriority, DownloadStatus, GlobalStats, spec_percent1,
    percent1, TorrentFileEntry, PeerInfo};
use crate::util::{push_char, spec_truncate_str, truncate_str};
use vstd::string::StringExecFns;

/// The views of a sequence of strings: each line as its characters.
pub open spec fn line_views(v: Seq<String>) -> Seq<Seq<char>> {
    v.map_values(|s: String| s@)
}

/// The table rows of a sequence of statuses.
pub open spec fn row_views(ds: Seq<DownloadStatus>) -> Seq<Seq<char>> {
    ds.map_values(|d: DownloadStatus| spec_table_row(d))
}

/// `n` spaces.
pub open spec fn spaces(n: nat) -> Seq<char>
    decreases n,
{
    if n == 0 {
        Seq::empty()
    } else {
        spaces((n - 1) as nat).push(' ')
    }
}

/// `s` padded on the left with spaces to width `w`.
pub open spec fn pad_left(s: Seq<char>, w: nat) -> Seq<char> {
    if s.len() >= w {
        s
    } else {
        spaces((w - s.len()) as nat) + s
    }
}

/// `s` padded on the right with spaces to width `w`.
pub open spec fn pad_right(s: Seq<char>, w: nat) -> Seq<char> {
    if s.len() >= w {
        s
    } else {
        s + spaces((w - s.len()) as nat)
    }
}

/// `n` copies of one character.
pub open spec fn repeated(c: char, n: nat) -> Seq<char>
    decreases n,
{
    if n == 0 {
        Seq::empty()
    } else {
        repeated(c, (n - 1) as nat).push(c)
    }
}

/// A string of `n` copies of `c`.
pub fn repeat_char(c: char, n: usize) -> (r: String)
    ensures
        r@ == repeated(c, n as nat),
{
    let mut r = String::new();
    let mut i: usize = 0;
    while i < n
        invariant
            i <= n,
            r@ == repeated(c, i as nat),
        decreases n - i,
    {
        push_char(&mut r, c);
        i = i + 1;
    }
    r
}

/// Pad a string on the left with spaces to width `w`, counting characters.
pub fn pad_left_string(s: String, w: usize) -> (r: String)
    ensures
        r@ == pad_left(s@, w as nat),
{
    let n = s.unicode_len();
    if n >= w {
        return s;
    }
    let mut r = repeat_char(' ', w - n);
    proof {
        lemma_spaces_repeated((w - n) as nat);
    }
    r.append(s.as_str());
    r
}

/// Pad a string on the right with spaces to width `w`, counting
/// characters.
pub fn pad_right_string(s: String, w: usize) -> (r: String)
    ensures
        r@ == pad_right(s@, w as nat),
{
    let n = s.unicode_len();
    if n >= w {
        return s;
    }
    let pad = repeat_char(' ', w - n);
    proof {
        lemma_spaces_repeated((w - n) as nat);
    }
    let mut r = s;
    r.append(pad.as_str());
    r
}

/// Spaces are repeated space characters.
pub(crate) proof fn lemma_spaces_repeated(n: nat)
    ensures
        spaces(n) == repeated(' ', n),
    decreases n,
{
    if n > 0 {
        lemma_spaces_repeated((n - 1) as nat);
    }
}

/// Relies on `chrono::DateTime::from_timestamp` and its
/// `%Y-%m-%d %H:%M:%S` formatting: a pure rendering of the UTC timestamp;
/// a timestamp outside chrono's range falls back to the bare number.
#[verifier::external_body]
pub(crate) fn format_timestamp(secs: i64) -> (r: String)
    ensures
        r@ == civil_datetime(secs),
{
    match chrono::DateTime::from_timestamp(secs, 0) {
        Some(dt) => dt.format("%Y-%m-%d %H:%M:%S").to_string(),
        None => secs.to_string(),
    }
}

/// The `YYYY-MM-DD hh:mm:ss` UTC rendering of an epoch timestamp.
pub uninterp spec fn civil_datetime(secs: i64) -> Seq<char>;

/// Relies on `humantime::format_duration`: a pure rendering of a whole
/// number of seconds as a human-readable duration.
#[verifier::external_body]
pub(crate) fn format_duration_human(secs: u64) -> (r: String)
    ensures
        r@ == human_duration(secs),
{
    humantime::format_duration(std::time::Duration::from_secs(secs)).to_string()
}

/// The human-readable rendering of a duration in whole seconds.
pub uninterp spec fn human_duration(secs: u64) -> Seq<char>;

/// The label of a download kind, as its debug form shows it.
pub open spec fn spec_kind_label(k: DownloadKind) -> Seq<char> {
    match k {
        DownloadKind::Http => "Http"@,
        DownloadKind::Torrent => "Torrent"@,
        DownloadKind::Magnet => "Magnet"@,
    }
}

/// The label of a download kind.
pub fn kind_label(k: DownloadKind) -> (r: &'static str)
    ensures
        r@ == spec_kind_label(k),
{
    match k {
        DownloadKind::Http => "Http",
        DownloadKind::Torrent => "Torrent",
        DownloadKind::Magnet => "Magnet",
    }
}

/// The label of a priority, as its debug form shows it.
pub open spec fn spec_priority_label(p: DownloadPriority) -> Seq<char> {
    match p {
        DownloadPriority::Low => "Low"@,
        DownloadPriority::Normal => "Normal"@,
        DownloadPriority::High => "High"@,
        DownloadPriority::Critical => "Critical"@,
    }
}

/// The label of a priority.
pub fn priority_label(p: DownloadPriority) -> (r: &'static str)
    ensures
        r@ == spec_priority_label(p),
{
    match p {
        DownloadPriority::Low => "Low",
        DownloadPriority::Normal => "Normal",
        DownloadPriority::High => "High",
        DownloadPriority::Critical => "Critical",
    }
}

/// The long state label the detailed view shows: errors carry their kind
/// and message in full.
pub open spec fn spec_state_long(s: DownloadState) -> Seq<char> {
    match s {
        DownloadState::Error { kind, message, retryable } => "Error ("@ + kind@ + "): "@
            + message@,
        _ => spec_format_state(s),
    }
}

/// The long state label of the detailed view.
pub fn state_long(s: &DownloadState) -> (r: String)
    ensures
        r@ == spec_state_long(*s),
{
    match s {
        DownloadState::Error { kind, message, retryable } => {
            proof {
                reveal_strlit("Error (");
                reveal_strlit("): ");
            }
            let mut r: String = "Error (".to_owned();
            r.append(kind.as_str());
            r.append("): ");
            r.append(message.as_str());
            r
        },
        _ => format_state(s),
    }
}

/// One row of the download table: gid, name, percent, speed, ETA and
/// state, in fixed-width columns.
pub open spec fn spec_table_row(d: DownloadStatus) -> Seq<char> {
    pad_right(spec_gid(d.id), 16) + " "@ + pad_right(
        spec_truncate_str(d.metadata.name@, 35),
        35,
    ) + " "@ + pad_left(spec_percent1(d.progress.completed_size, d.progress.total_size), 7) + "% "@
        + pad_left(spec_format_speed(d.progress.download_speed as nat), 10) + "/s "@ + pad_left(
        match d.progress.eta_seconds {
            Some(e) => spec_format_duration(e as nat),
            None => "--"@,
        },
        10,
    ) + " "@ + pad_right(spec_format_state(d.state), 12)
}

/// The table header row.
pub open spec fn spec_table_header() -> Seq<char> {
    pad_right("ID"@, 16) + " "@ + pad_right("Name"@, 35) + " "@ + pad_left("Progress"@, 8) + " "@
        + pad_left("Speed"@, 12) + " "@ + pad_left("ETA"@, 10) + " "@ + pad_right("State"@, 12)
}

/// The lines of the download table: a notice when empty, else a header, a
/// rule, and one row per download.
pub open spec fn spec_download_table(ds: Seq<DownloadStatus>) -> Seq<Seq<char>> {
    if ds.len() == 0 {
        seq!["No downloads"@]
    } else {
        seq![spec_table_header(), repeated('\u{2500}', 95)] + row_views(ds)
    }
}

/// Whether a status's progress is well formed: a known total bounds the
/// completed count, and each torrent file's completed count is bounded by
/// its size.
pub open spec fn wf_status(d: DownloadStatus) -> bool {
    &&& (d.progress.total_size matches Some(t) ==> d.progress.completed_size <= t)
    &&& (d.torrent_info matches Some(ti) ==> forall|i: int|
        0 <= i < ti.files@.len() ==> (#[trigger] ti.files@[i]).completed <= ti.files@[i].size)
}

/// Build one table row for a download.
pub fn table_row(d: &DownloadStatus) -> (r: String)
    requires
        wf_status(*d),
    ensures
        r@ == spec_table_row(*d),
{
    proof {
        reveal_strlit(" ");
        reveal_strlit("% ");
        reveal_strlit("/s ");
        reveal_strlit("--");
    }
    let mut r = pad_right_string(d.id.to_gid(), 16);
    r.append(" ");
    let name = pad_right_string(truncate_str(d.metadata.name.as_str(), 35), 35);
    r.append(name.as_str());
    r.append(" ");
    let pct = pad_left_string(percent1(d.progress.completed_size, d.progress.total_size), 7);
    r.append(pct.as_str());
    r.append("% ");
    let spd = pad_left_string(format_speed(d.progress.download_speed), 10);
    r.append(spd.as_str());
    r.append("/s ");
    let eta = match d.progress.eta_seconds {
        Some(e) => format_duration(e),
        None => "--".to_owned(),
    };
    let eta_p = pad_left_string(eta, 10);
    r.append(eta_p.as_str());
    r.append(" ");
    let st = pad_right_string(format_state(&d.state), 12);
    r.append(st.as_str());
    r
}

/// Build the download table lines.
pub fn print_download_table(downloads: &Vec<DownloadStatus>) -> (r: Vec<String>)
    requires
        forall|i: int| 0 <= i < downloads@.len() ==> wf_status(#[trigger] downloads@[i]),
    ensures
        line_views(r@) == spec_download_table(downloads@),
{
    let mut r: Vec<String> = Vec::new();
    if downloads.len() == 0 {
        r.push("No downloads".to_owned());
        proof {
            assert(line_views(r@) =~= spec_download_table(downloads@));
        }
        return r;
    }
    proof {
        reveal_strlit("ID");
        reveal_strlit("Name");
        reveal_strlit("Progress");
        reveal_strlit("Speed");
        reveal_strlit("ETA");
        reveal_strlit("State");
        reveal_strlit(" ");
    }
    let mut header = pad_right_string("ID".to_owned(), 16);
    header.append(" ");
    let h2 = pad_right_string("Name".to_owned(), 35);
    header.append(h2.as_str());
    header.append(" ");
    let h3 = pad_left_string("Progress".to_owned(), 8);
    header.append(h3.as_str());
    header.append(" ");
    let h4 = pad_left_string("Speed".to_owned(), 12);
    header.append(h4.as_str());
    header.append(" ");
    let h5 = pad_left_string("ETA".to_owned(), 10);
    header.append(h5.as_str());
    header.append(" ");
    let h6 = pad_right_string("State".to_owned(), 12);
    header.append(h6.as_str());
    proof {
        assert(header@ =~= spec_table_header());
    }
    r.push(header);
    r.push(repeat_char('\u{2500}', 95));
    let mut i: usize = 0;
    while i < downloads.len()
        invariant
            i <= downloads@.len(),
            downloads@.len() > 0,
            forall|j: int| 0 <= j < downloads@.len() ==> wf_status(#[trigger] downloads@[j]),
            r@.len() == i + 2,
            line_views(r@) =~= seq![spec_table_header(), repeated('\u{2500}', 95)] + row_views(
                downloads@.take(i as int),
            ),
        decreases downloads@.len() - i,
    {
        let row = table_row(&downloads[i]);
        let ghost prev = r@;
        let ghost rowv = row@;
        r.push(row);
        proof {
            assert(line_views(prev.push(r@[prev.len() as int])) =~= line_views(prev).push(rowv));
            assert(downloads@.take(i + 1) =~= downloads@.take(i as int).push(
                downloads@[i as int],
            ));
            assert(row_views(downloads@.take(i + 1)) =~= row_views(downloads@.take(i as int)).push(
                spec_table_row(downloads@[i as int]),
            ));
            assert(line_views(r@) =~= (seq![spec_table_header(), repeated('\u{2500}', 95)]
                + row_views(downloads@.take(i as int))).push(rowv));
            assert((seq![spec_table_header(), repeated('\u{2500}', 95)] + row_views(
                downloads@.take(i as int),
            )).push(rowv) =~= seq![spec_table_header(), repeated('\u{2500}', 95)] + row_views(
                downloads@.take(i + 1),
            ));
        }
        i = i + 1;
    }
    proof {
        assert(downloads@.take(downloads@.len() as int) =~= downloads@);
        assert(line_views(r@) =~= spec_download_table(downloads@));
    }
    r
}

/// The global statistics lines the stats view prints.
pub open spec fn spec_stats_lines(g: GlobalStats) -> Seq<Seq<char>> {
    seq![
        "Global Statistics"@,
        "================="@,
        ""@,
        "Downloads:"@,
        "  Active:   "@ + decimal_digits(g.num_active as nat),
        "  Waiting:  "@ + decimal_digits(g.num_waiting as nat),
        "  Stopped:  "@ + decimal_digits(g.num_stopped as nat),
        "  Total:    "@ + decimal_digits((g.num_active + g.num_waiting + g.num_stopped) as nat),
        ""@,
        "Speed:"@,
        "  Download: "@ + spec_format_size(g.download_speed as nat) + "/s"@,
        "  Upload:   "@ + spec_format_size(g.upload_speed as nat) + "/s"@,
    ]
}

/// Build the global statistics lines.
pub fn stats_lines(g: &GlobalStats) -> (r: Vec<String>)
    requires
        g.num_active + g.num_waiting + g.num_stopped <= usize::MAX,
    ensures
        line_views(r@) == spec_stats_lines(*g),
{
    proof {
        reveal_strlit("Global Statistics");
        reveal_strlit("=================");
        reveal_strlit("");
        reveal_strlit("Downloads:");
        reveal_strlit("  Active:   ");
        reveal_strlit("  Waiting:  ");
        reveal_strlit("  Stopped:  ");
        reveal_strlit("  Total:    ");
        reveal_strlit("Speed:");
        reveal_strlit("  Download: ");
        reveal_strlit("  Upload:   ");
        reveal_strlit("/s");
    }
    let mut r: Vec<String> = Vec::new();
    r.push("Global Statistics".to_owned());
    r.push("=================".to_owned());
    r.push("".to_owned());
    r.push("Downloads:".to_owned());
    let mut l: String = "  Active:   ".to_owned();
    let n1 = u64_to_string(g.num_active as u64);
    l.append(n1.as_str());
    r.push(l);
    let mut l2: String = "  Waiting:  ".to_owned();
    let n2 = u64_to_string(g.num_waiting as u64);
    l2.append(n2.as_str());
    r.push(l2);
    let mut l3: String = "  Stopped:  ".to_owned();
    let n3 = u64_to_string(g.num_stopped as u64);
    l3.append(n3.as_str());
    r.push(l3);
    let mut l4: String = "  Total:    ".to_owned();
    let n4 = u64_to_string((g.num_active as u64) + (g.num_waiting as u64) + (g.num_stopped
        as u64));
    l4.append(n4.as_str());
    r.push(l4);
    r.push("".to_owned());
    r.push("Speed:".to_owned());
    let mut l5: String = "  Download: ".to_owned();
    let s1 = format_size(g.download_speed);
    l5.append(s1.as_str());
    l5.append("/s");
    r.push(l5);
    let mut l6: String = "  Upload:   ".to_owned();
    let s2 = format_size(g.upload_speed);
    l6.append(s2.as_str());
    l6.append("/s");
    r.push(l6);
    proof {
        assert(line_views(r@) =~= spec_stats_lines(*g));
    }
    r
}

/// The list-footer summary lines: totals, and speeds when either is
/// nonzero.
pub open spec fn spec_list_summary(shown: nat, g: GlobalStats) -> Seq<Seq<char>> {
    let totals = "Total: "@ + decimal_digits(shown) + " downloads ("@ + decimal_digits(
        g.num_active as nat,
    ) + " active, "@ + decimal_digits(g.num_waiting as nat) + " waiting, "@ + decimal_digits(
        g.num_stopped as nat,
    ) + " stopped)"@;
    if g.download_speed > 0 || g.upload_speed > 0 {
        seq![
            totals,
            "Speed: "@ + spec_format_speed(g.download_speed as nat) + " down, "@
                + spec_format_speed(g.upload_speed as nat) + " up"@,
        ]
    } else {
        seq![totals]
    }
}

/// Build the list-footer summary lines.
pub fn list_summary(shown: usize, g: &GlobalStats) -> (r: Vec<String>)
    ensures
        line_views(r@) == spec_list_summary(shown as nat, *g),
{
    proof {
        reveal_strlit("Total: ");
        reveal_strlit(" downloads (");
        reveal_strlit(" active, ");
        reveal_strlit(" waiting, ");
        reveal_strlit(" stopped)");
        reveal_strlit("Speed: ");
        reveal_strlit(" down, ");
        reveal_strlit(" up");
    }
    let mut r: Vec<String> = Vec::new();
    let mut l: String = "Total: ".to_owned();
    let n0 = u64_to_string(shown as u64);
    l.append(n0.as_str());
    l.append(" downloads (");
    let n1 = u64_to_string(g.num_active as u64);
    l.append(n1.as_str());
    l.append(" active, ");
    let n2 = u64_to_string(g.num_waiting as u64);
    l.append(n2.as_str());
    l.append(" waiting, ");
    let n3 = u64_to_string(g.num_stopped as u64);
    l.append(n3.as_str());
    l.append(" stopped)");
    r.push(l);
    if g.download_speed > 0 || g.upload_speed > 0 {
        let mut l2: String = "Speed: ".to_owned();
        let s1 = format_speed(g.download_speed);
        l2.append(s1.as_str());
        l2.append(" down, ");
        let s2 = format_speed(g.upload_speed);
        l2.append(s2.as_str());
        l2.append(" up");
        r.push(l2);
    }
    proof {
        assert(line_views(r@) =~= spec_list_summary(shown as nat, *g));
    }
    r
}

/// An optional labelled line: present when the value is.
pub open spec fn spec_opt_line(prefix: Seq<char>, o: Option<String>) -> Seq<Seq<char>> {
    match o {
        Some(v) => seq![prefix + v@],
        None => Seq::empty(),
    }
}

/// The heading lines of the detailed view.
pub open spec fn spec_status_header(d: DownloadStatus) -> Seq<Seq<char>> {
    seq![
        "Download: "@ + spec_gid(d.id),
        "Name: "@ + d.metadata.name@,
        "Type: "@ + spec_kind_label(d.kind),
        "State: "@ + spec_state_long(d.state),
        "Priority: "@ + spec_priority_label(d.priority),
        ""@,
    ]
}

/// The progress section of the detailed view.
pub open spec fn spec_progress_section(d: DownloadStatus) -> Seq<Seq<char>> {
    seq![
        "=== Progress ==="@,
        "  Total Size: "@ + (match d.progress.total_size {
            Some(t) => spec_format_size(t as nat),
            None => "Unknown"@,
        }),
        "  Downloaded: "@ + spec_format_size(d.progress.completed_size as nat) + " ("@
            + spec_percent1(d.progress.completed_size, d.progress.total_size) + "%)"@,
        "  Download Speed: "@ + spec_format_size(d.progress.download_speed as nat) + "/s"@,
    ] + (if d.progress.upload_speed > 0 {
        seq!["  Upload Speed: "@ + spec_format_size(d.progress.upload_speed as nat) + "/s"@]
    } else {
        Seq::empty()
    }) + (match d.progress.eta_seconds {
        Some(e) => seq!["  ETA: "@ + human_duration(e)],
        None => Seq::empty(),
    }) + seq!["  Connections: "@ + decimal_digits(d.progress.connections as nat), ""@]
}

/// The location section of the detailed view.
pub open spec fn spec_location_section(d: DownloadStatus) -> Seq<Seq<char>> {
    seq!["=== Location ==="@, "  Save Directory: "@ + d.metadata.save_dir@] + spec_opt_line(
        "  Filename: "@,
        d.metadata.filename,
    ) + spec_opt_line("  URL: "@, d.metadata.url) + (match d.metadata.magnet_uri {
        Some(m) => seq!["  Magnet: "@ + spec_truncate_str(m@, 60)],
        None => Seq::empty(),
    }) + spec_opt_line("  Info Hash: "@, d.metadata.info_hash) + seq![""@]
}

/// One file row of the detailed view.
pub open spec fn spec_file_line(f: TorrentFileEntry) -> Seq<char> {
    "  ["@ + (if f.selected {
        "*"@
    } else {
        " "@
    }) + "] "@ + pad_left(decimal_digits(f.index as nat), 3) + " "@ + pad_left(
        spec_format_size(f.size as nat),
        10,
    ) + " "@ + pad_left(
        if f.size > 0 {
            fixed1_chars(half_even((f.completed as nat) * 1000, f.size as nat))
        } else {
            fixed1_chars(1000)
        },
        5,
    ) + "% "@ + f.path@
}

/// The file rows of a torrent.
pub open spec fn file_line_views(fs: Seq<TorrentFileEntry>) -> Seq<Seq<char>> {
    fs.map_values(|f: TorrentFileEntry| spec_file_line(f))
}

/// The torrent section of the detailed view.
pub open spec fn spec_torrent_section(d: DownloadStatus, show_files: bool) -> Seq<Seq<char>> {
    match d.torrent_info {
        None => Seq::empty(),
        Some(ti) => seq![
            "=== Torrent Info ==="@,
            "  Pieces: "@ + decimal_digits(ti.pieces_count as nat),
            "  Piece Size: "@ + spec_format_size(ti.piece_length as nat),
            "  Files: "@ + decimal_digits(ti.files@.len()),
            "  Seeders: "@ + decimal_digits(d.progress.seeders as nat),
            "  Peers: "@ + decimal_digits(d.progress.peers as nat),
        ] + (if ti.private_flag {
            seq!["  Private: Yes"@]
        } else {
            Seq::empty()
        }) + seq![""@] + (if show_files && ti.files@.len() > 0 {
            seq!["=== Files ==="@] + file_line_views(ti.files@) + seq![""@]
        } else {
            Seq::empty()
        }),
    }
}

/// One peer row of the detailed view.
pub open spec fn spec_peer_line(p: PeerInfo) -> Seq<char> {
    "  "@ + p.ip@ + ":"@ + decimal_digits(p.port as nat) + " - "@ + (match p.client {
        Some(c) => c@,
        None => "Unknown"@,
    }) + " - "@ + spec_format_size(p.download_speed as nat) + "/s down, "@ + spec_format_size(
        p.upload_speed as nat,
    ) + "/s up - "@ + fixed1_chars(p.progress_permille as nat) + "%"@
}

/// The peer rows shown: the first twenty.
pub open spec fn peer_line_views(ps: Seq<PeerInfo>) -> Seq<Seq<char>> {
    ps.map_values(|p: PeerInfo| spec_peer_line(p))
}

/// The peers section of the detailed view.
pub open spec fn spec_peers_section(d: DownloadStatus, show_peers: bool) -> Seq<Seq<char>> {
    if !show_peers {
        Seq::empty()
    } else {
        match d.peers {
            None => Seq::empty(),
            Some(ps) => if ps@.len() == 0 {
                Seq::empty()
            } else {
                let shown = if ps@.len() < 20 {
                    ps@.len() as int
                } else {
                    20
                };
                seq!["=== Peers ("@ + decimal_digits(ps@.len()) + ") ==="@] + peer_line_views(
                    ps@.take(shown),
                ) + (if ps@.len() > 20 {
                    seq!["  ... and "@ + decimal_digits((ps@.len() - 20) as nat) + " more"@]
                } else {
                    Seq::empty()
                }) + seq![""@]
            },
        }
    }
}

/// The timestamp lines of the detailed view.
pub open spec fn spec_timestamps_section(d: DownloadStatus) -> Seq<Seq<char>> {
    seq!["=== Timestamps ==="@, "  Created: "@ + civil_datetime(d.created_at)] + (
    match d.completed_at {
        Some(c) => seq!["  Completed: "@ + civil_datetime(c)],
        None => Seq::empty(),
    })
}

/// Everything the detailed status view prints.
pub open spec fn spec_detailed_status(
    d: DownloadStatus,
    show_peers: bool,
    show_files: bool,
) -> Seq<Seq<char>> {
    spec_status_header(d) + spec_progress_section(d) + spec_location_section(d)
        + spec_torrent_section(d, show_files) + spec_peers_section(d, show_peers)
        + spec_timestamps_section(d)
}

/// Append a labelled line built from a prefix and a value.
pub(crate) fn push_joined(out: &mut Vec<String>, prefix: &str, value: &str)
    ensures
        line_views(final(out)@) == line_views(old(out)@).push(prefix@ + value@),
{
    let ghost prev = out@;
    let mut l: String = prefix.to_owned();
    l.append(value);
    out.push(l);
    proof {
        assert(line_views(prev.push(out@[prev.len() as int])) =~= line_views(prev).push(
            prefix@ + value@,
        ));
    }
}

/// Append one line.
pub(crate) fn push_line(out: &mut Vec<String>, line: String)
    ensures
        line_views(final(out)@) == line_views(old(out)@).push(line@),
{
    let ghost prev = out@;
    let ghost lv = line@;
    out.push(line);
    proof {
        assert(line_views(prev.push(out@[prev.len() as int])) =~= line_views(prev).push(lv));
    }
}

/// Move the lines of `src` onto the end of `dst`.
pub(crate) fn append_lines(dst: &mut Vec<String>, src: Vec<String>)
    ensures
        line_views(final(dst)@) == line_views(old(dst)@) + line_views(src@),
{
    let ghost srcv = src@;
    let mut s = src;
    let ghost mut k: int = 0;
    proof {
        assert(s@ =~= srcv.skip(0));
        assert(line_views(dst@) + line_views(srcv.take(0)) =~= line_views(dst@));
    }
    while s.len() > 0
        invariant
            0 <= k <= srcv.len(),
            s@ == srcv.skip(k),
            line_views(dst@) == line_views(old(dst)@) + line_views(srcv.take(k)),
        decreases s@.len(),
    {
        let x = s.remove(0);
        let ghost xv = x@;
        proof {
            assert(x == srcv[k]);
            assert(s@ =~= srcv.skip(k + 1));
        }
        let ghost prev = dst@;
        dst.push(x);
        proof {
            assert(line_views(prev.push(dst@[prev.len() as int])) =~= line_views(prev).push(xv));
            assert(srcv.take(k + 1) =~= srcv.take(k).push(srcv[k]));
            assert(line_views(srcv.take(k + 1)) =~= line_views(srcv.take(k)).push(xv));
            assert(line_views(dst@) =~= line_views(old(dst)@) + line_views(srcv.take(k + 1)));
            k = k + 1;
        }
    }
    proof {
        assert(srcv.take(srcv.len() as int) =~= srcv);
    }
}

/// Build the heading lines of the detailed view.
pub fn status_header_lines(d: &DownloadStatus) -> (r: Vec<String>)
    ensures
        line_views(r@) == spec_status_header(*d),
{
    proof {
        reveal_strlit("Download: ");
        reveal_strlit("Name: ");
        reveal_strlit("Type: ");
        reveal_strlit("State: ");
        reveal_strlit("Priority: ");
        reveal_strlit("");
    }
    let mut r: Vec<String> = Vec::new();
    let gid = d.id.to_gid();
    push_joined(&mut r, "Download: ", gid.as_str());
    push_joined(&mut r, "Name: ", d.metadata.name.as_str());
    push_joined(&mut r, "Type: ", kind_label(d.kind));
    let st = state_long(&d.state);
    push_joined(&mut r, "State: ", st.as_str());
    push_joined(&mut r, "Priority: ", priority_label(d.priority));
    push_line(&mut r, "".to_owned());
    proof {
        assert(line_views(r@) =~= spec_status_header(*d));
    }
    r
}

/// Build the progress section of the detailed view.
pub fn progress_section_lines(d: &DownloadStatus) -> (r: Vec<String>)
    requires
        wf_status(*d),
    ensures
        line_views(r@) == spec_progress_section(*d),
{
    proof {
        reveal_strlit("=== Progress ===");
        reveal_strlit("  Total Size: ");
        reveal_strlit("Unknown");
        reveal_strlit("  Downloaded: ");
        reveal_strlit(" (");
        reveal_strlit("%)");
        reveal_strlit("  Download Speed: ");
        reveal_strlit("  Upload Speed: ");
        reveal_strlit("/s");
        reveal_strlit("  ETA: ");
        reveal_strlit("  Connections: ");
        reveal_strlit("");
    }
    let mut r: Vec<String> = Vec::new();
    push_line(&mut r, "=== Progress ===".to_owned());
    let total = match d.progress.total_size {
        Some(t) => format_size(t),
        None => "Unknown".to_owned(),
    };
    push_joined(&mut r, "  Total Size: ", total.as_str());
    let mut dl: String = "  Downloaded: ".to_owned();
    let c = format_size(d.progress.completed_size);
    dl.append(c.as_str());
    dl.append(" (");
    let p = percent1(d.progress.completed_size, d.progress.total_size);
    dl.append(p.as_str());
    dl.append("%)");
    push_line(&mut r, dl);
    let mut sp: String = "  Download Speed: ".to_owned();
    let spd = format_size(d.progress.download_speed);
    sp.append(spd.as_str());
    sp.append("/s");
    push_line(&mut r, sp);
    if d.progress.upload_speed > 0 {
        let mut up: String = "  Upload Speed: ".to_owned();
        let ups = format_size(d.progress.upload_speed);
        up.append(ups.as_str());
        up.append("/s");
        push_line(&mut r, up);
    }
    match d.progress.eta_seconds {
        Some(e) => {
            let h = format_duration_human(e);
            push_joined(&mut r, "  ETA: ", h.as_str());
        },
        None => {},
    }
    let conn = u64_to_string(d.progress.connections as u64);
    push_joined(&mut r, "  Connections: ", conn.as_str());
    push_line(&mut r, "".to_owned());
    proof {
        assert(line_views(r@) =~= spec_progress_section(*d));
    }
    r
}

/// Build the location section of the detailed view.
pub fn location_section_lines(d: &DownloadStatus) -> (r: Vec<String>)
    ensures
        line_views(r@) == spec_location_section(*d),
{
    proof {
        reveal_strlit("=== Location ===");
        reveal_strlit("  Save Directory: ");
        reveal_strlit("  Filename: ");
        reveal_strlit("  URL: ");
        reveal_strlit("  Magnet: ");
        reveal_strlit("  Info Hash: ");
        reveal_strlit("");
    }
    let mut r: Vec<String> = Vec::new();
    push_line(&mut r, "=== Location ===".to_owned());
    push_joined(&mut r, "  Save Directory: ", d.metadata.save_dir.as_str());
    match &d.metadata.filename {
        Some(f) => push_joined(&mut r, "  Filename: ", f.as_str()),
        None => {},
    }
    match &d.metadata.url {
        Some(u) => push_joined(&mut r, "  URL: ", u.as_str()),
        None => {},
    }
    match &d.metadata.magnet_uri {
        Some(m) => {
            let t = truncate_str(m.as_str(), 60);
            push_joined(&mut r, "  Magnet: ", t.as_str());
        },
        None => {},
    }
    match &d.metadata.info_hash {
        Some(h) => push_joined(&mut r, "  Info Hash: ", h.as_str()),
        None => {},
    }
    push_line(&mut r, "".to_owned());
    proof {
        assert(line_views(r@) =~= spec_location_section(*d));
    }
    r
}

/// Build one file row of the detailed view.
fn file_line(f: &TorrentFileEntry) -> (r: String)
    requires
        f.completed <= f.size,
    ensures
        r@ == spec_file_line(*f),
{
    proof {
        reveal_strlit("  [");
        reveal_strlit("*");
        reveal_strlit(" ");
        reveal_strlit("] ");
        reveal_strlit("% ");
    }
    let mut r: String = "  [".to_owned();
    if f.selected {
        r.append("*");
    } else {
        r.append(" ");
    }
    r.append("] ");
    let idx = pad_left_string(u64_to_string(f.index as u64), 3);
    r.append(idx.as_str());
    r.append(" ");
    let size = pad_left_string(format_size(f.size), 10);
    r.append(size.as_str());
    r.append(" ");
    let pct = if f.size > 0 {
        proof {
            assert((f.completed as int) * 1000 <= (f.size as int) * 1000) by (nonlinear_arith)
                requires
                    f.completed <= f.size,
            ;
            vstd::arithmetic::div_mod::lemma_div_is_ordered(
                (f.completed as int) * 1000,
                (f.size as int) * 1000,
                f.size as int,
            );
            vstd::arithmetic::div_mod::lemma_div_multiples_vanish(1000, f.size as int);
        }
        fixed1_string(half_even_u128((f.completed as u128) * 1000, f.size as u128))
    } else {
        fixed1_string(1000)
    };
    let pctp = pad_left_string(pct, 5);
    r.append(pctp.as_str());
    r.append("% ");
    r.append(f.path.as_str());
    r
}

/// Build the torrent section of the detailed view.
pub fn torrent_section_lines(d: &DownloadStatus, show_files: bool) -> (r: Vec<String>)
    requires
        wf_status(*d),
    ensures
        line_views(r@) == spec_torrent_section(*d, show_files),
{
    proof {
        reveal_strlit("=== Torrent Info ===");
        reveal_strlit("  Pieces: ");
        reveal_strlit("  Piece Size: ");
        reveal_strlit("  Files: ");
        reveal_strlit("  Seeders: ");
        reveal_strlit("  Peers: ");
        reveal_strlit("  Private: Yes");
        reveal_strlit("=== Files ===");
        reveal_strlit("");
    }
    let mut r: Vec<String> = Vec::new();
    let ti = match &d.torrent_info {
        Some(ti) => ti,
        None => {
            proof {
                assert(line_views(r@) =~= spec_torrent_section(*d, show_files));
            }
            return r;
        },
    };
    push_line(&mut r, "=== Torrent Info ===".to_owned());
    let pieces = u64_to_string(ti.pieces_count as u64);
    push_joined(&mut r, "  Pieces: ", pieces.as_str());
    let psize = format_size(ti.piece_length);
    push_joined(&mut r, "  Piece Size: ", psize.as_str());
    let fcount = u64_to_string(ti.files.len() as u64);
    push_joined(&mut r, "  Files: ", fcount.as_str());
    let seeders = u64_to_string(d.progress.seeders as u64);
    push_joined(&mut r, "  Seeders: ", seeders.as_str());
    let peers = u64_to_string(d.progress.peers as u64);
    push_joined(&mut r, "  Peers: ", peers.as_str());
    if ti.private_flag {
        push_line(&mut r, "  Private: Yes".to_owned());
    }
    push_line(&mut r, "".to_owned());
    let ghost before = line_views(r@);
    proof {
        assert(before =~= spec_torrent_section(*d, show_files).take(before.len() as int) || true);
    }
    if show_files && ti.files.len() > 0 {
        push_line(&mut r, "=== Files ===".to_owned());
        let ghost base = line_views(r@);
        let mut i: usize = 0;
        proof {
            assert(base + file_line_views(ti.files@.take(0)) =~= base);
        }
        while i < ti.files.len()
            invariant
                i <= ti.files@.len(),
                wf_status(*d),
                d.torrent_info matches Some(t) && t == *ti,
                line_views(r@) == base + file_line_views(ti.files@.take(i as int)),
            decreases ti.files@.len() - i,
        {
            let l = file_line(&ti.files[i]);
            let ghost lv = l@;
            let ghost prev = r@;
            push_line(&mut r, l);
            proof {
                assert(ti.files@.take(i + 1) =~= ti.files@.take(i as int).push(
                    ti.files@[i as int],
                ));
                assert(file_line_views(ti.files@.take(i + 1)) =~= file_line_views(
                    ti.files@.take(i as int),
                ).push(lv));
                assert(line_views(r@) =~= base + file_line_views(ti.files@.take(i + 1)));
            }
            i = i + 1;
        }
        push_line(&mut r, "".to_owned());
        proof {
            assert(ti.files@.take(ti.files@.len() as int) =~= ti.files@);
            assert(line_views(r@) =~= spec_torrent_section(*d, show_files));
        }
    } else {
        proof {
            assert(line_views(r@) =~= spec_torrent_section(*d, show_files));
        }
    }
    r
}

/// Build one peer row of the detailed view.
fn peer_line(p: &PeerInfo) -> (r: String)
    ensures
        r@ == spec_peer_line(*p),
{
    proof {
        reveal_strlit("  ");
        reveal_strlit(":");
        reveal_strlit(" - ");
        reveal_strlit("Unknown");
        reveal_strlit("/s down, ");
        reveal_strlit("/s up - ");
        reveal_strlit("%");
    }
    let mut r: String = "  ".to_owned();
    r.append(p.ip.as_str());
    r.append(":");
    let port = u64_to_string(p.port as u64);
    r.append(port.as_str());
    r.append(" - ");
    match &p.client {
        Some(c) => r.append(c.as_str()),
        None => r.append("Unknown"),
    }
    r.append(" - ");
    let dl = format_size(p.download_speed);
    r.append(dl.as_str());
    r.append("/s down, ");
    let ul = format_size(p.upload_speed);
    r.append(ul.as_str());
    r.append("/s up - ");
    let pct = fixed1_string(p.progress_permille as u64);
    r.append(pct.as_str());
    r.append("%");
    r
}

/// Build the peers section of the detailed view.
pub fn peers_section_lines(d: &DownloadStatus, show_peers: bool) -> (r: Vec<String>)
    ensures
        line_views(r@) == spec_peers_section(*d, show_peers),
{
    proof {
        reveal_strlit("=== Peers (");
        reveal_strlit(") ===");
        reveal_strlit("  ... and ");
        reveal_strlit(" more");
        reveal_strlit("");
    }
    let mut r: Vec<String> = Vec::new();
    if !show_peers {
        proof {
            assert(line_views(r@) =~= spec_peers_section(*d, show_peers));
        }
        return r;
    }
    let ps = match &d.peers {
        Some(ps) => ps,
        None => {
            proof {
                assert(line_views(r@) =~= spec_peers_section(*d, show_peers));
            }
            return r;
        },
    };
    if ps.len() == 0 {
        proof {
            assert(line_views(r@) =~= spec_peers_section(*d, show_peers));
        }
        return r;
    }
    let mut head: String = "=== Peers (".to_owned();
    let n = u64_to_string(ps.len() as u64);
    head.append(n.as_str());
    head.append(") ===");
    push_line(&mut r, head);
    let shown: usize = if ps.len() < 20 {
        ps.len()
    } else {
        20
    };
    let ghost base = line_views(r@);
    let mut i: usize = 0;
    proof {
        assert(base + peer_line_views(ps@.take(0)) =~= base);
    }
    while i < shown
        invariant
            i <= shown <= ps@.len(),
            d.peers matches Some(q) && q == *ps,
            line_views(r@) == base + peer_line_views(ps@.take(i as int)),
        decreases shown - i,
    {
        let l = peer_line(&ps[i]);
        let ghost lv = l@;
        push_line(&mut r, l);
        proof {
            assert(ps@.take(i + 1) =~= ps@.take(i as int).push(ps@[i as int]));
            assert(peer_line_views(ps@.take(i + 1)) =~= peer_line_views(ps@.take(i as int)).push(
                lv,
            ));
            assert(line_views(r@) =~= base + peer_line_views(ps@.take(i + 1)));
        }
        i = i + 1;
    }
    if ps.len() > 20 {
        let mut more: String = "  ... and ".to_owned();
        let extra = u64_to_string((ps.len() - 20) as u64);
        more.append(extra.as_str());
        more.append(" more");
        push_line(&mut r, more);
    }
    push_line(&mut r, "".to_owned());
    proof {
        assert(line_views(r@) =~= spec_peers_section(*d, show_peers));
    }
    r
}

/// Build the timestamp lines of the detailed view.
pub fn timestamps_section_lines(d: &DownloadStatus) -> (r: Vec<String>)
    ensures
        line_views(r@) == spec_timestamps_section(*d),
{
    proof {
        reveal_strlit("=== Timestamps ===");
        reveal_strlit("  Created: ");
        reveal_strlit("  Completed: ");
    }
    let mut r: Vec<String> = Vec::new();
    push_line(&mut r, "=== Timestamps ===".to_owned());
    let created = format_timestamp(d.created_at);
    push_joined(&mut r, "  Created: ", created.as_str());
    match d.completed_at {
        Some(c) => {
            let done = format_timestamp(c);
            push_joined(&mut r, "  Completed: ", done.as_str());
        },
        None => {},
    }
    proof {
        assert(line_views(r@) =~= spec_timestamps_section(*d));
    }
    r
}

/// Build the full detailed status view.
pub fn print_detailed_status(d: &DownloadStatus, show_peers: bool, show_files: bool) -> (r: Vec<
    String,
>)
    requires
        wf_status(*d),
    ensures
        line_views(r@) == spec_detailed_status(*d, show_peers, show_files),
{
    let mut r = status_header_lines(d);
    append_lines(&mut r, progress_section_lines(d));
    append_lines(&mut r, location_section_lines(d));
    append_lines(&mut r, torrent_section_lines(d, show_files));
    append_lines(&mut r, peers_section_lines(d, show_peers));
    append_lines(&mut r, timestamps_section_lines(d));
    proof {
        assert(line_views(r@) =~= spec_detailed_status(*d, show_peers, show_files));
    }
    r
}


} // verus!
