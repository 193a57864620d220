//! Torrent metafile inspection: parsing through the engine's bencode
//! parser, the info-hash text form, and the plain-text report the info
//! view prints.

use vstd::prelude::*;

verus! {

use crate::format::{spec_format_size, format_size};
use crate::numfmt::{bytes_hex, decimal_digits, hex_of_byte_vec, u64_to_string};
use crate::report::{civil_datetime, format_timestamp, line_views, pad_left, pad_left_string,
    push_joined, push_line, append_lines};
use vstd::string::StringExecFns;

/// Parsed torrent metadata, as plain values.
#[derive(Debug, Clone)]
pub struct TorrentMeta {
    /// Suggested name.
    pub name: String,
    /// SHA-1 of the raw bencoded info dictionary, twenty bytes.
    pub info_hash: Vec<u8>,
    /// Total size of all files in bytes.
    pub total_size: u64,
    /// Bytes per piece.
    pub piece_length: u64,
    /// Number of pieces.
    pub pieces_count: usize,
    /// Whether the torrent is private.
    pub private_flag: bool,
    /// Files: path and length.
    pub files: Vec<(String, u64)>,
    /// Primary announce URL.
    pub announce: Option<String>,
    /// Announce tiers.
    pub announce_list: Vec<Vec<String>>,
    /// Creation timestamp, seconds since the epoch.
    pub creation_date: Option<i64>,
    /// Creating client.
    pub created_by: Option<String>,
    /// Comment.
    pub comment: Option<String>,
    /// Web seed URLs.
    pub url_list: Vec<String>,
}

/// The ghost view of parsed torrent metadata.
pub struct TorrentMetaV {
    pub name: Seq<char>,
    pub info_hash: Seq<u8>,
    pub total_size: u64,
    pub piece_length: u64,
    pub pieces_count: usize,
    pub private_flag: bool,
    pub files: Seq<(Seq<char>, u64)>,
    pub announce: Option<Seq<char>>,
    pub announce_list: Seq<Seq<Seq<char>>>,
    pub creation_date: Option<i64>,
    pub created_by: Option<Seq<char>>,
    pub comment: Option<Seq<char>>,
    pub url_list: Seq<Seq<char>>,
}

/// The view of one file entry.
pub open spec fn file_view(f: (String, u64)) -> (Seq<char>, u64) {
    (f.0@, f.1)
}

/// The view of a list of strings.
pub open spec fn strings_view(v: Seq<String>) -> Seq<Seq<char>> {
    v.map_values(|s: String| s@)
}

/// The view of parsed torrent metadata.
pub open spec fn meta_view(m: TorrentMeta) -> TorrentMetaV {
    TorrentMetaV {
        name: m.name@,
        info_hash: m.info_hash@,
        total_size: m.total_size,
        piece_length: m.piece_length,
        pieces_count: m.pieces_count,
        private_flag: m.private_flag,
        files: m.files@.map_values(|f: (String, u64)| file_view(f)),
        announce: crate::config::opt_view(m.announce),
        announce_list: m.announce_list@.map_values(|t: Vec<String>| strings_view(t@)),
        creation_date: m.creation_date,
        created_by: crate::config::opt_view(m.created_by),
        comment: crate::config::opt_view(m.comment),
        url_list: strings_view(m.url_list@),
    }
}

/// What a torrent metafile parses to, when it parses: a pure function of
/// the raw bytes, the info hash included. File paths are rendered with
/// the platform's separator, so the value stands for this build's
/// reading.
pub uninterp spec fn parsed_torrent(b: Seq<u8>) -> Option<TorrentMetaV>;

/// Relies on the engine's `Metainfo::parse`: bencode parsing and the
/// info-hash computation over the raw info-dictionary slice are pure
/// functions of the input bytes.
#[verifier::external_body]
pub fn parse_torrent(bytes: &Vec<u8>) -> (r: Result<TorrentMeta, String>)
    ensures
        r is Ok <==> parsed_torrent(bytes@) is Some,
        r is Ok ==> meta_view(r->Ok_0) == parsed_torrent(bytes@)->0,
{
    match gosh_dl::torrent::Metainfo::parse(bytes.as_slice()) {
        Ok(m) => Ok(TorrentMeta {
            name: m.info.name, info_hash: m.info_hash.to_vec(), total_size: m.info.total_size,
            piece_length: m.info.piece_length, pieces_count: m.info.pieces.len(),
            private_flag: m.info.private, announce: m.announce, announce_list: m.announce_list,
            creation_date: m.creation_date, created_by: m.created_by, comment: m.comment,
            url_list: m.url_list,
            files: m.info.files.into_iter().map(|f| (f.path.display().to_string(), f.length)).collect(),
        }),
        Err(e) => Err(e.to_string()),
    }
}

/// Re-reading the same bytes gives the same metadata, and with it the
/// same info hash: parsing is stable under re-read.
pub proof fn lemma_parse_stable(b1: Seq<u8>, b2: Seq<u8>)
    requires
        b1 == b2,
    ensures
        parsed_torrent(b1) == parsed_torrent(b2),
        parsed_torrent(b1) matches Some(m) ==> parsed_torrent(b2)->0.info_hash == m.info_hash,
{
}

/// The lowercase hex text of the info hash.
pub fn info_hash_hex(m: &TorrentMeta) -> (r: String)
    ensures
        r@ == bytes_hex(m.info_hash@),
{
    hex_of_byte_vec(&m.info_hash)
}

/// The heading lines of the torrent report.
pub open spec fn spec_torrent_head(m: TorrentMeta) -> Seq<Seq<char>> {
    seq![
        "=== Torrent Information ==="@,
        "Name: "@ + m.name@,
        "Info Hash: "@ + bytes_hex(m.info_hash@),
        "Size: "@ + spec_format_size(m.total_size as nat) + " ("@ + decimal_digits(
            m.total_size as nat,
        ) + " bytes)"@,
        "Piece Size: "@ + spec_format_size(m.piece_length as nat),
        "Pieces: "@ + decimal_digits(m.pieces_count as nat),
    ] + (if m.private_flag {
        seq!["Private: Yes"@]
    } else {
        Seq::empty()
    }) + seq![""@]
}

/// The tracker lines of the torrent report.
pub open spec fn spec_tracker_lines(m: TorrentMeta) -> Seq<Seq<char>> {
    (match m.announce {
        Some(a) => seq!["=== Tracker ==="@, "Primary: "@ + a@],
        None => Seq::empty(),
    }) + (if m.announce_list@.len() > 0 {
        seq!["Tracker Tiers:"@] + tier_lines(m.announce_list@, 0) + seq![""@]
    } else {
        Seq::empty()
    })
}

/// The lines of the announce tiers from `i` on, each a numbered header
/// and its trackers.
pub open spec fn tier_lines(ts: Seq<Vec<String>>, i: int) -> Seq<Seq<char>>
    decreases ts.len() - i,
{
    if i < 0 || i >= ts.len() {
        Seq::empty()
    } else {
        seq!["  Tier "@ + decimal_digits((i + 1) as nat) + ":"@] + tracker_lines(ts[i]@)
            + tier_lines(ts, i + 1)
    }
}

/// One line per tracker in a tier.
pub open spec fn tracker_lines(t: Seq<String>) -> Seq<Seq<char>> {
    t.map_values(|u: String| "    - "@ + u@)
}

/// The web-seed lines of the torrent report.
pub open spec fn spec_webseed_lines(m: TorrentMeta) -> Seq<Seq<char>> {
    if m.url_list@.len() > 0 {
        seq!["=== Web Seeds ==="@] + m.url_list@.map_values(|u: String| "  - "@ + u@) + seq![""@]
    } else {
        Seq::empty()
    }
}

/// The file lines of the torrent report.
pub open spec fn spec_file_lines(m: TorrentMeta) -> Seq<Seq<char>> {
    seq!["=== Files ("@ + decimal_digits(m.files@.len()) + ") ==="@] + file_rows(m.files@, 0)
        + seq![""@]
}

/// The file rows from `i` on: index, human size and path.
pub open spec fn file_rows(fs: Seq<(String, u64)>, i: int) -> Seq<Seq<char>>
    decreases fs.len() - i,
{
    if i < 0 || i >= fs.len() {
        Seq::empty()
    } else {
        seq![
            "  ["@ + pad_left(decimal_digits(i as nat), 3) + "] "@ + pad_left(
                spec_format_size(fs[i].1 as nat),
                10,
            ) + "  "@ + fs[i].0@,
        ] + file_rows(fs, i + 1)
    }
}

/// The trailing metadata lines of the torrent report.
pub open spec fn spec_meta_lines(m: TorrentMeta) -> Seq<Seq<char>> {
    seq!["=== Metadata ==="@] + (match m.creation_date {
        Some(d) => seq!["Created: "@ + civil_datetime(d)],
        None => Seq::empty(),
    }) + (match m.created_by {
        Some(b) => seq!["Created By: "@ + b@],
        None => Seq::empty(),
    }) + (match m.comment {
        Some(c) => seq!["Comment: "@ + c@],
        None => Seq::empty(),
    })
}

/// Everything the torrent info view prints.
pub open spec fn spec_torrent_report(m: TorrentMeta) -> Seq<Seq<char>> {
    spec_torrent_head(m) + spec_tracker_lines(m) + spec_webseed_lines(m) + spec_file_lines(m)
        + spec_meta_lines(m)
}

/// Build the heading lines of the torrent report.
fn torrent_head_lines(m: &TorrentMeta) -> (r: Vec<String>)
    ensures
        line_views(r@) == spec_torrent_head(*m),
{
    proof {
        reveal_strlit("=== Torrent Information ===");
        reveal_strlit("Name: ");
        reveal_strlit("Info Hash: ");
        reveal_strlit("Size: ");
        reveal_strlit(" (");
        reveal_strlit(" bytes)");
        reveal_strlit("Piece Size: ");
        reveal_strlit("Pieces: ");
        reveal_strlit("Private: Yes");
        reveal_strlit("");
    }
    let mut r: Vec<String> = Vec::new();
    push_line(&mut r, "=== Torrent Information ===".to_owned());
    push_joined(&mut r, "Name: ", m.name.as_str());
    let hash = info_hash_hex(m);
    push_joined(&mut r, "Info Hash: ", hash.as_str());
    let mut size: String = "Size: ".to_owned();
    let h = format_size(m.total_size);
    size.append(h.as_str());
    size.append(" (");
    let b = u64_to_string(m.total_size);
    size.append(b.as_str());
    size.append(" bytes)");
    push_line(&mut r, size);
    let ps = format_size(m.piece_length);
    push_joined(&mut r, "Piece Size: ", ps.as_str());
    let pc = u64_to_string(m.pieces_count as u64);
    push_joined(&mut r, "Pieces: ", pc.as_str());
    if m.private_flag {
        push_line(&mut r, "Private: Yes".to_owned());
    }
    push_line(&mut r, "".to_owned());
    proof {
        assert(line_views(r@) =~= spec_torrent_head(*m));
    }
    r
}

/// Build the tracker lines of the torrent report.
fn torrent_tracker_lines(m: &TorrentMeta) -> (r: Vec<String>)
    ensures
        line_views(r@) == spec_tracker_lines(*m),
{
    proof {
        reveal_strlit("=== Tracker ===");
        reveal_strlit("Primary: ");
        reveal_strlit("Tracker Tiers:");
        reveal_strlit("  Tier ");
        reveal_strlit(":");
        reveal_strlit("    - ");
        reveal_strlit("");
    }
    let mut r: Vec<String> = Vec::new();
    match &m.announce {
        Some(a) => {
            push_line(&mut r, "=== Tracker ===".to_owned());
            push_joined(&mut r, "Primary: ", a.as_str());
        },
        None => {},
    }
    if m.announce_list.len() > 0 {
        push_line(&mut r, "Tracker Tiers:".to_owned());
        let ghost base = line_views(r@);
        let mut i: usize = 0;
        proof {
            assert(base + tier_lines_upto(m.announce_list@, 0) =~= base);
        }
        while i < m.announce_list.len()
            invariant
                i <= m.announce_list@.len(),
                line_views(r@) == base + tier_lines_upto(m.announce_list@, i as int),
            decreases m.announce_list@.len() - i,
        {
            let mut head: String = "  Tier ".to_owned();
            let n = u64_to_string((i + 1) as u64);
            head.append(n.as_str());
            head.append(":");
            push_line(&mut r, head);
            let tier = &m.announce_list[i];
            let ghost tier_base = line_views(r@);
            let mut j: usize = 0;
            proof {
                assert(tier_base + tracker_lines(tier@).take(0) =~= tier_base);
            }
            while j < tier.len()
                invariant
                    j <= tier@.len(),
                    tier == m.announce_list@[i as int],
                    line_views(r@) == tier_base + tracker_lines(tier@).take(j as int),
                decreases tier@.len() - j,
            {
                push_joined(&mut r, "    - ", tier[j].as_str());
                proof {
                    assert(tracker_lines(tier@).take(j + 1) =~= tracker_lines(tier@).take(
                        j as int,
                    ).push("    - "@ + tier@[j as int]@));
                    assert(line_views(r@) =~= tier_base + tracker_lines(tier@).take(j + 1));
                }
                j = j + 1;
            }
            proof {
                assert(tracker_lines(tier@).take(tier@.len() as int) =~= tracker_lines(tier@));
                lemma_tier_lines_step(m.announce_list@, i as int);
                assert(line_views(r@) =~= base + tier_lines_upto(m.announce_list@, i + 1));
            }
            i = i + 1;
        }
        push_line(&mut r, "".to_owned());
        proof {
            lemma_tier_lines_full(m.announce_list@);
            assert(line_views(r@) =~= spec_tracker_lines(*m));
        }
    } else {
        proof {
            assert(line_views(r@) =~= spec_tracker_lines(*m));
        }
    }
    r
}

/// The tier lines of the first `i` tiers.
pub open spec fn tier_lines_upto(ts: Seq<Vec<String>>, i: int) -> Seq<Seq<char>>
    decreases i,
{
    if i <= 0 {
        Seq::empty()
    } else {
        tier_lines_upto(ts, i - 1) + seq!["  Tier "@ + decimal_digits(i as nat) + ":"@]
            + tracker_lines(ts[i - 1]@)
    }
}

/// Extending the prefix of rendered tiers by one.
proof fn lemma_tier_lines_step(ts: Seq<Vec<String>>, i: int)
    requires
        0 <= i < ts.len(),
    ensures
        tier_lines_upto(ts, i + 1) == tier_lines_upto(ts, i) + seq![
            "  Tier "@ + decimal_digits((i + 1) as nat) + ":"@,
        ] + tracker_lines(ts[i]@),
{
}

/// All tiers rendered forward equal all tiers rendered backward.
proof fn lemma_tier_lines_full(ts: Seq<Vec<String>>)
    ensures
        tier_lines_upto(ts, ts.len() as int) == tier_lines(ts, 0),
{
    lemma_tier_lines_agree(ts, ts.len() as int);
}

/// The two tier renderings agree at every split point.
proof fn lemma_tier_lines_agree(ts: Seq<Vec<String>>, i: int)
    requires
        0 <= i <= ts.len(),
    ensures
        tier_lines_upto(ts, i) + tier_lines(ts, i) == tier_lines(ts, 0),
    decreases i,
{
    if i == 0 {
        assert(tier_lines_upto(ts, 0) + tier_lines(ts, 0) =~= tier_lines(ts, 0));
    } else {
        lemma_tier_lines_agree(ts, i - 1);
        assert(tier_lines(ts, i - 1) =~= seq!["  Tier "@ + decimal_digits(i as nat) + ":"@]
            + tracker_lines(ts[i - 1]@) + tier_lines(ts, i));
        assert(tier_lines_upto(ts, i) + tier_lines(ts, i) =~= tier_lines_upto(ts, i - 1)
            + tier_lines(ts, i - 1));
    }
}

/// Build the web-seed lines of the torrent report.
fn torrent_webseed_lines(m: &TorrentMeta) -> (r: Vec<String>)
    ensures
        line_views(r@) == spec_webseed_lines(*m),
{
    proof {
        reveal_strlit("=== Web Seeds ===");
        reveal_strlit("  - ");
        reveal_strlit("");
    }
    let mut r: Vec<String> = Vec::new();
    if m.url_list.len() == 0 {
        proof {
            assert(line_views(r@) =~= spec_webseed_lines(*m));
        }
        return r;
    }
    push_line(&mut r, "=== Web Seeds ===".to_owned());
    let ghost base = line_views(r@);
    let ghost rows = m.url_list@.map_values(|u: String| "  - "@ + u@);
    let mut i: usize = 0;
    proof {
        assert(base + rows.take(0) =~= base);
    }
    while i < m.url_list.len()
        invariant
            i <= m.url_list@.len(),
            rows == m.url_list@.map_values(|u: String| "  - "@ + u@),
            line_views(r@) == base + rows.take(i as int),
        decreases m.url_list@.len() - i,
    {
        push_joined(&mut r, "  - ", m.url_list[i].as_str());
        proof {
            assert(rows.take(i + 1) =~= rows.take(i as int).push("  - "@
                + m.url_list@[i as int]@));
            assert(line_views(r@) =~= base + rows.take(i + 1));
        }
        i = i + 1;
    }
    push_line(&mut r, "".to_owned());
    proof {
        assert(rows.take(rows.len() as int) =~= rows);
        assert(line_views(r@) =~= spec_webseed_lines(*m));
    }
    r
}

/// Build the file lines of the torrent report.
fn torrent_file_lines(m: &TorrentMeta) -> (r: Vec<String>)
    ensures
        line_views(r@) == spec_file_lines(*m),
{
    proof {
        reveal_strlit("=== Files (");
        reveal_strlit(") ===");
        reveal_strlit("  [");
        reveal_strlit("] ");
        reveal_strlit("  ");
        reveal_strlit("");
    }
    let mut r: Vec<String> = Vec::new();
    let mut head: String = "=== Files (".to_owned();
    let n = u64_to_string(m.files.len() as u64);
    head.append(n.as_str());
    head.append(") ===");
    push_line(&mut r, head);
    let ghost base = line_views(r@);
    let mut i: usize = 0;
    proof {
        assert(base + file_rows_upto(m.files@, 0) =~= base);
    }
    while i < m.files.len()
        invariant
            i <= m.files@.len(),
            line_views(r@) == base + file_rows_upto(m.files@, i as int),
        decreases m.files@.len() - i,
    {
        let mut l: String = "  [".to_owned();
        let idx = pad_left_string(u64_to_string(i as u64), 3);
        l.append(idx.as_str());
        l.append("] ");
        let size = pad_left_string(format_size(m.files[i].1), 10);
        l.append(size.as_str());
        l.append("  ");
        l.append(m.files[i].0.as_str());
        push_line(&mut r, l);
        proof {
            lemma_file_rows_step(m.files@, i as int);
            assert(line_views(r@) =~= base + file_rows_upto(m.files@, i + 1));
        }
        i = i + 1;
    }
    push_line(&mut r, "".to_owned());
    proof {
        lemma_file_rows_full(m.files@);
        assert(line_views(r@) =~= spec_file_lines(*m));
    }
    r
}

/// The file rows of the first `i` files.
pub open spec fn file_rows_upto(fs: Seq<(String, u64)>, i: int) -> Seq<Seq<char>>
    decreases i,
{
    if i <= 0 {
        Seq::empty()
    } else {
        file_rows_upto(fs, i - 1) + seq![
            "  ["@ + pad_left(decimal_digits((i - 1) as nat), 3) + "] "@ + pad_left(
                spec_format_size(fs[i - 1].1 as nat),
                10,
            ) + "  "@ + fs[i - 1].0@,
        ]
    }
}

/// Extending the prefix of rendered file rows by one.
proof fn lemma_file_rows_step(fs: Seq<(String, u64)>, i: int)
    requires
        0 <= i < fs.len(),
    ensures
        file_rows_upto(fs, i + 1) == file_rows_upto(fs, i) + seq![
            "  ["@ + pad_left(decimal_digits(i as nat), 3) + "] "@ + pad_left(
                spec_format_size(fs[i].1 as nat),
                10,
            ) + "  "@ + fs[i].0@,
        ],
{
}

/// All file rows rendered forward equal all rendered backward.
proof fn lemma_file_rows_full(fs: Seq<(String, u64)>)
    ensures
        file_rows_upto(fs, fs.len() as int) == file_rows(fs, 0),
{
    lemma_file_rows_agree(fs, fs.len() as int);
}

/// The two file renderings agree at every split point.
proof fn lemma_file_rows_agree(fs: Seq<(String, u64)>, i: int)
    requires
        0 <= i <= fs.len(),
    ensures
        file_rows_upto(fs, i) + file_rows(fs, i) == file_rows(fs, 0),
    decreases i,
{
    if i == 0 {
        assert(file_rows_upto(fs, 0) + file_rows(fs, 0) =~= file_rows(fs, 0));
    } else {
        lemma_file_rows_agree(fs, i - 1);
        assert(file_rows(fs, i - 1) =~= seq![
            "  ["@ + pad_left(decimal_digits((i - 1) as nat), 3) + "] "@ + pad_left(
                spec_format_size(fs[i - 1].1 as nat),
                10,
            ) + "  "@ + fs[i - 1].0@,
        ] + file_rows(fs, i));
        assert(file_rows_upto(fs, i) + file_rows(fs, i) =~= file_rows_upto(fs, i - 1)
            + file_rows(fs, i - 1));
    }
}

/// Build the trailing metadata lines of the torrent report.
fn torrent_meta_lines(m: &TorrentMeta) -> (r: Vec<String>)
    ensures
        line_views(r@) == spec_meta_lines(*m),
{
    proof {
        reveal_strlit("=== Metadata ===");
        reveal_strlit("Created: ");
        reveal_strlit("Created By: ");
        reveal_strlit("Comment: ");
    }
    let mut r: Vec<String> = Vec::new();
    push_line(&mut r, "=== Metadata ===".to_owned());
    match m.creation_date {
        Some(d) => {
            let t = format_timestamp(d);
            push_joined(&mut r, "Created: ", t.as_str());
        },
        None => {},
    }
    match &m.created_by {
        Some(b) => push_joined(&mut r, "Created By: ", b.as_str()),
        None => {},
    }
    match &m.comment {
        Some(c) => push_joined(&mut r, "Comment: ", c.as_str()),
        None => {},
    }
    proof {
        assert(line_views(r@) =~= spec_meta_lines(*m));
    }
    r
}

/// Build the full torrent info report.
pub fn print_torrent_info(m: &TorrentMeta) -> (r: Vec<String>)
    ensures
        line_views(r@) == spec_torrent_report(*m),
{
    let mut r = torrent_head_lines(m);
    append_lines(&mut r, torrent_tracker_lines(m));
    append_lines(&mut r, torrent_webseed_lines(m));
    append_lines(&mut r, torrent_file_lines(m));
    append_lines(&mut r, torrent_meta_lines(m));
    proof {
        assert(line_views(r@) =~= spec_torrent_report(*m));
    }
    r
}

} // verus!
