//! The logic behind the command-line verbs: argument bags, download
//! option assembly, checksum strings, URL list handling, identifier lists
//! with the `all` keyword, the completion tracker behind `--wait` and
//! direct mode, and the exit codes direct mode reports.

use vstd::prelude::*;

verus! {

use crate::format::DownloadState;
use crate::id::{DownloadId, IdError, parse_download_id, spec_from_gid, uuid_parsed};
use crate::input::{InputKind, ParsedInput, starts_with, parsed_view, vec_eq_str};
use crate::numfmt::decimal_digits;
use crate::report::{line_views, pad_right, pad_right_string, repeat_char, repeated, push_line};
use crate::status::{DownloadPriority, DownloadProgress, StateFilter};
use crate::text::{lowered, trimmed};
use crate::util::{chars_to_string, lower_chars, string_chars, spec_truncate_str, trim_chars,
    truncate_str, parse_u64_in};
use vstd::string::StringExecFns;

/// Output format of the command-line views.
#[derive(Debug, Clone, Copy, PartialEq, Eq, Structural)]
pub enum OutputFormat {
    /// Human-readable table.
    Table,
    /// Compact JSON.
    Json,
    /// Pretty-printed JSON.
    JsonPretty,
}

/// Priority choice on the command line.
#[derive(Debug, Clone, Copy, PartialEq, Eq, Structural)]
pub enum Priority {
    Low,
    Normal,
    High,
    Critical,
}

impl Priority {
    /// The engine-side priority this choice stands for.
    pub fn to_engine_priority(self) -> (r: DownloadPriority)
        ensures
            self == Priority::Low ==> r == DownloadPriority::Low,
            self == Priority::Normal ==> r == DownloadPriority::Normal,
            self == Priority::High ==> r == DownloadPriority::High,
            self == Priority::Critical ==> r == DownloadPriority::Critical,
    {
        match self {
            Priority::Low => DownloadPriority::Low,
            Priority::Normal => DownloadPriority::Normal,
            Priority::High => DownloadPriority::High,
            Priority::Critical => DownloadPriority::Critical,
        }
    }
}

/// Arguments of the list command.
#[derive(Debug, Clone)]
pub struct ListArgs {
    /// Filter by state.
    pub state: Option<StateFilter>,
    /// Show only download identifiers.
    pub ids_only: bool,
}

/// Arguments of the status command.
#[derive(Debug, Clone)]
pub struct StatusArgs {
    /// Download identifier, full or short.
    pub id: String,
    /// Show peer information.
    pub peers: bool,
    /// Show the file list.
    pub files: bool,
}

/// Arguments of the pause command.
#[derive(Debug, Clone)]
pub struct PauseArgs {
    /// Identifiers to pause; `all` pauses every active download.
    pub ids: Vec<String>,
}

/// Arguments of the resume command.
#[derive(Debug, Clone)]
pub struct ResumeArgs {
    /// Identifiers to resume; `all` resumes every paused download.
    pub ids: Vec<String>,
}

/// Arguments of the cancel command.
#[derive(Debug, Clone)]
pub struct CancelArgs {
    /// Identifiers to cancel.
    pub ids: Vec<String>,
    /// Also delete downloaded files.
    pub delete: bool,
    /// Skip the confirmation prompt.
    pub yes: bool,
}

/// Arguments of the priority command.
#[derive(Debug, Clone)]
pub struct PriorityArgs {
    /// Download identifier.
    pub id: String,
    /// The new priority.
    pub priority: Priority,
}

/// Arguments of the torrent info command.
#[derive(Debug, Clone)]
pub struct InfoArgs {
    /// Path to the torrent metafile.
    pub file: String,
}

/// Arguments of the config command.
#[derive(Debug, Clone)]
pub struct ConfigArgs {
    pub action: ConfigAction,
}

/// The configuration subcommands.
#[derive(Debug, Clone)]
pub enum ConfigAction {
    /// Show the whole configuration.
    Show,
    /// Show the configuration file path.
    Path,
    /// Set one value.
    SetValue { key: String, value: String },
    /// Get one value.
    GetValue { key: String },
}

/// Arguments of the add command.
#[derive(Debug, Clone)]
pub struct AddArgs {
    /// URLs, magnet links or torrent paths.
    pub urls: Vec<String>,
    /// Read URLs from a file.
    pub input_file: Option<String>,
    /// Output directory.
    pub dir: Option<String>,
    /// Output filename, for a single download.
    pub out: Option<String>,
    /// Download priority.
    pub priority: Priority,
    /// Wait for completion.
    pub wait: bool,
    /// Custom headers, as `Name: Value`.
    pub headers: Vec<String>,
    /// User agent.
    pub user_agent: Option<String>,
    /// Referer.
    pub referer: Option<String>,
    /// Cookies, as `name=value`.
    pub cookies: Vec<String>,
    /// Expected checksum, as `md5:HEX` or `sha256:HEX`.
    pub checksum: Option<String>,
    /// Connection cap per download.
    pub max_connections: Option<usize>,
    /// Download speed cap, with `K`/`M`/`G` suffixes.
    pub max_speed: Option<String>,
    /// Sequential piece order, for torrents.
    pub sequential: bool,
    /// Selected file indices, comma separated, for torrents.
    pub select_files: Option<String>,
    /// Seed ratio target in tenths, for torrents.
    pub seed_ratio_tenths: Option<u64>,
}

/// Options handed to the engine with each new download.
#[derive(Debug, Clone)]
pub struct DownloadOptions {
    /// Priority.
    pub priority: DownloadPriority,
    /// Save directory override.
    pub save_dir: Option<String>,
    /// Filename override.
    pub filename: Option<String>,
    /// User agent override.
    pub user_agent: Option<String>,
    /// Referer.
    pub referer: Option<String>,
    /// Custom headers.
    pub headers: Vec<(String, String)>,
    /// Cookies.
    pub cookies: Option<Vec<String>>,
    /// Expected checksum.
    pub checksum: Option<ExpectedChecksum>,
    /// Connection cap.
    pub max_connections: Option<usize>,
    /// Download speed cap in bytes per second.
    pub max_download_speed: Option<u64>,
    /// Sequential piece order.
    pub sequential: Option<bool>,
    /// Selected file indices.
    pub selected_files: Option<Vec<usize>>,
    /// Seed ratio target in tenths.
    pub seed_ratio_tenths: Option<u64>,
}

/// A checksum the finished file must match.
#[derive(Debug, Clone)]
pub struct ExpectedChecksum {
    /// The algorithm.
    pub algorithm: ChecksumAlgorithm,
    /// The expected digest, in hex.
    pub expected: String,
}

/// Checksum algorithms the engine verifies.
#[derive(Debug, Clone, Copy, PartialEq, Eq, Structural)]
pub enum ChecksumAlgorithm {
    Md5,
    Sha256,
}

/// One added download, as the add command reports it.
#[derive(Debug, Clone)]
pub struct AddResult {
    /// The gid.
    pub id: String,
    /// The display form of the input.
    pub input: String,
    /// The kind label: `http`, `magnet` or `torrent`.
    pub kind: String,
}

/// What checksum parsing owes: an `md5:` or `sha256:` prefix and the rest
/// as the digest.
pub open spec fn spec_parse_checksum(s: Seq<char>) -> Option<(ChecksumAlgorithm, Seq<char>)> {
    if starts_with(s, "md5:"@) {
        Some((ChecksumAlgorithm::Md5, s.skip(4)))
    } else if starts_with(s, "sha256:"@) {
        Some((ChecksumAlgorithm::Sha256, s.skip(7)))
    } else {
        None
    }
}

/// Parse an expected checksum of the form `md5:HEX` or `sha256:HEX`.
pub fn parse_checksum(s: &str) -> (r: Option<ExpectedChecksum>)
    ensures
        r is Some <==> spec_parse_checksum(s@) is Some,
        r matches Some(c) ==> Some((c.algorithm, c.expected@)) == spec_parse_checksum(s@),
{
    let cs = string_chars(s);
    let md5 = string_chars("md5:");
    let sha = string_chars("sha256:");
    proof {
        reveal_strlit("md5:");
        reveal_strlit("sha256:");
    }
    if crate::input::vec_starts_with(&cs, &md5) {
        let rest = copy_tail(&cs, 4);
        Some(ExpectedChecksum { algorithm: ChecksumAlgorithm::Md5, expected: chars_to_string(&rest) })
    } else if crate::input::vec_starts_with(&cs, &sha) {
        let rest = copy_tail(&cs, 7);
        Some(
            ExpectedChecksum { algorithm: ChecksumAlgorithm::Sha256, expected: chars_to_string(&rest) },
        )
    } else {
        None
    }
}

/// The characters of `v` from `from` on.
fn copy_tail(v: &Vec<char>, from: usize) -> (r: Vec<char>)
    requires
        from <= v@.len(),
    ensures
        r@ == v@.skip(from as int),
{
    let mut r: Vec<char> = Vec::new();
    let mut i: usize = from;
    while i < v.len()
        invariant
            from <= i <= v@.len(),
            r@ == v@.subrange(from as int, i as int),
        decreases v@.len() - i,
    {
        r.push(v[i]);
        proof {
            assert(v@.subrange(from as int, i + 1) =~= v@.subrange(from as int, i as int).push(
                v@[i as int],
            ));
        }
        i = i + 1;
    }
    proof {
        assert(v@.subrange(from as int, v@.len() as int) =~= v@.skip(from as int));
    }
    r
}

/// The header pairs a list of `Name: Value` strings yields: each entry
/// with a colon is split there, both halves trimmed; entries without a
/// colon are dropped.
pub open spec fn spec_header_pairs(hs: Seq<Seq<char>>) -> Seq<(Seq<char>, Seq<char>)>
    decreases hs.len(),
{
    if hs.len() == 0 {
        Seq::empty()
    } else {
        let rest = spec_header_pairs(hs.drop_first());
        match crate::input::find_from(hs[0], ":"@, 0) {
            Some(i) => seq![(trimmed(hs[0].take(i)), trimmed(hs[0].skip(i + 1)))] + rest,
            None => rest,
        }
    }
}

/// Split custom header strings into trimmed name and value pairs.
pub fn parse_header_pairs(headers: &Vec<String>) -> (r: Vec<(String, String)>)
    ensures
        r@.map_values(|p: (String, String)| (p.0@, p.1@)) == spec_header_pairs(
            headers@.map_values(|h: String| h@),
        ),
{
    proof {
        reveal_strlit(":");
    }
    let mut r: Vec<(String, String)> = Vec::new();
    let mut i: usize = 0;
    proof {
        assert(headers@.map_values(|h: String| h@).skip(0) =~= headers@.map_values(
            |h: String| h@,
        ));
    }
    while i < headers.len()
        invariant
            i <= headers@.len(),
            r@.map_values(|p: (String, String)| (p.0@, p.1@)) + spec_header_pairs(
                headers@.map_values(|h: String| h@).skip(i as int),
            ) == spec_header_pairs(headers@.map_values(|h: String| h@)),
        decreases headers@.len() - i,
    {
        let hv = string_chars(headers[i].as_str());
        let colon = string_chars(":");
        let ghost hs = headers@.map_values(|h: String| h@);
        proof {
            reveal_strlit(":");
            assert(hs.skip(i as int)[0] == hs[i as int]);
            assert(hs.skip(i as int).drop_first() =~= hs.skip(i + 1));
        }
        match crate::input::vec_find_from(&hv, &colon, 0) {
            Some(p) => {
                let name_chars = trim_range(&hv, 0, p);
                let value_chars = trim_range(&hv, p + 1, hv.len());
                let ghost prev = r@;
                let pair = (chars_to_string(&name_chars), chars_to_string(&value_chars));
                let ghost pairv = ((pair.0)@, (pair.1)@);
                r.push(pair);
                proof {
                    assert(r@.map_values(|p: (String, String)| (p.0@, p.1@)) =~= prev.map_values(
                        |p: (String, String)| (p.0@, p.1@),
                    ).push(pairv));
                    assert(hv@.take(p as int) =~= hs[i as int].take(p as int));
                    assert(hv@.skip(p + 1) =~= hs[i as int].skip(p + 1));
                    assert(r@.map_values(|p: (String, String)| (p.0@, p.1@)) + spec_header_pairs(
                        hs.skip(i + 1),
                    ) =~= spec_header_pairs(hs));
                }
            },
            None => {
                proof {
                    assert(r@.map_values(|p: (String, String)| (p.0@, p.1@)) + spec_header_pairs(
                        hs.skip(i + 1),
                    ) =~= spec_header_pairs(hs));
                }
            },
        }
        i = i + 1;
    }
    proof {
        let hs = headers@.map_values(|h: String| h@);
        assert(hs.skip(hs.len() as int) =~= Seq::<Seq<char>>::empty());
        assert(r@.map_values(|p: (String, String)| (p.0@, p.1@)) + spec_header_pairs(
            Seq::<Seq<char>>::empty(),
        ) =~= r@.map_values(|p: (String, String)| (p.0@, p.1@)));
    }
    r
}

/// The trimmed characters of `v` between `a` and `b`.
fn trim_range(v: &Vec<char>, a: usize, b: usize) -> (r: Vec<char>)
    requires
        a <= b <= v@.len(),
    ensures
        r@ == trimmed(v@.subrange(a as int, b as int)),
{
    let mut part: Vec<char> = Vec::new();
    let mut i: usize = a;
    while i < b
        invariant
            a <= i <= b <= v@.len(),
            part@ == v@.subrange(a as int, i as int),
        decreases b - i,
    {
        part.push(v[i]);
        proof {
            assert(v@.subrange(a as int, i + 1) =~= v@.subrange(a as int, i as int).push(
                v@[i as int],
            ));
        }
        i = i + 1;
    }
    crate::util::trim_vec(&part)
}

/// The selected file indices a comma-separated string yields: each piece
/// trimmed, pieces that parse kept.
pub open spec fn spec_selected_indices(s: Seq<char>) -> Seq<usize>
    decreases s.len(),
    via spec_selected_indices_decreases
{
    match crate::input::find_from(s, ","@, 0) {
        Some(i) => {
            let head = match crate::config::spec_parse_usize(trimmed(s.take(i))) {
                Some(v) => seq![v],
                None => Seq::empty(),
            };
            head + spec_selected_indices(s.skip(i + 1))
        },
        None => match crate::config::spec_parse_usize(trimmed(s)) {
            Some(v) => seq![v],
            None => Seq::empty(),
        },
    }
}

/// The recursion in `spec_selected_indices` consumes past each comma.
#[via_fn]
proof fn spec_selected_indices_decreases(s: Seq<char>) {
    reveal_strlit(",");
    crate::input::lemma_find_from_ge(s, ","@, 0);
}

/// Parse the comma-separated selected file indices; pieces that do not
/// parse are dropped.
pub fn parse_selected_indices(s: &str) -> (r: Vec<usize>)
    ensures
        r@ == spec_selected_indices(s@),
{
    proof {
        reveal_strlit(",");
    }
    let cs = string_chars(s);
    let comma = string_chars(",");
    let mut r: Vec<usize> = Vec::new();
    let mut rest = cs;
    let ghost whole = s@;
    proof {
        assert(r@ + spec_selected_indices(rest@) =~= spec_selected_indices(whole));
    }
    loop
        invariant_except_break
            r@ + spec_selected_indices(rest@) == spec_selected_indices(whole),
            comma@ == ","@,
            comma@.len() == 1,
        ensures
            r@ == spec_selected_indices(whole),
        decreases rest@.len(),
    {
        let rl = rest.len();
        match crate::input::vec_find_from(&rest, &comma, 0) {
            Some(p) => {
                let piece = trim_range(&rest, 0, p);
                let ghost prev = r@;
                match parse_usize_piece(&piece) {
                    Some(v) => {
                        r.push(v);
                    },
                    None => {},
                }
                let tail = copy_tail(&rest, p + 1);
                proof {
                    assert(rest@.take(p as int) =~= rest@.subrange(0, p as int));
                    assert(r@ + spec_selected_indices(tail@) =~= spec_selected_indices(whole));
                }
                rest = tail;
            },
            None => {
                let piece = trim_range(&rest, 0, rest.len());
                match parse_usize_piece(&piece) {
                    Some(v) => {
                        r.push(v);
                    },
                    None => {},
                }
                proof {
                    assert(rest@.subrange(0, rest@.len() as int) =~= rest@);
                    assert(r@ =~= spec_selected_indices(whole));
                }
                break ;
            },
        }
    }
    r
}

/// Parse one piece as a count, when it parses.
fn parse_usize_piece(piece: &Vec<char>) -> (r: Option<usize>)
    ensures
        r == crate::config::spec_parse_usize(piece@),
{
    let n = piece.len();
    proof {
        assert(piece@.subrange(0, n as int) =~= piece@);
    }
    match parse_u64_in(piece, 0, n) {
        Ok(v) => {
            if v <= usize::MAX as u64 {
                Some(v as usize)
            } else {
                None
            }
        },
        Err(_) => None,
    }
}

/// The URL lines a text yields: each line trimmed, blank lines and `#`
/// comments dropped.
pub open spec fn spec_url_lines(ls: Seq<Seq<char>>) -> Seq<Seq<char>>
    decreases ls.len(),
{
    if ls.len() == 0 {
        Seq::empty()
    } else {
        let t = trimmed(ls[0]);
        (if t.len() > 0 && t[0] != '#' {
            seq![t]
        } else {
            Seq::empty()
        }) + spec_url_lines(ls.drop_first())
    }
}

/// Keep the usable URL lines: trimmed, with blanks and comments dropped.
pub fn filter_url_lines(lines: &Vec<String>) -> (r: Vec<String>)
    ensures
        r@.map_values(|s: String| s@) == spec_url_lines(lines@.map_values(|s: String| s@)),
{
    let mut r: Vec<String> = Vec::new();
    let mut i: usize = 0;
    let ghost ls = lines@.map_values(|s: String| s@);
    proof {
        assert(ls.skip(0) =~= ls);
        assert(line_views(r@) =~= Seq::<Seq<char>>::empty());
        assert(line_views(r@) + spec_url_lines(ls) =~= spec_url_lines(ls));
    }
    while i < lines.len()
        invariant
            i <= lines@.len(),
            ls == lines@.map_values(|s: String| s@),
            line_views(r@) + spec_url_lines(ls.skip(i as int)) == spec_url_lines(ls),
        decreases lines@.len() - i,
    {
        let t = trim_chars(lines[i].as_str());
        proof {
            assert(ls.skip(i as int)[0] == ls[i as int]);
            assert(ls.skip(i as int).drop_first() =~= ls.skip(i + 1));
        }
        if t.len() > 0 && t[0] != '#' {
            let ghost prev = r@;
            let kept = chars_to_string(&t);
            let ghost keptv = kept@;
            r.push(kept);
            proof {
                assert(line_views(prev.push(r@[prev.len() as int])) =~= line_views(prev).push(
                    keptv,
                ));
                assert(line_views(r@) + spec_url_lines(ls.skip(i + 1)) =~= spec_url_lines(ls));
            }
        } else {
            proof {
                assert(line_views(r@) + spec_url_lines(ls.skip(i + 1)) =~= spec_url_lines(ls));
            }
        }
        i = i + 1;
    }
    proof {
        assert(ls.skip(ls.len() as int) =~= Seq::<Seq<char>>::empty());
        assert(line_views(r@) + spec_url_lines(Seq::<Seq<char>>::empty()) =~= line_views(r@));
    }
    r
}

/// Why an add request was rejected before reaching the engine.
#[derive(Debug, Clone, Copy, PartialEq, Eq)]
pub enum AddError {
    /// No URLs were provided.
    NoUrls,
    /// A single output filename cannot serve several downloads.
    OutWithMultiple,
    /// The expected checksum is not `md5:HEX` or `sha256:HEX`.
    InvalidChecksum,
    /// The speed cap does not parse as a number with an optional suffix.
    InvalidSpeed,
}

/// Whether the checksum option, when given, parses.
pub open spec fn checksum_ok(args: AddArgs) -> bool {
    match args.checksum {
        Some(c) => spec_parse_checksum(c@) is Some,
        None => true,
    }
}

/// Whether the speed cap option, when given, parses.
pub open spec fn speed_ok(args: AddArgs) -> bool {
    match args.max_speed {
        Some(sp) => crate::util::spec_parse_speed(sp@) is Some,
        None => true,
    }
}

/// Validate the collected URL list against the output-filename option.
pub fn validate_add(url_count: usize, out_given: bool) -> (r: Result<(), AddError>)
    ensures
        url_count == 0 ==> r == Err::<(), _>(AddError::NoUrls),
        url_count > 0 && out_given && url_count > 1 ==> r == Err::<(), _>(
            AddError::OutWithMultiple,
        ),
        url_count == 1 || (url_count > 1 && !out_given) ==> r is Ok,
{
    if url_count == 0 {
        Err(AddError::NoUrls)
    } else if out_given && url_count > 1 {
        Err(AddError::OutWithMultiple)
    } else {
        Ok(())
    }
}

/// Build the engine options for one input from the add arguments; an
/// expected checksum or a speed cap that does not parse is refused, the
/// checksum checked first.
pub fn build_options(args: &AddArgs, input: &ParsedInput) -> (r: Result<DownloadOptions, AddError>)
    ensures
        r is Ok <==> checksum_ok(*args) && speed_ok(*args),
        !checksum_ok(*args) ==> r == Err::<DownloadOptions, _>(AddError::InvalidChecksum),
        checksum_ok(*args) && !speed_ok(*args) ==> r == Err::<DownloadOptions, _>(
            AddError::InvalidSpeed,
        ),
        r matches Ok(o) ==> o.priority == args.priority.to_engine_priority_spec(),
        r matches Ok(o) ==> crate::config::opt_view(o.save_dir) == crate::config::opt_view(
            args.dir,
        ),
        r matches Ok(o) ==> crate::config::opt_view(o.filename) == crate::config::opt_view(
            args.out,
        ),
        r matches Ok(o) ==> crate::config::opt_view(o.user_agent) == crate::config::opt_view(
            args.user_agent,
        ),
        r matches Ok(o) ==> crate::config::opt_view(o.referer) == crate::config::opt_view(
            args.referer,
        ),
        r matches Ok(o) ==> o.headers@.map_values(|p: (String, String)| (p.0@, p.1@))
            == spec_header_pairs(args.headers@.map_values(|h: String| h@)),
        r matches Ok(o) ==> (args.cookies@.len() > 0 ==> (o.cookies matches Some(cs)
            && cs@.map_values(|c: String| c@) == args.cookies@.map_values(|c: String| c@))),
        r matches Ok(o) ==> (args.cookies@.len() == 0 ==> o.cookies is None),
        r matches Ok(o) ==> (match args.checksum {
            Some(c) => o.checksum matches Some(e) && Some(
                (e.algorithm, e.expected@),
            ) == spec_parse_checksum(c@),
            None => o.checksum is None,
        }),
        r matches Ok(o) ==> o.max_connections == args.max_connections,
        r matches Ok(o) ==> (match args.max_speed {
            Some(sp) => o.max_download_speed == crate::util::spec_parse_speed(sp@),
            None => o.max_download_speed is None,
        }),
        r matches Ok(o) ==> (parsed_view(*input).0 == InputKind::Http ==> o.sequential is None
            && o.selected_files is None && o.seed_ratio_tenths is None),
        r matches Ok(o) ==> (parsed_view(*input).0 != InputKind::Http ==> {
            &&& o.sequential == (if args.sequential {
                Some(true)
            } else {
                None::<bool>
            })
            &&& (match args.select_files {
                Some(sf) => (if spec_selected_indices(sf@).len() > 0 {
                    o.selected_files matches Some(v) && v@ == spec_selected_indices(sf@)
                } else {
                    o.selected_files is None
                }),
                None => o.selected_files is None,
            })
            &&& o.seed_ratio_tenths == args.seed_ratio_tenths
        }),
{
    let priority = args.priority.to_engine_priority();
    let save_dir = crate::status::duplicate_opt_string(&args.dir);
    let filename = crate::status::duplicate_opt_string(&args.out);
    let user_agent = crate::status::duplicate_opt_string(&args.user_agent);
    let referer = crate::status::duplicate_opt_string(&args.referer);
    let headers = parse_header_pairs(&args.headers);
    let cookies = if args.cookies.len() > 0 {
        let mut cs: Vec<String> = Vec::new();
        let mut i: usize = 0;
        while i < args.cookies.len()
            invariant
                i <= args.cookies@.len(),
                cs@.map_values(|c: String| c@) == args.cookies@.map_values(|c: String| c@).take(
                    i as int,
                ),
            decreases args.cookies@.len() - i,
        {
            let ghost prev = cs@;
            let c = args.cookies[i].clone();
            let ghost cv = c@;
            cs.push(c);
            proof {
                let all = args.cookies@.map_values(|c: String| c@);
                assert(cs@.map_values(|c: String| c@) =~= prev.map_values(|c: String| c@).push(
                    cv,
                ));
                assert(all.take(i + 1) =~= all.take(i as int).push(all[i as int]));
            }
            i = i + 1;
        }
        proof {
            let all = args.cookies@.map_values(|c: String| c@);
            assert(all.take(all.len() as int) =~= all);
        }
        Some(cs)
    } else {
        None
    };
    let checksum = match &args.checksum {
        Some(c) => match parse_checksum(c.as_str()) {
            Some(e) => Some(e),
            None => {
                return Err(AddError::InvalidChecksum);
            },
        },
        None => None,
    };
    let max_connections = args.max_connections;
    let max_download_speed = match &args.max_speed {
        Some(sp) => match crate::util::parse_speed(sp.as_str()) {
            Ok(v) => Some(v),
            Err(_) => {
                return Err(AddError::InvalidSpeed);
            },
        },
        None => None,
    };
    let torrent_like = match input {
        ParsedInput::Http(_) => false,
        _ => true,
    };
    let sequential = if torrent_like && args.sequential {
        Some(true)
    } else {
        None
    };
    let selected_files = if torrent_like {
        match &args.select_files {
            Some(sf) => {
                let idx = parse_selected_indices(sf.as_str());
                if idx.len() > 0 {
                    Some(idx)
                } else {
                    None
                }
            },
            None => None,
        }
    } else {
        None
    };
    let seed_ratio_tenths = if torrent_like {
        args.seed_ratio_tenths
    } else {
        None
    };
    Ok(
        DownloadOptions {
            priority,
            save_dir,
            filename,
            user_agent,
            referer,
            headers,
            cookies,
            checksum,
            max_connections,
            max_download_speed,
            sequential,
            selected_files,
            seed_ratio_tenths,
        },
    )
}

impl Priority {
    /// The engine-side priority, at the specification level.
    pub open spec fn to_engine_priority_spec(self) -> DownloadPriority {
        match self {
            Priority::Low => DownloadPriority::Low,
            Priority::Normal => DownloadPriority::Normal,
            Priority::High => DownloadPriority::High,
            Priority::Critical => DownloadPriority::Critical,
        }
    }
}

/// Whether the identifier list is the single keyword `all`, in any case.
pub open spec fn spec_is_all(ids: Seq<Seq<char>>) -> bool {
    ids.len() == 1 && lowered(ids[0]) == "all"@
}

/// Resolve an identifier list: the `all` keyword selects every candidate;
/// anything else must parse, identifier by identifier, each entry read as
/// a gid or a full UUID — the per-command reading; resolution by unique
/// gid prefix against the engine's list is `crate::id::resolve_download_id`.
pub fn resolve_ids(ids: &Vec<String>, all_candidates: Vec<DownloadId>) -> (r: Result<
    Vec<DownloadId>,
    IdError,
>)
    ensures
        spec_is_all(ids@.map_values(|s: String| s@)) ==> (r matches Ok(v) && v@
            == all_candidates@),
        !spec_is_all(ids@.map_values(|s: String| s@)) ==> ((r is Ok <==> forall|i: int|
            0 <= i < ids@.len() ==> #[trigger] spec_parse_id_ok(ids@[i]@)) && (r matches Ok(v)
            ==> v@.len() == ids@.len() && forall|i: int|
            0 <= i < ids@.len() ==> #[trigger] v@[i] == crate::id::spec_parsed_id(ids@[i]@))),
{
    proof {
        reveal_strlit("all");
    }
    if ids.len() == 1 {
        let lowered_id = lower_chars(&string_chars(ids[0].as_str()));
        if vec_eq_str(&lowered_id, "all") {
            proof {
                let idsv = ids@.map_values(|s: String| s@);
                assert(idsv[0] == ids@[0]@);
            }
            return Ok(all_candidates);
        }
        proof {
            let idsv = ids@.map_values(|s: String| s@);
            assert(idsv[0] == ids@[0]@);
            assert(!spec_is_all(idsv));
        }
    }
    let mut out: Vec<DownloadId> = Vec::new();
    let mut i: usize = 0;
    while i < ids.len()
        invariant
            i <= ids@.len(),
            out@.len() == i,
            forall|j: int| 0 <= j < i ==> #[trigger] spec_parse_id_ok(ids@[j]@),
            forall|j: int| 0 <= j < i ==> #[trigger] out@[j] == crate::id::spec_parsed_id(
                ids@[j]@,
            ),
            !spec_is_all(ids@.map_values(|s: String| s@)),
        decreases ids@.len() - i,
    {
        match parse_download_id(ids[i].as_str()) {
            Ok(id) => {
                out.push(id);
            },
            Err(e) => {
                proof {
                    assert(!spec_parse_id_ok(ids@[i as int]@));
                }
                return Err(e);
            },
        }
        i = i + 1;
    }
    Ok(out)
}

/// Whether an identifier string parses, as a gid or as a UUID.
pub open spec fn spec_parse_id_ok(s: Seq<char>) -> bool {
    spec_from_gid(s) is Some || uuid_parsed(s) is Some
}

/// One download tracked while waiting for completion.
#[derive(Debug, Clone, Copy, PartialEq, Eq, Structural)]
pub struct WaitEntry {
    /// The download.
    pub id: DownloadId,
    /// Whether it completed.
    pub completed: bool,
    /// Whether it failed.
    pub failed: bool,
}

/// An event from the engine, as the front-end models it.
#[derive(Debug, Clone)]
pub enum DownloadEvent {
    Added { id: DownloadId },
    Started { id: DownloadId },
    Progress { id: DownloadId, progress: DownloadProgress },
    StateChanged { id: DownloadId, old_state: DownloadState, new_state: DownloadState },
    Completed { id: DownloadId },
    Failed { id: DownloadId, error: String, retryable: bool },
    Removed { id: DownloadId },
    Paused { id: DownloadId },
    Resumed { id: DownloadId },
}

/// How many entries completed.
pub open spec fn spec_completed_count(es: Seq<WaitEntry>) -> nat {
    es.filter(|e: WaitEntry| e.completed).len()
}

/// How many entries failed.
pub open spec fn spec_failed_count(es: Seq<WaitEntry>) -> nat {
    es.filter(|e: WaitEntry| e.failed).len()
}

/// The downloads still being waited on, and what each has reached.
#[derive(Debug, Clone)]
pub struct WaitSet {
    /// One entry per tracked download.
    pub entries: Vec<WaitEntry>,
}

/// The entries after an event: a completion or failure marks its entry,
/// other events change nothing.
pub open spec fn spec_wait_step(es: Seq<WaitEntry>, ev: DownloadEvent) -> Seq<WaitEntry> {
    match ev {
        DownloadEvent::Completed { id } => es.map_values(
            |e: WaitEntry|
                if e.id == id {
                    WaitEntry { completed: true, ..e }
                } else {
                    e
                },
        ),
        DownloadEvent::Failed { id, error, retryable } => es.map_values(
            |e: WaitEntry|
                if e.id == id {
                    WaitEntry { failed: true, ..e }
                } else {
                    e
                },
        ),
        _ => es,
    }
}

impl WaitSet {
    /// Track the given downloads.
    pub fn new(ids: &Vec<DownloadId>) -> (r: WaitSet)
        ensures
            r.entries@.len() == ids@.len(),
            forall|i: int|
                0 <= i < ids@.len() ==> #[trigger] r.entries@[i] == (WaitEntry {
                    id: ids@[i],
                    completed: false,
                    failed: false,
                }),
    {
        let mut entries: Vec<WaitEntry> = Vec::new();
        let mut i: usize = 0;
        while i < ids.len()
            invariant
                i <= ids@.len(),
                entries@.len() == i,
                forall|j: int|
                    0 <= j < i ==> #[trigger] entries@[j] == (WaitEntry {
                        id: ids@[j],
                        completed: false,
                        failed: false,
                    }),
            decreases ids@.len() - i,
        {
            entries.push(WaitEntry { id: ids[i], completed: false, failed: false });
            i = i + 1;
        }
        WaitSet { entries }
    }

    /// Whether every tracked download has completed or failed.
    pub fn done(&self) -> (r: bool)
        ensures
            r == forall|i: int|
                0 <= i < self.entries@.len() ==> (#[trigger] self.entries@[i]).completed
                    || self.entries@[i].failed,
    {
        let mut i: usize = 0;
        while i < self.entries.len()
            invariant
                i <= self.entries@.len(),
                forall|j: int|
                    0 <= j < i ==> (#[trigger] self.entries@[j]).completed
                        || self.entries@[j].failed,
            decreases self.entries@.len() - i,
        {
            let e = self.entries[i];
            if !e.completed && !e.failed {
                return false;
            }
            i = i + 1;
        }
        true
    }

    /// Apply one engine event.
    pub fn apply_event(&mut self, ev: &DownloadEvent)
        ensures
            final(self).entries@ == spec_wait_step(old(self).entries@, *ev),
    {
        match ev {
            DownloadEvent::Completed { id } => {
                self.mark(*id, true);
            },
            DownloadEvent::Failed { id, error, retryable } => {
                self.mark(*id, false);
            },
            _ => {},
        }
    }

    /// Mark the entry of `id` completed or failed.
    fn mark(&mut self, id: DownloadId, completed: bool)
        ensures
            completed ==> final(self).entries@ == old(self).entries@.map_values(
                |e: WaitEntry|
                    if e.id == id {
                        WaitEntry { completed: true, ..e }
                    } else {
                        e
                    },
            ),
            !completed ==> final(self).entries@ == old(self).entries@.map_values(
                |e: WaitEntry|
                    if e.id == id {
                        WaitEntry { failed: true, ..e }
                    } else {
                        e
                    },
            ),
    {
        let ghost orig = self.entries@;
        let mut i: usize = 0;
        while i < self.entries.len()
            invariant
                i <= self.entries@.len(),
                self.entries@.len() == orig.len(),
                completed ==> forall|j: int|
                    0 <= j < i ==> self.entries@[j] == (if orig[j].id == id {
                        WaitEntry { completed: true, ..orig[j] }
                    } else {
                        orig[j]
                    }),
                !completed ==> forall|j: int|
                    0 <= j < i ==> self.entries@[j] == (if orig[j].id == id {
                        WaitEntry { failed: true, ..orig[j] }
                    } else {
                        orig[j]
                    }),
                forall|j: int| i <= j < orig.len() ==> #[trigger] self.entries@[j] == orig[j],
            decreases self.entries@.len() - i,
        {
            let e = self.entries[i];
            if e.id == id {
                let updated = if completed {
                    WaitEntry { completed: true, ..e }
                } else {
                    WaitEntry { failed: true, ..e }
                };
                self.entries.set(i, updated);
            }
            i = i + 1;
        }
        proof {
            if completed {
                assert(self.entries@ =~= orig.map_values(
                    |e: WaitEntry|
                        if e.id == id {
                            WaitEntry { completed: true, ..e }
                        } else {
                            e
                        },
                ));
            } else {
                assert(self.entries@ =~= orig.map_values(
                    |e: WaitEntry|
                        if e.id == id {
                            WaitEntry { failed: true, ..e }
                        } else {
                            e
                        },
                ));
            }
        }
    }

    /// How many tracked downloads completed.
    pub fn completed_count(&self) -> (r: usize)
        ensures
            (r as nat) == spec_completed_count(self.entries@),
    {
        let mut n: usize = 0;
        let mut i: usize = 0;
        proof {
            assert(self.entries@.take(0) =~= Seq::<WaitEntry>::empty());
            reveal(Seq::filter);
        }
        while i < self.entries.len()
            invariant
                i <= self.entries@.len(),
                n <= i,
                (n as nat) == spec_completed_count(self.entries@.take(i as int)),
            decreases self.entries@.len() - i,
        {
            proof {
                reveal(Seq::filter);
                assert(self.entries@.take(i + 1).drop_last() =~= self.entries@.take(i as int));
                assert(self.entries@.take(i + 1).last() == self.entries@[i as int]);
            }
            if self.entries[i].completed {
                n = n + 1;
            }
            i = i + 1;
        }
        proof {
            assert(self.entries@.take(self.entries@.len() as int) =~= self.entries@);
        }
        n
    }

    /// How many tracked downloads failed.
    pub fn failed_count(&self) -> (r: usize)
        ensures
            (r as nat) == spec_failed_count(self.entries@),
    {
        let mut n: usize = 0;
        let mut i: usize = 0;
        proof {
            assert(self.entries@.take(0) =~= Seq::<WaitEntry>::empty());
            reveal(Seq::filter);
        }
        while i < self.entries.len()
            invariant
                i <= self.entries@.len(),
                n <= i,
                (n as nat) == spec_failed_count(self.entries@.take(i as int)),
            decreases self.entries@.len() - i,
        {
            proof {
                reveal(Seq::filter);
                assert(self.entries@.take(i + 1).drop_last() =~= self.entries@.take(i as int));
                assert(self.entries@.take(i + 1).last() == self.entries@[i as int]);
            }
            if self.entries[i].failed {
                n = n + 1;
            }
            i = i + 1;
        }
        proof {
            assert(self.entries@.take(self.entries@.len() as int) =~= self.entries@);
        }
        n
    }
}

/// The exit code direct mode owes: success when nothing failed, partial
/// failure when something completed anyway, total failure otherwise.
pub open spec fn spec_exit_code(completed: nat, failed: nat) -> int {
    if failed == 0 {
        0
    } else if completed > 0 {
        1
    } else {
        2
    }
}

/// The exit code for a finished direct-mode run.
pub fn exit_code(completed: usize, failed: usize) -> (r: i32)
    ensures
        (r as int) == spec_exit_code(completed as nat, failed as nat),
{
    if failed == 0 {
        0
    } else if completed > 0 {
        1
    } else {
        2
    }
}

/// The exit code reported when the user interrupts direct mode.
pub fn interrupted_exit_code() -> (r: i32)
    ensures
        r == 130,
{
    130
}

/// The lines the add command prints for its results: nothing when empty,
/// else a header, a rule, one row per result, a blank line and a count.
pub open spec fn spec_add_results(rs: Seq<AddResult>) -> Seq<Seq<char>> {
    if rs.len() == 0 {
        Seq::empty()
    } else {
        seq![
            pad_right("ID"@, 16) + " "@ + pad_right("Type"@, 10) + " "@ + "Input"@,
            repeated('\u{2500}', 70),
        ] + rs.map_values(
            |a: AddResult| pad_right(a.id@, 16) + " "@ + pad_right(a.kind@, 10) + " "@
                + spec_truncate_str(a.input@, 50),
        ) + seq![""@, "Added "@ + decimal_digits(rs.len()) + " download(s)"@]
    }
}

/// Build the add-results table lines.
pub fn print_add_results(results: &Vec<AddResult>) -> (r: Vec<String>)
    ensures
        line_views(r@) == spec_add_results(results@),
{
    proof {
        reveal_strlit("ID");
        reveal_strlit("Type");
        reveal_strlit("Input");
        reveal_strlit(" ");
        reveal_strlit("");
        reveal_strlit("Added ");
        reveal_strlit(" download(s)");
    }
    let mut r: Vec<String> = Vec::new();
    if results.len() == 0 {
        proof {
            assert(line_views(r@) =~= spec_add_results(results@));
        }
        return r;
    }
    let mut header = pad_right_string("ID".to_owned(), 16);
    header.append(" ");
    let h2 = pad_right_string("Type".to_owned(), 10);
    header.append(h2.as_str());
    header.append(" ");
    header.append("Input");
    push_line(&mut r, header);
    push_line(&mut r, repeat_char('\u{2500}', 70));
    let ghost base = line_views(r@);
    let ghost rows = results@.map_values(
        |a: AddResult| pad_right(a.id@, 16) + " "@ + pad_right(a.kind@, 10) + " "@
            + spec_truncate_str(a.input@, 50),
    );
    let mut i: usize = 0;
    proof {
        assert(base + rows.take(0) =~= base);
    }
    while i < results.len()
        invariant
            i <= results@.len(),
            rows == results@.map_values(
                |a: AddResult| pad_right(a.id@, 16) + " "@ + pad_right(a.kind@, 10) + " "@
                    + spec_truncate_str(a.input@, 50),
            ),
            line_views(r@) == base + rows.take(i as int),
        decreases results@.len() - i,
    {
        let a = &results[i];
        let mut row = pad_right_string(a.id.clone(), 16);
        row.append(" ");
        let k = pad_right_string(a.kind.clone(), 10);
        row.append(k.as_str());
        row.append(" ");
        let inp = truncate_str(a.input.as_str(), 50);
        row.append(inp.as_str());
        let ghost rowv = row@;
        push_line(&mut r, row);
        proof {
            assert(rows.take(i + 1) =~= rows.take(i as int).push(rows[i as int]));
            assert(rowv == rows[i as int]);
            assert(line_views(r@) =~= base + rows.take(i + 1));
        }
        i = i + 1;
    }
    push_line(&mut r, "".to_owned());
    let mut count: String = "Added ".to_owned();
    let n = crate::numfmt::u64_to_string(results.len() as u64);
    count.append(n.as_str());
    count.append(" download(s)");
    push_line(&mut r, count);
    proof {
        assert(rows.take(rows.len() as int) =~= rows);
        assert(line_views(r@) =~= spec_add_results(results@));
    }
    r
}

} // verus!
