use gosh::commands::{
    build_options, exit_code, filter_url_lines, parse_checksum, parse_selected_indices,
    print_add_results, resolve_ids, validate_add, AddError, AddResult, ChecksumAlgorithm,
    DownloadEvent, WaitSet,
};
use gosh::input::ParsedInput;
use gosh::id::DownloadId;
use gosh::torrent::parse_torrent;
use gosh::tui::{
    majority_state, sparkline_string, connection_quality, ChunkState, DialogState, KeyCode,
    KeyInput, TuiApp, UiAction,
};
use gosh::util::parse_size;

#[test]
fn checksum_strings_parse_by_prefix() {
    let c = parse_checksum("md5:aabbcc").unwrap();
    assert_eq!(c.algorithm, ChecksumAlgorithm::Md5);
    assert_eq!(c.expected, "aabbcc");
    let c = parse_checksum("sha256:00ff").unwrap();
    assert_eq!(c.algorithm, ChecksumAlgorithm::Sha256);
    assert_eq!(c.expected, "00ff");
    assert!(parse_checksum("sha1:00ff").is_none());
}

#[test]
fn url_lines_are_trimmed_and_comments_dropped() {
    let lines = vec![
        "  https://a.example/x ".to_string(),
        "".to_string(),
        "# comment".to_string(),
        "magnet:?xt=urn:btih:ab".to_string(),
    ];
    let kept = filter_url_lines(&lines);
    assert_eq!(kept, vec!["https://a.example/x".to_string(), "magnet:?xt=urn:btih:ab".to_string()]);
}

#[test]
fn selected_indices_parse_loosely() {
    assert_eq!(parse_selected_indices("0, 2,5"), vec![0, 2, 5]);
    assert_eq!(parse_selected_indices("a,1"), vec![1]);
    assert_eq!(parse_selected_indices(""), Vec::<usize>::new());
}

#[test]
fn validate_add_requires_urls_and_single_out() {
    assert!(validate_add(0, false).is_err());
    assert!(validate_add(2, true).is_err());
    assert!(validate_add(1, true).is_ok());
    assert!(validate_add(3, false).is_ok());
}

#[test]
fn resolve_ids_all_keyword_takes_candidates() {
    let all = vec![DownloadId { hi: 1, lo: 0 }, DownloadId { hi: 2, lo: 0 }];
    let got = resolve_ids(&vec!["ALL".to_string()], all.clone()).unwrap();
    assert_eq!(got, all);
    let got = resolve_ids(&vec!["0000000000000001".to_string()], all).unwrap();
    assert_eq!(got, vec![DownloadId { hi: 1, lo: 0 }]);
}

#[test]
fn wait_set_tracks_completion_and_failure() {
    let ids = vec![DownloadId { hi: 1, lo: 0 }, DownloadId { hi: 2, lo: 0 }];
    let mut ws = WaitSet::new(&ids);
    assert!(!ws.done());
    ws.apply_event(&DownloadEvent::Completed { id: ids[0] });
    assert!(!ws.done());
    ws.apply_event(&DownloadEvent::Failed {
        id: ids[1],
        error: "boom".to_string(),
        retryable: false,
    });
    assert!(ws.done());
    assert_eq!(ws.completed_count(), 1);
    assert_eq!(ws.failed_count(), 1);
    assert_eq!(exit_code(ws.completed_count(), ws.failed_count()), 1);
    assert_eq!(exit_code(1, 0), 0);
    assert_eq!(exit_code(0, 2), 2);
}

#[test]
fn add_results_table_lists_entries() {
    let rs = vec![AddResult {
        id: "0000000000000001".to_string(),
        input: "https://a.example/x".to_string(),
        kind: "http".to_string(),
    }];
    let lines = print_add_results(&rs);
    assert_eq!(lines.len(), 5);
    assert!(lines[2].starts_with("0000000000000001"));
    assert_eq!(lines[4], "Added 1 download(s)");
}

#[test]
fn torrent_parse_is_stable_under_reread() {
    let bytes = b"d8:announce13:udp://tracker4:infod6:lengthi2e4:name4:test12:piece lengthi16384e6:pieces20:aaaaaaaaaaaaaaaaaaaaee".to_vec();
    let first = parse_torrent(&bytes).expect("parses");
    let second = parse_torrent(&bytes).expect("parses again");
    assert_eq!(gosh::torrent::info_hash_hex(&first), gosh::torrent::info_hash_hex(&second));
    assert_eq!(first.name, "test");
    assert_eq!(first.piece_length, 16384);
    assert_eq!(first.total_size, 2);
}

#[test]
fn torrent_rejects_garbage() {
    assert!(parse_torrent(&b"not bencode".to_vec()).is_err());
}

#[test]
fn parse_size_allows_space_before_suffix() {
    assert_eq!(parse_size("1 K").unwrap(), 1024);
    assert_eq!(parse_size("3M").unwrap(), 3 * 1024 * 1024);
    assert!(parse_size("x").is_err());
}

#[test]
fn sparkline_scales_to_maximum() {
    assert_eq!(sparkline_string(&vec![], 3), "   ");
    assert_eq!(sparkline_string(&vec![0, 7, 3, 7], 4), "\u{2581}\u{2588}\u{2584}\u{2588}");
    assert_eq!(sparkline_string(&vec![7, 7], 4), "  \u{2588}\u{2588}");
    assert_eq!(sparkline_string(&vec![1, 2, 3], 2), "\u{2586}\u{2588}");
}

#[test]
fn majority_prefers_failure_then_activity() {
    let states = vec![
        ChunkState::Complete,
        ChunkState::Downloading,
        ChunkState::Failed,
        ChunkState::Complete,
    ];
    assert_eq!(majority_state(&states, 0, 4), ChunkState::Failed);
    assert_eq!(majority_state(&states, 0, 2), ChunkState::Downloading);
    assert_eq!(majority_state(&states, 3, 4), ChunkState::Complete);
    assert_eq!(majority_state(&states, 0, 0), ChunkState::Pending);
}

#[test]
fn connection_quality_levels() {
    assert_eq!(connection_quality(0).0, 0);
    assert_eq!(connection_quality(1).0, 1);
    assert_eq!(connection_quality(10).0, 3);
    assert_eq!(connection_quality(100).0, 5);
}

#[test]
fn quit_keys_leave_the_interface() {
    let mut app = TuiApp::new(gosh::config::CliConfig::default(), 120, 40, Vec::new());
    let actions = app.handle_key(KeyInput { code: KeyCode::Char('q'), ctrl: false });
    assert!(matches!(actions[0], UiAction::Quit));
    assert!(app.should_quit);
}

#[test]
fn add_dialog_collects_typed_url() {
    let mut app = TuiApp::new(gosh::config::CliConfig::default(), 120, 40, Vec::new());
    app.handle_key(KeyInput { code: KeyCode::Char('a'), ctrl: false });
    assert!(matches!(app.dialog, Some(DialogState::AddUrl { .. })));
    for c in "https://x.example/f".chars() {
        app.handle_key(KeyInput { code: KeyCode::Char(c), ctrl: false });
    }
    let actions = app.handle_key(KeyInput { code: KeyCode::Enter, ctrl: false });
    assert_eq!(actions.len(), 1);
    match &actions[0] {
        UiAction::Add { url } => assert_eq!(url, "https://x.example/f"),
        other => panic!("unexpected action {:?}", other),
    }
    assert!(app.dialog.is_none());
}

#[test]
fn help_overlay_swallows_one_key() {
    let mut app = TuiApp::new(gosh::config::CliConfig::default(), 120, 40, Vec::new());
    app.handle_key(KeyInput { code: KeyCode::Char('?'), ctrl: false });
    assert!(app.show_help);
    let actions = app.handle_key(KeyInput { code: KeyCode::Char('q'), ctrl: false });
    assert!(actions.is_empty());
    assert!(!app.show_help);
    assert!(!app.should_quit);
}

fn bare_add_args() -> gosh::commands::AddArgs {
    gosh::commands::AddArgs {
        urls: vec!["https://a.example/f".to_string()],
        input_file: None,
        dir: None,
        out: None,
        priority: gosh::commands::Priority::Normal,
        wait: false,
        headers: Vec::new(),
        user_agent: None,
        referer: None,
        cookies: Vec::new(),
        checksum: None,
        max_connections: None,
        max_speed: None,
        sequential: false,
        select_files: None,
        seed_ratio_tenths: None,
    }
}

#[test]
fn build_options_rejects_bad_checksum() {
    let mut args = bare_add_args();
    args.checksum = Some("sha1:00ff".to_string());
    let input = ParsedInput::Http("https://a.example/f".to_string());
    assert_eq!(build_options(&args, &input).unwrap_err(), AddError::InvalidChecksum);
    args.checksum = Some("sha256:00ff".to_string());
    let opts = build_options(&args, &input).unwrap();
    assert_eq!(opts.checksum.unwrap().expected, "00ff");
}

#[test]
fn build_options_rejects_bad_speed() {
    let mut args = bare_add_args();
    args.max_speed = Some("fast".to_string());
    let input = ParsedInput::Http("https://a.example/f".to_string());
    assert_eq!(build_options(&args, &input).unwrap_err(), AddError::InvalidSpeed);
    args.max_speed = Some("2M".to_string());
    let opts = build_options(&args, &input).unwrap();
    assert_eq!(opts.max_download_speed, Some(2 * 1024 * 1024));
}

#[test]
fn resolve_ids_returns_each_parse_in_order() {
    let got = resolve_ids(
        &vec![
            "0000000000000002".to_string(),
            "df5c1a3e-62bc-4678-8428-1b4fee2e24e2".to_string(),
        ],
        Vec::new(),
    )
    .unwrap();
    assert_eq!(got[0], DownloadId { hi: 2, lo: 0 });
    assert_eq!(got[1], DownloadId { hi: 0xdf5c1a3e62bc4678, lo: 0x84281b4fee2e24e2 });
}

#[test]
fn vertical_tab_is_trimmed() {
    assert_eq!(gosh::util::parse_speed("\u{000B}5\u{000B}").unwrap(), 5);
}
