use gosh::format::DownloadState;
use gosh::id::DownloadId;
use gosh::report::{list_summary, print_download_table, progress_section_lines, stats_lines,
    timestamps_section_lines};
use gosh::status::{
    filter_completed, filter_paused, percent1, DownloadKind, DownloadMetadata, DownloadPriority,
    DownloadProgress, DownloadStatus, GlobalStats,
};

fn sample_status(hi: u64, state: DownloadState) -> DownloadStatus {
    DownloadStatus {
        id: DownloadId { hi, lo: 0 },
        kind: DownloadKind::Http,
        state,
        priority: DownloadPriority::Normal,
        progress: DownloadProgress {
            total_size: Some(1000),
            completed_size: 250,
            download_speed: 2048,
            upload_speed: 0,
            connections: 4,
            seeders: 0,
            peers: 0,
            eta_seconds: Some(65),
        },
        metadata: DownloadMetadata {
            name: "file.bin".to_string(),
            url: Some("https://example.test/file.bin".to_string()),
            magnet_uri: None,
            info_hash: None,
            save_dir: "/tmp".to_string(),
            filename: None,
        },
        torrent_info: None,
        peers: None,
        created_at: 0,
        completed_at: None,
    }
}

#[test]
fn table_shows_one_row_per_download() {
    let ds = vec![sample_status(0x1, DownloadState::Downloading)];
    let lines = print_download_table(&ds);
    assert_eq!(lines.len(), 3);
    assert!(lines[0].starts_with("ID "));
    assert!(lines[2].starts_with("0000000000000001"));
    assert!(lines[2].contains("25.0%"));
    assert!(lines[2].contains("2.0 KB/s"));
    assert!(lines[2].contains("1:05"));
    assert!(lines[2].contains("Downloading"));
}

#[test]
fn empty_table_says_so() {
    let lines = print_download_table(&Vec::new());
    assert_eq!(lines, vec!["No downloads".to_string()]);
}

#[test]
fn stats_lines_show_counts_and_speeds() {
    let g = GlobalStats {
        download_speed: 1024,
        upload_speed: 0,
        num_active: 2,
        num_waiting: 1,
        num_stopped: 4,
    };
    let lines = stats_lines(&g);
    assert_eq!(lines[4], "  Active:   2");
    assert_eq!(lines[7], "  Total:    7");
    assert_eq!(lines[10], "  Download: 1.0 KB/s");
}

#[test]
fn list_summary_includes_speed_only_when_moving() {
    let mut g = GlobalStats {
        download_speed: 0,
        upload_speed: 0,
        num_active: 1,
        num_waiting: 0,
        num_stopped: 0,
    };
    assert_eq!(
        list_summary(1, &g),
        vec!["Total: 1 downloads (1 active, 0 waiting, 0 stopped)".to_string()]
    );
    g.download_speed = 512;
    let lines = list_summary(1, &g);
    assert_eq!(lines.len(), 2);
    assert_eq!(lines[1], "Speed: 512 B down, 0 B up");
}

#[test]
fn filters_keep_matching_states_only() {
    let ds = vec![
        sample_status(1, DownloadState::Paused),
        sample_status(2, DownloadState::Completed),
        sample_status(3, DownloadState::Paused),
    ];
    let paused = filter_paused(ds);
    assert_eq!(paused.len(), 2);
    assert_eq!(paused[0].id.hi, 1);
    assert_eq!(paused[1].id.hi, 3);
    let ds2 = vec![
        sample_status(1, DownloadState::Paused),
        sample_status(2, DownloadState::Completed),
    ];
    let done = filter_completed(ds2);
    assert_eq!(done.len(), 1);
    assert_eq!(done[0].id.hi, 2);
}

#[test]
fn percent_display_rounds_half_even() {
    assert_eq!(percent1(250, Some(1000)), "25.0");
    assert_eq!(percent1(1, Some(3)), "33.3");
    assert_eq!(percent1(0, None), "0.0");
    assert_eq!(percent1(0, Some(0)), "0.0");
}

#[test]
fn timestamps_render_utc_civil_time() {
    let mut st = sample_status(1, DownloadState::Completed);
    st.created_at = 0;
    st.completed_at = Some(1_000_000_000);
    let lines = timestamps_section_lines(&st);
    assert_eq!(lines[1], "  Created: 1970-01-01 00:00:00");
    assert_eq!(lines[2], "  Completed: 2001-09-09 01:46:40");
}

#[test]
fn eta_uses_unit_words() {
    let st = sample_status(1, DownloadState::Downloading);
    let lines = progress_section_lines(&st);
    assert!(lines.contains(&"  ETA: 1m 5s".to_string()));
}

#[test]
fn detailed_status_sections_in_order() {
    let mut st = sample_status(0xab, DownloadState::Downloading);
    st.metadata.filename = Some("out.bin".to_string());
    let lines = gosh::report::print_detailed_status(&st, false, false);
    assert_eq!(lines[0], "Download: 00000000000000ab");
    assert_eq!(lines[1], "Name: file.bin");
    assert_eq!(lines[2], "Type: Http");
    assert_eq!(lines[3], "State: Downloading");
    assert_eq!(lines[4], "Priority: Normal");
    assert_eq!(lines[6], "=== Progress ===");
    assert_eq!(lines[7], "  Total Size: 1000 B");
    assert_eq!(lines[8], "  Downloaded: 250 B (25.0%)");
    assert!(lines.contains(&"  ETA: 1m 5s".to_string()));
    assert!(lines.contains(&"  Filename: out.bin".to_string()));
    assert!(lines.contains(&"=== Timestamps ===".to_string()));
    assert!(lines.contains(&"  Created: 1970-01-01 00:00:00".to_string()));
}

#[test]
fn detailed_status_error_shows_kind_and_message() {
    let st = sample_status(
        1,
        DownloadState::Error {
            kind: "Network".to_string(),
            message: "connection refused".to_string(),
            retryable: true,
        },
    );
    let lines = gosh::report::print_detailed_status(&st, false, false);
    assert_eq!(lines[3], "State: Error (Network): connection refused");
}
