//! Human-readable formatting of byte counts, transfer speeds, durations and
//! download states, exactly as the command-line front-end prints them.

use vstd::prelude::*;

verus! {

use crate::numfmt::{
    decimal_digits,
    two_digit_chars,
    fixed1_chars,
    fixed2_chars,
    half_even,
    u64_to_string,
    two_digit_string,
    fixed1_string,
    fixed2_string,
    half_even_u128,
};
use crate::util::{truncate_str, spec_truncate_str};
use vstd::string::StringExecFns;

/// Current state of a download, as the front-end models it.
#[derive(Debug, Clone)]
pub enum DownloadState {
    /// Waiting in the queue.
    Queued,
    /// Connecting to the server or to peers.
    Connecting,
    /// Actively downloading.
    Downloading,
    /// Seeding a finished torrent.
    Seeding,
    /// Paused by the user.
    Paused,
    /// Successfully completed.
    Completed,
    /// Failed with an error.
    Error { kind: String, message: String, retryable: bool },
}

/// The text `format_speed` owes: bytes as `B`, tenths of binary kilo- and
/// megabytes, hundredths of gigabytes, each rounded half to even.
pub open spec fn spec_format_speed(b: nat) -> Seq<char> {
    if b == 0 {
        "0 B"@
    } else if b < 1024 {
        decimal_digits(b) + " B"@
    } else if b < 0x100000 {
        fixed1_chars(half_even(b * 10, 1024)) + " KB"@
    } else if b < 0x40000000 {
        fixed1_chars(half_even(b * 10, 0x100000)) + " MB"@
    } else {
        fixed2_chars(half_even(b * 100, 0x40000000)) + " GB"@
    }
}

/// The text `format_size` owes: as `spec_format_speed`, except that
/// megabytes carry two decimal places.
pub open spec fn spec_format_size(b: nat) -> Seq<char> {
    if b == 0 {
        "0 B"@
    } else if b < 1024 {
        decimal_digits(b) + " B"@
    } else if b < 0x100000 {
        fixed1_chars(half_even(b * 10, 1024)) + " KB"@
    } else if b < 0x40000000 {
        fixed2_chars(half_even(b * 100, 0x100000)) + " MB"@
    } else {
        fixed2_chars(half_even(b * 100, 0x40000000)) + " GB"@
    }
}

/// The text `format_duration` owes: `--` for zero, else `M:SS`, or
/// `H:MM:SS` from one hour up.
pub open spec fn spec_format_duration(s: nat) -> Seq<char> {
    if s == 0 {
        "--"@
    } else {
        let h = s / 3600;
        let m = (s % 3600) / 60;
        let sec = s % 60;
        if h > 0 {
            decimal_digits(h) + ":"@ + two_digit_chars(m) + ":"@ + two_digit_chars(sec)
        } else {
            decimal_digits(m) + ":"@ + two_digit_chars(sec)
        }
    }
}

/// The label `format_state` owes; an error shows its kind, truncated to ten
/// bytes.
pub open spec fn spec_format_state(s: DownloadState) -> Seq<char> {
    match s {
        DownloadState::Queued => "Queued"@,
        DownloadState::Connecting => "Connecting"@,
        DownloadState::Downloading => "Downloading"@,
        DownloadState::Seeding => "Seeding"@,
        DownloadState::Paused => "Paused"@,
        DownloadState::Completed => "Completed"@,
        DownloadState::Error { kind, message, retryable } => "Error: "@ + spec_truncate_str(
            kind@,
            10,
        ),
    }
}

/// Format bytes-per-second as a human-readable speed string (no `/s`
/// suffix).
pub fn format_speed(bytes_per_sec: u64) -> (r: String)
    ensures
        r@ == spec_format_speed(bytes_per_sec as nat),
{
    let b = bytes_per_sec;
    proof {
        reveal_strlit("0 B");
        reveal_strlit(" B");
        reveal_strlit(" KB");
        reveal_strlit(" MB");
        reveal_strlit(" GB");
    }
    if b == 0 {
        let r: String = "0 B".to_owned();
        r
    } else if b < 1024 {
        let mut r = u64_to_string(b);
        r.append(" B");
        r
    } else if b < 0x100000 {
        let v = half_even_u128((b as u128) * 10, 1024);
        let mut r = fixed1_string(v);
        r.append(" KB");
        r
    } else if b < 0x40000000 {
        let v = half_even_u128((b as u128) * 10, 0x100000);
        let mut r = fixed1_string(v);
        r.append(" MB");
        r
    } else {
        let v = half_even_u128((b as u128) * 100, 0x40000000);
        let mut r = fixed2_string(v);
        r.append(" GB");
        r
    }
}

/// Format a byte count as a human-readable size string.
pub fn format_size(bytes: u64) -> (r: String)
    ensures
        r@ == spec_format_size(bytes as nat),
{
    let b = bytes;
    proof {
        reveal_strlit("0 B");
        reveal_strlit(" B");
        reveal_strlit(" KB");
        reveal_strlit(" MB");
        reveal_strlit(" GB");
    }
    if b == 0 {
        let r: String = "0 B".to_owned();
        r
    } else if b < 1024 {
        let mut r = u64_to_string(b);
        r.append(" B");
        r
    } else if b < 0x100000 {
        let v = half_even_u128((b as u128) * 10, 1024);
        let mut r = fixed1_string(v);
        r.append(" KB");
        r
    } else if b < 0x40000000 {
        let v = half_even_u128((b as u128) * 100, 0x100000);
        let mut r = fixed2_string(v);
        r.append(" MB");
        r
    } else {
        let v = half_even_u128((b as u128) * 100, 0x40000000);
        let mut r = fixed2_string(v);
        r.append(" GB");
        r
    }
}

/// Format seconds as `M:SS` or `H:MM:SS`; returns `--` for zero.
pub fn format_duration(seconds: u64) -> (r: String)
    ensures
        r@ == spec_format_duration(seconds as nat),
{
    proof {
        reveal_strlit("--");
        reveal_strlit(":");
    }
    if seconds == 0 {
        let r: String = "--".to_owned();
        return r;
    }
    let hours = seconds / 3600;
    let minutes = (seconds % 3600) / 60;
    let secs = seconds % 60;
    if hours > 0 {
        let mut r = u64_to_string(hours);
        r.append(":");
        let m = two_digit_string(minutes);
        r.append(m.as_str());
        r.append(":");
        let sc = two_digit_string(secs);
        r.append(sc.as_str());
        r
    } else {
        let mut r = u64_to_string(minutes);
        r.append(":");
        let sc = two_digit_string(secs);
        r.append(sc.as_str());
        r
    }
}

/// Format a download state as a short label; errors show the kind,
/// truncated to ten bytes.
pub fn format_state(state: &DownloadState) -> (r: String)
    ensures
        r@ == spec_format_state(*state),
{
    proof {
        reveal_strlit("Queued");
        reveal_strlit("Connecting");
        reveal_strlit("Downloading");
        reveal_strlit("Seeding");
        reveal_strlit("Paused");
        reveal_strlit("Completed");
        reveal_strlit("Error: ");
    }
    match state {
        DownloadState::Queued => "Queued".to_owned(),
        DownloadState::Connecting => "Connecting".to_owned(),
        DownloadState::Downloading => "Downloading".to_owned(),
        DownloadState::Seeding => "Seeding".to_owned(),
        DownloadState::Paused => "Paused".to_owned(),
        DownloadState::Completed => "Completed".to_owned(),
        DownloadState::Error { kind, message, retryable } => {
            let mut r: String = "Error: ".to_owned();
            let tail = truncate_str(kind.as_str(), 10);
            r.append(tail.as_str());
            r
        },
    }
}


/// Whether coloured output is enabled: an explicit choice wins, else the
/// `NO_COLOR` convention decides; the shell reads the environment and
/// remembers the answer.
pub fn color_enabled(force: Option<bool>, no_color_env_set: bool) -> (r: bool)
    ensures
        force matches Some(v) ==> r == v,
        force is None ==> r == !no_color_env_set,
{
    match force {
        Some(v) => v,
        None => !no_color_env_set,
    }
}

} // verus!
