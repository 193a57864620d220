use gosh::id::{parse_download_id, resolve_download_id, DownloadId, IdError};

#[test]
fn gid_is_sixteen_hex_chars() {
    let id = DownloadId { hi: 0x0123456789abcdef, lo: 0xfedcba9876543210 };
    assert_eq!(id.to_gid(), "0123456789abcdef");
}

#[test]
fn gid_zero_pads() {
    let id = DownloadId { hi: 0x2a, lo: 7 };
    assert_eq!(id.to_gid(), "000000000000002a");
}

#[test]
fn from_gid_round_trip_is_lossy() {
    let id = DownloadId { hi: 0x1111222233334444, lo: 0x5555666677778888 };
    let gid = id.to_gid();
    let back = DownloadId::from_gid(&gid).expect("valid gid");
    assert_ne!(id, back);
    assert_eq!(back.to_gid(), gid);
    assert_eq!(back.lo, 0);
}

#[test]
fn from_gid_exact_when_low_half_zero() {
    let id = DownloadId { hi: 0xdeadbeef00112233, lo: 0 };
    assert_eq!(DownloadId::from_gid(&id.to_gid()), Some(id));
}

#[test]
fn from_gid_rejects_invalid() {
    assert!(DownloadId::from_gid("").is_none());
    assert!(DownloadId::from_gid("abc").is_none());
    assert!(DownloadId::from_gid("0123456789abcde").is_none());
    assert!(DownloadId::from_gid("0123456789abcdef0").is_none());
    assert!(DownloadId::from_gid("zzzzzzzzzzzzzzzz").is_none());
}

#[test]
fn from_gid_accepts_uppercase() {
    let id = DownloadId::from_gid("0123456789ABCDEF").expect("valid gid");
    assert_eq!(id.to_gid(), "0123456789abcdef");
}

#[test]
fn matches_gid_compares_short_form() {
    let id = DownloadId { hi: 0x00ff00ff00ff00ff, lo: 42 };
    assert!(id.matches_gid(&id.to_gid()));
    assert!(!id.matches_gid("abc"));
    assert!(!id.matches_gid(""));
}

#[test]
fn uuid_string_round_trips_through_parse() {
    let id = DownloadId { hi: 0xdf5c1a3e62bc4678, lo: 0x84281b4fee2e24e2 };
    let text = id.to_uuid_string();
    assert_eq!(text, "df5c1a3e-62bc-4678-8428-1b4fee2e24e2");
    assert_eq!(parse_download_id(&text).unwrap(), id);
}

#[test]
fn parse_download_id_prefers_gid() {
    let parsed = parse_download_id("0123456789abcdef").unwrap();
    assert_eq!(parsed, DownloadId { hi: 0x0123456789abcdef, lo: 0 });
    assert_eq!(parse_download_id("not an id"), Err(IdError::Invalid));
}

#[test]
fn resolve_unique_prefix_finds_record() {
    let ids = vec![
        DownloadId { hi: 0x0123456789abcdef, lo: 1 },
        DownloadId { hi: 0xabcdef0123456789, lo: 2 },
    ];
    assert_eq!(resolve_download_id("01", &ids), Ok(ids[0]));
    assert_eq!(resolve_download_id("abcd", &ids), Ok(ids[1]));
    assert_eq!(resolve_download_id("ABCD", &ids), Ok(ids[1]));
}

#[test]
fn resolve_reports_missing_and_ambiguous() {
    let ids = vec![
        DownloadId { hi: 0x1100000000000000, lo: 1 },
        DownloadId { hi: 0x1200000000000000, lo: 2 },
    ];
    assert_eq!(resolve_download_id("ff", &ids), Err(IdError::NotFound));
    assert_eq!(resolve_download_id("1", &ids), Err(IdError::Ambiguous));
}

#[test]
fn resolve_full_uuid_bypasses_list() {
    let ids: Vec<DownloadId> = Vec::new();
    let got = resolve_download_id("df5c1a3e-62bc-4678-8428-1b4fee2e24e2", &ids).unwrap();
    assert_eq!(got, DownloadId { hi: 0xdf5c1a3e62bc4678, lo: 0x84281b4fee2e24e2 });
}

#[test]
fn resolve_full_short_form_finds_its_record() {
    let ids = vec![
        DownloadId { hi: 0x0123456789abcdef, lo: 7 },
        DownloadId { hi: 0xfedcba9876543210, lo: 9 },
    ];
    let gid = ids[0].to_gid();
    assert_eq!(resolve_download_id(&gid, &ids), Ok(ids[0]));
}
