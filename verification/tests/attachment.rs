use gpui_ai::attachment::{format_bytes, Attachment, AttachmentKind, ThumbnailKey};
use gpui_ai::stream::ProgressState;

#[test]
fn kinds_follow_extensions_case_insensitively() {
    assert_eq!(AttachmentKind::from_name("Hero.PNG"), AttachmentKind::Image);
    assert_eq!(AttachmentKind::from_name("notes.md"), AttachmentKind::Document);
    assert_eq!(AttachmentKind::from_name("main.rs"), AttachmentKind::Code);
    assert_eq!(AttachmentKind::from_name("call.m4a"), AttachmentKind::Audio);
    assert_eq!(AttachmentKind::from_name("demo.mov"), AttachmentKind::Video);
    assert_eq!(AttachmentKind::from_name("bundle.tar.gz"), AttachmentKind::Archive);
    assert_eq!(AttachmentKind::from_name("sales.csv"), AttachmentKind::Data);
    assert_eq!(AttachmentKind::from_name("README"), AttachmentKind::Other);
}

#[test]
fn byte_counts_read_like_a_file_manager() {
    assert_eq!(format_bytes(820), "820 B");
    assert_eq!(format_bytes(12_300), "12 KB");
    assert_eq!(format_bytes(1_400_000), "1.4 MB");
    assert_eq!(format_bytes(3_500_000_000), "3.5 GB");
}

#[test]
fn summaries_describe_lifecycle_before_metadata() {
    let ready = Attachment::new("a", "pricing.md").size_bytes(12_300).detail("12 pages");
    assert_eq!(ready.summary(), "Document · 12 KB · 12 pages");
    assert_eq!(ready.accessibility_label(), "pricing.md, Document · 12 KB · 12 pages");

    let uploading = Attachment::new("b", "hero.png").state(ProgressState::Running).progress(40);
    assert_eq!(uploading.summary(), "Uploading 40%");
    assert!(!uploading.is_ready());

    let failed = Attachment::new("c", "big.zip").state(ProgressState::Failed("Too large".into()));
    assert_eq!(failed.summary(), "Failed: Too large");
}

#[test]
fn equality_compares_thumbnails_by_identity() {
    let image = ThumbnailKey { identity: 7 };
    let first = Attachment::new("a", "hero.png").thumbnail(image);
    let same = Attachment::new("a", "hero.png").thumbnail(image);
    let other = Attachment::new("a", "hero.png").thumbnail(ThumbnailKey { identity: 8 });
    assert_eq!(first, same);
    assert_ne!(first, other);
}

#[test]
fn byte_units_step_at_each_thousand_and_stop_at_terabytes() {
    assert_eq!(format_bytes(0), "0 B");
    assert_eq!(format_bytes(999), "999 B");
    assert_eq!(format_bytes(1_000), "1.0 KB");
    assert_eq!(format_bytes(9_960), "10.0 KB");
    assert_eq!(format_bytes(12_500), "13 KB");
    assert_eq!(format_bytes(999_999), "1000 KB");
    assert_eq!(format_bytes(1_000_000_000_000), "1.0 TB");
    assert_eq!(format_bytes(5_000_000_000_000_000), "5000 TB");
    assert_eq!(format_bytes(u64::MAX), "18446744 TB");
}

#[test]
fn extension_matching_edge_cases() {
    assert_eq!(AttachmentKind::from_name("archive."), AttachmentKind::Other);
    assert_eq!(AttachmentKind::from_name(".JSON"), AttachmentKind::Data);
    assert_eq!(AttachmentKind::from_name("photo.JpEg"), AttachmentKind::Image);
    assert_eq!(AttachmentKind::from_name("v1.2.PDF"), AttachmentKind::Document);
    assert_eq!(AttachmentKind::from_name("song.mp3.txt"), AttachmentKind::Document);
    assert_eq!(AttachmentKind::from_name("unknown.xyz"), AttachmentKind::Other);
    assert_eq!(AttachmentKind::from_name("Straße.İPNG"), AttachmentKind::Other);
    assert_eq!(AttachmentKind::Other.label(), "File");
    assert_eq!(AttachmentKind::Document.label(), "Document");
    assert_eq!(AttachmentKind::default(), AttachmentKind::Other);
}

#[test]
fn attachment_summary_covers_every_lifecycle() {
    let queued = Attachment::new("q", "notes.txt").state(ProgressState::Pending);
    assert_eq!(queued.summary(), "Queued");
    let uploading = Attachment::new("u", "notes.txt").state(ProgressState::Running);
    assert_eq!(uploading.summary(), "Uploading");
    let capped = Attachment::new("c", "notes.txt").state(ProgressState::Running).progress(250);
    assert_eq!(capped.summary(), "Uploading 100%");
    let bare = Attachment::new("b", "data.bin");
    assert_eq!(bare.summary(), "File");
    assert!(bare.is_ready());
    let sized = Attachment::new("s", "clip.mov").size_bytes(820);
    assert_eq!(sized.accessibility_label(), "clip.mov, Video · 820 B");
    let overridden = Attachment::new("o", "clip.mov").kind(AttachmentKind::Data).detail("3 rows");
    assert_eq!(overridden.summary(), "Data · 3 rows");
}

#[test]
fn an_exact_half_tenth_rounds_to_the_even_tenth() {
    assert_eq!(format_bytes(1_250), "1.2 KB");
    assert_eq!(format_bytes(1_750), "1.8 KB");
    assert_eq!(format_bytes(2_250), "2.2 KB");
    assert_eq!(format_bytes(1_260), "1.3 KB");
    // Whole numbers round halves up.
    assert_eq!(format_bytes(10_500), "11 KB");
}

#[test]
fn kind_follows_the_last_extension_in_any_case() {
    assert_eq!(AttachmentKind::from_name("REPORT.Pdf"), AttachmentKind::from_name("report.pdf"));
    assert_eq!(AttachmentKind::from_name("notes.md.ZIP"), AttachmentKind::Archive);
    assert_eq!(AttachmentKind::from_name("data.json.txt"), AttachmentKind::Document);
}

/// The byte reading computed directly in `f64`, as file managers compute it.
fn bytes_in_f64(bytes: u64) -> String {
    let units = ["B", "KB", "MB", "GB", "TB"];
    if bytes < 1000 {
        return format!("{} B", bytes);
    }
    let mut unit = 0usize;
    let mut value = bytes as f64;
    while unit < 4 && value >= 1000.0 {
        value = value / 1000.0;
        unit += 1;
    }
    if value < 10.0 {
        format!("{:.1} {}", value, units[unit])
    } else {
        format!("{} {}", value.round() as u64, units[unit])
    }
}

#[test]
fn decimal_ties_follow_the_binary_value() {
    assert_eq!(format_bytes(1_150), "1.1 KB");
    assert_eq!(format_bytes(1_050), "1.1 KB");
    assert_eq!(format_bytes(1_850), "1.9 KB");
    assert_eq!(format_bytes(1_250), "1.2 KB");
}

#[test]
fn byte_readings_agree_with_binary64_arithmetic() {
    for bytes in 0..=300_000u64 {
        assert_eq!(format_bytes(bytes), bytes_in_f64(bytes), "bytes = {}", bytes);
    }
    let mut bytes: u64 = 300_000;
    while bytes < u64::MAX / 3 {
        for probe in [bytes, bytes + 1, bytes - 1, bytes / 100 * 100 + 50, bytes / 1000 * 1000 + 500] {
            assert_eq!(format_bytes(probe), bytes_in_f64(probe), "bytes = {}", probe);
        }
        bytes = bytes + bytes / 997 + 13;
    }
    for probe in [u64::MAX, u64::MAX - 1, 1 << 53, (1 << 53) + 1, 9_999_949_999, 9_999_950_000, 999_950_000_000_000] {
        assert_eq!(format_bytes(probe), bytes_in_f64(probe), "bytes = {}", probe);
    }
}
