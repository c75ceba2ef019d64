use soulbook::files::{
    file_icon, format_size, split_by_kind, total_size, upload_outcome, upload_summary, FileItem,
};

fn reference(bytes: i64) -> String {
    if bytes < 1024 {
        format!("{} B", bytes)
    } else if bytes < 1024 * 1024 {
        format!("{:.1} KB", bytes as f64 / 1024.0)
    } else {
        format!("{:.1} MB", bytes as f64 / (1024.0 * 1024.0))
    }
}

#[test]
fn sizes_are_shown_as_formatted_floats() {
    assert_eq!(format_size(0), "0 B");
    assert_eq!(format_size(1023), "1023 B");
    assert_eq!(format_size(-5), "-5 B");
    assert_eq!(format_size(1024), "1.0 KB");
    assert_eq!(format_size(1536), "1.5 KB");
    assert_eq!(format_size(1048576), "1.0 MB");
    assert_eq!(format_size(i64::MIN), reference(i64::MIN));
    for b in 1000..200_000i64 {
        assert_eq!(format_size(b), reference(b), "bytes {}", b);
    }
}

#[test]
fn size_rounding_ties_agree_with_float_formatting() {
    // b * 10 = 1024 * k + 512: exactly halfway between two tenths of a KiB.
    let mut b = 1024i64;
    let mut checked = 0;
    while b < 1048576 {
        if (b * 10) % 1024 == 512 {
            assert_eq!(format_size(b), reference(b), "bytes {}", b);
            checked += 1;
        }
        b += 1;
    }
    assert!(checked > 0);
    for k in 1..2000i64 {
        let b = k * 1048576 / 10 * 10 + 524288 / 5;
        assert_eq!(format_size(b), reference(b), "bytes {}", b);
    }
}

#[test]
fn large_sizes_agree_with_float_formatting() {
    let mut x: u64 = 0x2545F4914F6CDD1D;
    for _ in 0..20000 {
        x ^= x << 13;
        x ^= x >> 7;
        x ^= x << 17;
        let b = (x >> 1) as i64;
        assert_eq!(format_size(b), reference(b), "bytes {}", b);
        let c = b >> (x % 60);
        assert_eq!(format_size(c), reference(c), "bytes {}", c);
    }
    for b in [i64::MAX, i64::MAX - 1, 1 << 53, (1 << 53) + 1, (1 << 54) + 3, (1 << 62) + 511, (1 << 62) + 512] {
        assert_eq!(format_size(b), reference(b), "bytes {}", b);
    }
}

#[test]
fn icons_by_kind() {
    assert_eq!(file_icon("pdf"), "📄");
    assert_eq!(file_icon("video"), "🎬");
    assert_eq!(file_icon("audio"), "🎵");
    assert_eq!(file_icon("archive"), "📦");
    assert_eq!(file_icon("spreadsheet"), "📊");
    assert_eq!(file_icon("doc"), "📝");
    assert_eq!(file_icon("docx"), "📝");
    assert_eq!(file_icon("image"), "📎");
    assert_eq!(file_icon(""), "📎");
}

fn file(kind: &str, size: i64) -> FileItem {
    FileItem {
        id: format!("f-{}", size),
        filename: "f".into(),
        original_name: "f".into(),
        file_size: size,
        file_type: kind.into(),
        mime_type: "application/octet-stream".into(),
        url: "/f".into(),
        thumbnail_url: None,
        space_id: None,
        document_id: None,
        uploaded_by: "u".into(),
        created_at: "2024".into(),
    }
}

#[test]
fn files_split_into_pictures_and_others() {
    let files = vec![file("image", 1), file("pdf", 2), file("image", 3), file("doc", 4)];
    let (images, others) = split_by_kind(&files);
    assert_eq!(images, vec![0, 2]);
    assert_eq!(others, vec![1, 3]);
    assert_eq!(total_size(&files), 10);
    assert_eq!(total_size(&vec![]), 0);
}

#[test]
fn upload_reports_are_read() {
    assert_eq!(upload_outcome("done:3:0"), Some((3, 0)));
    assert_eq!(upload_outcome("done:2:1"), Some((2, 1)));
    assert_eq!(upload_outcome("done:5"), Some((5, 0)));
    assert_eq!(upload_outcome("done:x:y"), Some((0, 0)));
    assert_eq!(upload_outcome("done:1:2:3"), Some((1, 0)));
    assert_eq!(upload_outcome("done:"), Some((0, 0)));
    assert_eq!(upload_outcome("cancel"), None);
    assert_eq!(upload_outcome("Done:1:1"), None);
}

#[test]
fn upload_report_roundtrip() {
    for (ok, fail) in [(0u32, 0u32), (12, 3), (4294967295, 1)] {
        assert_eq!(upload_outcome(&format!("done:{}:{}", ok, fail)), Some((ok, fail)));
    }
}

#[test]
fn upload_notes() {
    assert_eq!(upload_summary(3, 0), "✅ 成功上传 3 个文件");
    assert_eq!(upload_summary(2, 1), "上传完成：2 成功，1 失败");
}
