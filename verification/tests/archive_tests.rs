use std::io::Write;
use nodepass_gui::archive::{ArchiveKind, classify_archive, plan_archive_extraction,
    read_archive_entries};
use nodepass_gui::errors::CoreError;

fn tar_gz_bytes(entries: &[(&str, bool, &[u8])]) -> Vec<u8> {
    let mut builder = tar::Builder::new(Vec::new());
    for (path, is_dir, data) in entries {
        let mut h = tar::Header::new_gnu();
        if *is_dir {
            h.set_entry_type(tar::EntryType::dir());
            h.set_size(0);
            h.set_mode(0o755);
            h.set_cksum();
            builder.append_data(&mut h, *path, &b""[..]).unwrap();
        } else {
            h.set_size(data.len() as u64);
            h.set_mode(0o755);
            h.set_cksum();
            builder.append_data(&mut h, *path, *data).unwrap();
        }
    }
    let tar_bytes = builder.into_inner().unwrap();
    let mut enc = flate2::write::GzEncoder::new(Vec::new(), flate2::Compression::default());
    enc.write_all(&tar_bytes).unwrap();
    enc.finish().unwrap()
}

fn zip_bytes(entries: &[(&str, &[u8])]) -> Vec<u8> {
    let mut w = zip::ZipWriter::new(std::io::Cursor::new(Vec::new()));
    let options = zip::write::SimpleFileOptions::default();
    for (path, data) in entries {
        w.start_file(*path, options).unwrap();
        w.write_all(data).unwrap();
    }
    w.finish().unwrap().into_inner()
}

#[test]
fn suffix_dispatch() {
    assert_eq!(classify_archive("a.tar.gz"), Some(ArchiveKind::TarGz));
    assert_eq!(classify_archive("a.tgz"), Some(ArchiveKind::TarGz));
    assert_eq!(classify_archive("a.zip"), Some(ArchiveKind::Zip));
    assert_eq!(classify_archive("a.rar"), None);
    assert_eq!(classify_archive("a.tar"), None);
}

#[test]
fn unsupported_suffix_is_rejected() {
    let r = plan_archive_extraction("nodepass.rar", &vec![1, 2, 3], "/install");
    assert_eq!(r.err(), Some(CoreError::UnsupportedArchiveFormat));
}

#[test]
fn malformed_archive_fails_to_read() {
    let r = plan_archive_extraction("nodepass.zip", &vec![0, 1, 2, 3], "/install");
    assert_eq!(r.err(), Some(CoreError::ArchiveReadFailed));
}

#[test]
fn tar_gz_with_nested_executable() {
    let payload: &[u8] = b"worker binary bytes";
    let bytes = tar_gz_bytes(&[
        ("release/", true, b""),
        ("release/readme.txt", false, b"docs"),
        ("release/bin/nodepass.exe", false, payload),
    ]);
    let plan = plan_archive_extraction("nodepass.tar.gz", &bytes, "/install").unwrap();
    assert_eq!(plan.exe_path, "/install/release/bin/nodepass.exe");
    assert_eq!(plan.writes.len(), 3);
    assert!(plan.writes[0].is_dir);
    assert_eq!(plan.writes[2].dest, "/install/release/bin/nodepass.exe");
    // The planned executable write carries the entry's exact contents.
    let entries = read_archive_entries(ArchiveKind::TarGz, &bytes).unwrap();
    assert_eq!(entries[plan.exe_index].data, payload.to_vec());
    // Progress never decreases along the entries.
    for w in plan.writes.windows(2) {
        assert!(w[0].progress <= w[1].progress);
    }
    assert_eq!(plan.writes[2].progress, 100);
}

#[test]
fn tar_gz_without_executable_is_a_hard_error() {
    let bytes = tar_gz_bytes(&[("readme.txt", false, b"docs")]);
    let r = plan_archive_extraction("nodepass.tgz", &bytes, "/install");
    assert_eq!(r.err(), Some(CoreError::ExecutableNotFoundInArchive));
}

#[test]
fn tar_base_name_must_match_exactly() {
    // A file merely ending in the worker's name is not the worker.
    let bytes = tar_gz_bytes(&[("bin/xnodepass.exe", false, b"not it")]);
    let r = plan_archive_extraction("nodepass.tar.gz", &bytes, "/install");
    assert_eq!(r.err(), Some(CoreError::ExecutableNotFoundInArchive));
}

#[test]
fn zip_with_executable() {
    let payload: &[u8] = b"zip worker bytes";
    let bytes = zip_bytes(&[("docs/readme.txt", b"d"), ("nodepass.exe", payload)]);
    let plan = plan_archive_extraction("nodepass.zip", &bytes, "/install").unwrap();
    assert_eq!(plan.exe_path, "/install/nodepass.exe");
    assert_eq!(plan.writes.len(), 2);
    let entries = read_archive_entries(ArchiveKind::Zip, &bytes).unwrap();
    assert_eq!(entries[plan.exe_index].data, payload.to_vec());
}

#[test]
fn zip_without_executable_is_a_hard_error() {
    let bytes = zip_bytes(&[("docs/readme.txt", b"d")]);
    let r = plan_archive_extraction("nodepass.zip", &bytes, "/install");
    assert_eq!(r.err(), Some(CoreError::ExecutableNotFoundInArchive));
}

#[test]
fn zip_traversal_paths_are_not_planned() {
    let payload: &[u8] = b"x";
    let bytes = zip_bytes(&[("../escape.txt", b"no"), ("ok/nodepass.exe", payload)]);
    let plan = plan_archive_extraction("nodepass.zip", &bytes, "/install").unwrap();
    // Only the safe entry is written.
    assert_eq!(plan.writes.len(), 1);
    assert_eq!(plan.writes[0].dest, "/install/ok/nodepass.exe");
    assert_eq!(plan.exe_path, "/install/ok/nodepass.exe");
}
