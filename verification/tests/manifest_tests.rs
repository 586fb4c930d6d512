use launcher::github::parse_hashes;

#[test]
fn manifest_parses_pairs_and_skips_malformed_lines() {
    let m = parse_hashes("abc123 file.txt\ndef456  other.bin\nmalformedline");
    assert_eq!(m.len(), 2);
    assert_eq!(m.get("file.txt"), Some(&"abc123".to_string()));
    assert_eq!(m.get("other.bin"), Some(&"def456".to_string()));
    assert_eq!(m.get("malformedline"), None);
}

#[test]
fn manifest_empty_text_is_empty() {
    let m = parse_hashes("");
    assert_eq!(m.len(), 0);
    assert_eq!(m.get("anything"), None);
}

#[test]
fn manifest_later_line_wins() {
    let m = parse_hashes("aaaa file.txt\nbbbb file.txt\n");
    assert_eq!(m.get("file.txt"), Some(&"bbbb".to_string()));
}

#[test]
fn manifest_handles_crlf_and_tabs() {
    let m = parse_hashes("abc123\tfile.txt\r\ndef456 other.bin\r\n");
    assert_eq!(m.get("file.txt"), Some(&"abc123".to_string()));
    assert_eq!(m.get("other.bin"), Some(&"def456".to_string()));
}

#[test]
fn manifest_trims_filename_lead_in() {
    let m = parse_hashes("abc123   spaced name.dat");
    // The digest ends at the first blank; further blanks before the
    // filename are trimmed, blanks inside it stay.
    assert_eq!(m.get("spaced name.dat"), Some(&"abc123".to_string()));
}

#[test]
fn manifest_splits_at_any_whitespace() {
    // A non-breaking space and an ideographic space separate and trim just
    // as a plain blank does.
    let m = parse_hashes("abc123\u{A0}file.txt\ndef456 \u{3000}other.bin");
    assert_eq!(m.get("file.txt"), Some(&"abc123".to_string()));
    assert_eq!(m.get("other.bin"), Some(&"def456".to_string()));
}

#[test]
fn manifest_real_digest_line() {
    let m = parse_hashes("3323b3882f9465a4c66cf298833435150effb153 iw3mp.exe\n");
    assert_eq!(
        m.get("iw3mp.exe"),
        Some(&"3323b3882f9465a4c66cf298833435150effb153".to_string())
    );
}
