use libads::extract_entry;

#[test]
fn entry_follows_the_preamble() {
    assert_eq!(
        extract_entry("preamble text\n@ARTICLE{2015MNRAS.452.2597X,...}\n"),
        Some("@ARTICLE{2015MNRAS.452.2597X,...}\n".to_string())
    );
}

#[test]
fn no_delimiter_gives_no_entry() {
    assert_eq!(extract_entry(""), None);
    assert_eq!(extract_entry("\n"), None);
    assert_eq!(extract_entry("@"), None);
    assert_eq!(extract_entry("@\n"), None);
    assert_eq!(extract_entry("@ARTICLE{x}"), None);
    assert_eq!(extract_entry("no entry here\n"), None);
    assert_eq!(extract_entry("mail a@b.org\nfor help\n"), None);
    assert_eq!(extract_entry("line\n @indented"), None);
    assert_eq!(extract_entry("line\n\r@x"), None);
}

#[test]
fn entry_keeps_its_sigil() {
    let entry = extract_entry("Query Results from the ADS Database\n\n@ARTICLE{k,\n a = 1\n}\n")
        .expect("an entry");
    assert!(entry.starts_with('@'));
    assert_eq!(entry, "@ARTICLE{k,\n a = 1\n}\n");
}

#[test]
fn entry_runs_from_the_first_delimiter_to_the_end() {
    assert_eq!(extract_entry("a\n@b\n@c"), Some("@b\n@c".to_string()));
    assert_eq!(
        extract_entry("head\n@ARTICLE{one}\n\n@BOOK{two}\n"),
        Some("@ARTICLE{one}\n\n@BOOK{two}\n".to_string())
    );
    assert_eq!(extract_entry("\n@\n@\n@"), Some("@\n@\n@".to_string()));
}

#[test]
fn delimiter_at_the_edges() {
    assert_eq!(extract_entry("\n@"), Some("@".to_string()));
    assert_eq!(extract_entry("\n@x"), Some("@x".to_string()));
    assert_eq!(extract_entry("x\n@"), Some("@".to_string()));
    assert_eq!(extract_entry("\n\n@x"), Some("@x".to_string()));
    assert_eq!(extract_entry("@\n@x"), Some("@x".to_string()));
    assert_eq!(extract_entry("a@b\r\n@x"), Some("@x".to_string()));
}

#[test]
fn positions_count_characters() {
    assert_eq!(
        extract_entry("r\u{e9}sum\u{e9} \u{1f4da}\n@BOOK{\u{e9}t\u{e9}}"),
        Some("@BOOK{\u{e9}t\u{e9}}".to_string())
    );
    assert_eq!(extract_entry("\u{4e2d}\u{6587}\n@\u{4e2d}"), Some("@\u{4e2d}".to_string()));
    assert_eq!(extract_entry("\u{4e2d}\u{6587}@\u{4e2d}\n"), None);
}
