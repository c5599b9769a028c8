use game_overlay::listing::{chars_of, entry_name_of, image_field_of, split_lines};
use game_overlay::snapshot::{get_processes, parse_listing, ProcessSnapshot};

const LISTING: &str = "\"System Idle Process\",\"0\",\"Services\",\"0\",\"8 K\"\r\n\"VALORANT-Win64-Shipping.exe\",\"4312\",\"Console\",\"1\",\"1,204,112 K\"\r\n\"chrome.exe\",\"991\",\"Console\",\"1\",\"90 K\"\r\n";

#[test]
fn chars_come_out_in_order() {
    assert_eq!(chars_of("a,\u{e9}\n"), vec!['a', ',', '\u{e9}', '\n']);
    assert_eq!(chars_of(""), Vec::<char>::new());
}

#[test]
fn lines_end_at_line_feeds() {
    assert_eq!(split_lines("a\nb\r\nc"), vec!["a", "b", "c"]);
    assert_eq!(split_lines("a\n"), vec!["a"]);
    assert_eq!(split_lines("a\n\nb\n"), vec!["a", "", "b"]);
    assert_eq!(split_lines(""), Vec::<&str>::new());
    assert_eq!(split_lines("\n"), vec![""]);
    assert_eq!(split_lines("\r\n"), vec![""]);
}

#[test]
fn carriage_return_is_dropped_only_before_a_line_feed() {
    assert_eq!(split_lines("a\r"), vec!["a\r"]);
    assert_eq!(split_lines("a\rb\n"), vec!["a\rb"]);
    assert_eq!(split_lines("a\r\r\nb"), vec!["a\r", "b"]);
}

#[test]
fn lines_agree_with_the_standard_split() {
    for text in ["", "x", "x\n", "x\r\n", "x\r", "\n\n", "a\nb\r\nc\r", "\r\n\r\n", LISTING] {
        let expected: Vec<&str> = text.lines().collect();
        assert_eq!(split_lines(text), expected);
    }
}

#[test]
fn image_field_is_the_first_field_without_quotes() {
    assert_eq!(image_field_of("\"chrome.exe\",\"991\",\"Console\""), "chrome.exe");
    assert_eq!(image_field_of("chrome.exe"), "chrome.exe");
    assert_eq!(image_field_of("\"\"\"x.exe\"\",1"), "x.exe");
    assert_eq!(image_field_of("\"my,app.exe\",\"1\""), "my");
    assert_eq!(image_field_of("\"a\"b\",1"), "a\"b");
    assert_eq!(image_field_of(",\"1\""), "");
    assert_eq!(image_field_of("\"\",\"1\""), "");
    assert_eq!(image_field_of("\"\"\""), "");
    assert_eq!(image_field_of(""), "");
    assert_eq!(image_field_of(" \"a.exe\" ,1"), " \"a.exe\" ");
}

#[test]
fn entry_name_is_lowercase() {
    assert_eq!(entry_name_of("\"VALORANT-Win64-Shipping.exe\",\"4312\""), "valorant-win64-shipping.exe");
    assert_eq!(entry_name_of("\"League of Legends.exe\",\"1\""), "league of legends.exe");
    assert_eq!(entry_name_of("\"\u{c9}COLE.EXE\",\"1\""), "\u{e9}cole.exe");
    assert_eq!(entry_name_of("\"\",\"1\""), "");
}

#[test]
fn listing_gives_the_lowercase_names() {
    let snapshot = parse_listing(LISTING);
    assert_eq!(snapshot.len(), 3);
    assert!(snapshot.contains("system idle process"));
    assert!(snapshot.contains("valorant-win64-shipping.exe"));
    assert!(snapshot.contains("chrome.exe"));
    assert!(!snapshot.contains("VALORANT-Win64-Shipping.exe"));
    assert!(!snapshot.contains("4312"));
    assert!(!snapshot.is_empty());
}

#[test]
fn empty_and_malformed_entries_are_dropped() {
    let snapshot = parse_listing("\n\"\",\"1\"\n,,\n\"a.exe\",\"2\"\n\"A.EXE\",\"3\"\n");
    assert_eq!(snapshot.len(), 1);
    assert!(snapshot.contains("a.exe"));
    assert!(!snapshot.contains(""));
    assert!(parse_listing("").is_empty());
    assert!(parse_listing("\r\n\r\n").is_empty());
}

#[test]
fn failed_query_is_an_empty_snapshot() {
    let snapshot = get_processes(None);
    assert!(snapshot.is_empty());
    assert_eq!(snapshot.len(), 0);
    assert!(!snapshot.contains("cs2.exe"));
}

#[test]
fn query_output_is_read_as_text() {
    let snapshot = get_processes(Some(LISTING.as_bytes()));
    assert_eq!(snapshot.len(), 3);
    assert!(snapshot.contains("chrome.exe"));
    let snapshot = get_processes(Some(b""));
    assert!(snapshot.is_empty());
}

#[test]
fn bytes_that_are_not_text_become_replacement_characters() {
    let snapshot = get_processes(Some(b"\"A\xffB.exe\",\"1\"\r\n\"cs2.exe\",\"2\"\r\n"));
    assert_eq!(snapshot.len(), 2);
    assert!(snapshot.contains("a\u{fffd}b.exe"));
    assert!(snapshot.contains("cs2.exe"));
}

#[test]
fn snapshot_records_names_but_not_empty_ones() {
    let mut snapshot = ProcessSnapshot::new();
    assert!(snapshot.is_empty());
    snapshot.record(String::new());
    assert!(snapshot.is_empty());
    snapshot.record("cs2.exe".to_string());
    snapshot.record("cs2.exe".to_string());
    snapshot.record("lol.exe".to_string());
    assert_eq!(snapshot.len(), 2);
    assert!(snapshot.contains("cs2.exe"));
    assert!(!snapshot.contains("CS2.EXE"));
}

#[test]
fn image_field_agrees_with_the_standard_split_and_trim() {
    for line in [
        "",
        ",",
        "\"",
        "\"\"",
        "a",
        "\"a.exe\",\"1\"",
        "\"\"a.exe\"\",1",
        "a\"b\",c",
        "\"a,b\",c",
        "\"System Idle Process\",\"0\",\"Services\",\"0\",\"8 K\"",
        "no comma at all\r",
    ] {
        let expected = line.split(',').next().unwrap_or("").trim_matches('"');
        assert_eq!(image_field_of(line), expected);
    }
}

#[test]
fn listing_agrees_with_the_standard_pipeline() {
    for text in [
        LISTING,
        "",
        "\n\n",
        "\"A.exe\",1\n\"a.EXE\",2\r\n\"\",3\nB.EXE\r",
        "x\r\ny\rz\n\"Q\"",
    ] {
        let expected: std::collections::HashSet<String> = text
            .lines()
            .filter_map(|l| l.split(',').next())
            .map(|n| n.trim_matches('"').to_lowercase())
            .filter(|n| !n.is_empty())
            .collect();
        let snapshot = parse_listing(text);
        assert_eq!(snapshot.len(), expected.len());
        for name in &expected {
            assert!(snapshot.contains(name));
        }
    }
}
