use data_hunter::classify::{classify, classify_local, clean_description, credential_usable};
use data_hunter::csv::export_csv;
use data_hunter::events::Source;
use data_hunter::extract::extract_links;
use data_hunter::text::{contains_str, u64_to_string};

fn src(url: &str, topic: &str, desc: &str) -> Source {
    Source { url: url.to_string(), topic: topic.to_string(), description: desc.to_string() }
}

#[test]
fn csv_fidelity() {
    let items = vec![src("http://a", "T", "has \"quotes\"")];
    let out = export_csv(&items);
    assert_eq!(out, "URL,TOPIC,DESCRIPTION\n\"http://a\",\"T\",\"has 'quotes'\"\n");
}

#[test]
fn csv_of_empty_list_is_just_the_header() {
    let items: Vec<Source> = Vec::new();
    assert_eq!(export_csv(&items), "URL,TOPIC,DESCRIPTION\n");
}

#[test]
fn csv_keeps_item_order() {
    let items = vec![src("http://a", "X", "one"), src("http://b", "Y", "two")];
    let out = export_csv(&items);
    assert_eq!(
        out,
        "URL,TOPIC,DESCRIPTION\n\"http://a\",\"X\",\"one\"\n\"http://b\",\"Y\",\"two\"\n"
    );
}

#[test]
fn classifier_fallback_without_credential() {
    let s = classify("", "http://x.gov/data", None);
    assert_eq!(s.topic, "GOVERNMENT");
    assert_eq!(s.url, "http://x.gov/data");
    assert_eq!(s.description, "Recurso detectado mediante rastreo profundo.");
}

#[test]
fn classifier_fallback_when_the_call_failed() {
    // a usable credential whose external call produced nothing gives
    // exactly the heuristic result
    let failed = classify("sk-0123456789abcdef", "http://x.gov/data", None);
    let local = classify_local("http://x.gov/data");
    assert_eq!(failed.url, local.url);
    assert_eq!(failed.topic, local.topic);
    assert_eq!(failed.description, local.description);
}

#[test]
fn classifier_uses_a_remote_description() {
    let s = classify(
        "sk-0123456789abcdef",
        "http://stats.edu/datasets",
        Some("  A \"curated\" catalogue of statistics.  ".to_string()),
    );
    assert_eq!(s.topic, "ACADEMIA");
    assert_eq!(s.description, "A curated catalogue of statistics.");
}

#[test]
fn classifier_topic_markers() {
    assert_eq!(classify_local("http://data.gov/x").topic, "GOVERNMENT");
    assert_eq!(classify_local("http://uni.edu/x").topic, "ACADEMIA");
    assert_eq!(classify_local("http://example.org/x").topic, "OPEN DATA");
}

#[test]
fn credential_plausibility() {
    assert!(!credential_usable(""));
    assert!(!credential_usable("short"));
    assert!(credential_usable("0123456789"));
}

#[test]
fn description_cleaning() {
    assert_eq!(clean_description("  \"hello\" world \t"), "hello world");
    assert_eq!(clean_description(""), "");
    assert_eq!(clean_description("   "), "");
    assert_eq!(clean_description("\"\"\""), "");
}

#[test]
fn extraction_order_and_terminators() {
    let text = "see http://example.com/data) then https://a.example.org/c d";
    let links = extract_links(text);
    assert_eq!(links, vec!["http://example.com/data", "https://a.example.org/c"]);
}

#[test]
fn extraction_keeps_duplicates() {
    let text = "http://dup.example.org http://dup.example.org";
    let links = extract_links(text);
    assert_eq!(links, vec!["http://dup.example.org", "http://dup.example.org"]);
}

#[test]
fn extraction_ignores_bare_schemes_and_other_text() {
    assert_eq!(extract_links("http:// nothing herex").len(), 0);
    assert_eq!(extract_links("ftp://old.example.org httpx://nope").len(), 0);
    assert_eq!(extract_links("").len(), 0);
}

#[test]
fn extraction_inside_markdown() {
    let text = "[link](https://data.example.org/set1) and [x](http://data.example.org/set2]";
    let links = extract_links(text);
    assert_eq!(links, vec!["https://data.example.org/set1", "http://data.example.org/set2"]);
}

#[test]
fn extraction_runs_to_end_of_text() {
    let links = extract_links("prefix https://tail.example.org/x");
    assert_eq!(links, vec!["https://tail.example.org/x"]);
}

#[test]
fn substring_search() {
    assert!(contains_str("http://data.gov/x", "gov"));
    assert!(!contains_str("http://example.org", "gov"));
    assert!(contains_str("abc", ""));
    assert!(!contains_str("ab", "abc"));
}

#[test]
fn decimal_rendering() {
    assert_eq!(u64_to_string(0), "0");
    assert_eq!(u64_to_string(7), "7");
    assert_eq!(u64_to_string(10), "10");
    assert_eq!(u64_to_string(305), "305");
    assert_eq!(u64_to_string(u64::MAX), "18446744073709551615");
}

#[test]
fn csv_escapes_every_field() {
    let items = vec![src("http://a\"b", "T\"X", "d\"e")];
    let out = export_csv(&items);
    assert_eq!(out, "URL,TOPIC,DESCRIPTION\n\"http://a'b\",\"T'X\",\"d'e\"\n");
}

#[test]
fn extraction_stops_at_unicode_whitespace() {
    let text = "http://a.example.org/x\u{0b}b http://c.example.org/y\u{0c}d \
                http://e.example.org/z\u{a0}f https://g.example.org/w\u{2028}h";
    let links = extract_links(text);
    assert_eq!(
        links,
        vec![
            "http://a.example.org/x",
            "http://c.example.org/y",
            "http://e.example.org/z",
            "https://g.example.org/w",
        ]
    );
}
