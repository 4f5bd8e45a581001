use wiki_db_supervisor::access::access_rules_text;
use wiki_db_supervisor::bootstrap::{
    choose_source, first_stage, next_stage, ready_message, sibling_config_path, stage_error,
    standalone_dir, ConfigChoice, Stage,
};
use wiki_db_supervisor::commands::{absolute_url, download_file_name, open_target, requested_url};
use wiki_db_supervisor::config::DbConfig;
use wiki_db_supervisor::paths::{bin_dir, strip_verbatim};
use wiki_db_supervisor::text::{decimal_text, remove_all};
use wiki_db_supervisor::{default_host, DatabaseMode, StoredConfig};

#[test]
fn mode_defaults_to_embedded() {
    assert_eq!(DatabaseMode::default(), DatabaseMode::Embedded);
}

#[test]
fn host_defaults_to_loopback() {
    assert_eq!(default_host(), "127.0.0.1");
}

#[test]
fn absent_fields_take_defaults() {
    let c = DbConfig::from_stored(StoredConfig {
        mode: None,
        host: None,
        port: 20001,
        postgres_password: "a".to_string(),
        app_password: "b".to_string(),
    });
    assert_eq!(c.mode, DatabaseMode::Embedded);
    assert_eq!(c.host, "127.0.0.1");
    assert_eq!(c.port, 20001);
    let back = c.to_stored();
    assert_eq!(back.mode, Some(DatabaseMode::Embedded));
    assert_eq!(back.host.as_deref(), Some("127.0.0.1"));
}

#[test]
fn decimal_rendering() {
    assert_eq!(decimal_text(0), "0");
    assert_eq!(decimal_text(7), "7");
    assert_eq!(decimal_text(10), "10");
    assert_eq!(decimal_text(15432), "15432");
    assert_eq!(decimal_text(65535), "65535");
    assert_eq!(decimal_text(u64::MAX), u64::MAX.to_string());
}

#[test]
fn removal_of_pattern() {
    assert_eq!(remove_all("aaa", "aa"), "a");
    assert_eq!(remove_all("abcabc", "bc"), "aa");
    assert_eq!(remove_all("abc", ""), "abc");
    assert_eq!(strip_verbatim("\\\\?\\C:\\res\\postgresql\\bin"), "C:\\res\\postgresql\\bin");
}

#[test]
fn binaries_live_under_resources() {
    assert_eq!(bin_dir("/res"), "/res/postgresql/bin");
}

#[test]
fn access_file_ends_with_catch_all_reject() {
    let t = access_rules_text();
    assert!(t.ends_with("host all all 127.0.0.1/32 reject\n"));
    let lines: Vec<&str> = t.lines().filter(|l| !l.starts_with('#')).collect();
    assert_eq!(lines.len(), 3);
    assert!(lines[0].contains(" postgres "));
    assert!(lines[1].contains(" app_user "));
}

#[test]
fn open_request_is_parsed_and_decoded() {
    let req = "GET /open?url=%2Fdocs%2Frapport%20final.pdf HTTP/1.1\r\nHost: x\r\n\r\n";
    assert_eq!(open_target(req), Some("%2Fdocs%2Frapport%20final.pdf".to_string()));
    assert_eq!(requested_url(req), Some("/docs/rapport final.pdf".to_string()));
    assert_eq!(requested_url("GET /open?url=/plain.txt HTTP/1.1"), Some("/plain.txt".to_string()));
}

#[test]
fn other_requests_are_ignored() {
    assert_eq!(requested_url("GET /favicon.ico HTTP/1.1"), None);
    assert_eq!(requested_url("GET /open?url=abc"), None);
    assert_eq!(requested_url(""), None);
}

#[test]
fn undecodable_target_gives_empty_text() {
    assert_eq!(requested_url("GET /open?url=%FF HTTP/1.1"), Some(String::new()));
}

#[test]
fn addresses_resolve_against_local_server() {
    assert_eq!(absolute_url("https://x.org/a.pdf"), "https://x.org/a.pdf");
    assert_eq!(absolute_url("/files/a.pdf"), "http://localhost:3000/files/a.pdf");
    assert_eq!(absolute_url("files/a.pdf"), "http://localhost:3000/files/a.pdf");
}

#[test]
fn file_name_is_last_segment() {
    assert_eq!(download_file_name("http://x/a/b.pdf"), "b.pdf");
    assert_eq!(download_file_name("report.docx"), "report.docx");
    assert_eq!(download_file_name("dir/"), "");
}

#[test]
fn sibling_config_is_adopted_when_present() {
    assert_eq!(
        sibling_config_path("/roam"),
        "/roam/com.collabtools.core/postgresql/db_config.json"
    );
    assert_eq!(standalone_dir("/roam"), "/roam/com.wikitools.app");
    assert_eq!(choose_source(true), ConfigChoice::Adopt);
    assert_eq!(choose_source(false), ConfigChoice::Standalone);
}

#[test]
fn stages_follow_in_order() {
    assert_eq!(first_stage(ConfigChoice::Standalone), Stage::Persist);
    assert_eq!(first_stage(ConfigChoice::Adopt), Stage::Start);
    assert_eq!(next_stage(Stage::Persist), Some(Stage::Initialize));
    assert_eq!(next_stage(Stage::Initialize), Some(Stage::Start));
    assert_eq!(next_stage(Stage::Start), Some(Stage::Provision));
    assert_eq!(next_stage(Stage::Provision), None);
    assert_eq!(stage_error(Stage::Start, "boom"), "Erreur start(): boom");
    assert_eq!(stage_error(Stage::Initialize, "x"), "Echec initdb autonome: x");
    assert_eq!(ready_message(), "Base de donn\u{e9}es pr\u{ea}te.");
}
