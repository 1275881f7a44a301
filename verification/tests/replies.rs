use regex::Regex;
use pcgd_sync::reply::{
    classify_creation, classify_page, classify_reply, find_record_id, read_creation_reply,
    read_purge_page, read_reply_kind, read_row_ids, read_success, success, CreationOutcome,
    PurgePage, ReplyKind,
};

fn by_pattern(text: &str) -> Option<String> {
    let pattern = Regex::new("id\":\"([^\"]+)").unwrap();
    pattern
        .captures(text)
        .map(|found| found.get(0).unwrap().as_str().split("id\":\"").last().unwrap().to_string())
}

fn some(text: &str) -> Option<String> {
    Some(text.to_string())
}

#[test]
fn creation_success_carries_the_record_id() {
    assert_eq!(
        read_creation_reply("{\"result\":\"success\",\"ma_phieu\":\"HH123\"}"),
        CreationOutcome::Created { ma_phieu: "HH123".to_string() }
    );
    assert_eq!(
        read_creation_reply("{\"ma_phieu\":\"7\",\"result\":\"success\",\"more\":[1,2]}"),
        CreationOutcome::Created { ma_phieu: "7".to_string() }
    );
}

#[test]
fn creation_success_without_text_id_keeps_the_middle() {
    assert_eq!(
        read_creation_reply("{\"result\":\"success\"}"),
        CreationOutcome::Created { ma_phieu: "ul".to_string() }
    );
    assert_eq!(
        read_creation_reply("{\"result\":\"success\",\"ma_phieu\":12345}"),
        CreationOutcome::Created { ma_phieu: "234".to_string() }
    );
    assert_eq!(
        read_creation_reply("{\"result\":\"success\",\"ma_phieu\":5}"),
        CreationOutcome::Created { ma_phieu: String::new() }
    );
}

#[test]
fn creation_conflict_is_read_from_the_message() {
    assert_eq!(
        read_creation_reply(
            "{\"result\":\"error\",\"errors\":{\"so_phieu\":\"Số phiếu T1 đã tồn tại.\"}}"
        ),
        CreationOutcome::Conflict
    );
    assert_eq!(
        read_creation_reply("{\"errors\":{\"so_phieu\":\" đã tồn tại.\"}}"),
        CreationOutcome::Conflict
    );
}

#[test]
fn creation_rejections() {
    for reply in [
        "{\"result\":\"error\",\"errors\":{\"so_phieu\":\"Số phiếu không hợp lệ.\"}}",
        "{\"result\":\"error\",\"errors\":{\"so_phieu\":\"T1 đã tồn tại\"}}",
        "{\"result\":\"error\",\"errors\":{\"dia_chi\":\"T1 đã tồn tại.\"}}",
        "{\"result\":\"error\",\"errors\":{\"so_phieu\":17}}",
        "{\"result\":\"error\"}",
        "{\"result\":\"Success\"}",
        "{\"result\":true}",
        "[\"success\"]",
        "{}",
        "",
        "<html>",
    ] {
        assert_eq!(read_creation_reply(reply), CreationOutcome::Rejected, "{}", reply);
    }
}

#[test]
fn success_wins_over_a_conflict_message() {
    assert_eq!(
        read_creation_reply(
            "{\"result\":\"success\",\"ma_phieu\":\"A\",\"errors\":{\"so_phieu\":\"x đã tồn tại.\"}}"
        ),
        CreationOutcome::Created { ma_phieu: "A".to_string() }
    );
}

#[test]
fn creation_is_decided_on_what_was_found() {
    assert_eq!(
        classify_creation(some("success"), some("\"HH1\""), None),
        CreationOutcome::Created { ma_phieu: "HH1".to_string() }
    );
    assert_eq!(classify_creation(some("success"), None, None), CreationOutcome::Rejected);
    assert_eq!(
        classify_creation(some("success"), None, some("T1 đã tồn tại.")),
        CreationOutcome::Rejected
    );
    assert_eq!(
        classify_creation(some("error"), some("\"HH1\""), some("T1 đã tồn tại.")),
        CreationOutcome::Conflict
    );
    assert_eq!(
        classify_creation(None, some("null"), some("T1 đã tồn tại.")),
        CreationOutcome::Conflict
    );
    assert_eq!(classify_creation(None, None, some("khác")), CreationOutcome::Rejected);
    assert_eq!(classify_creation(None, None, None), CreationOutcome::Rejected);
}

#[test]
fn success_is_the_exact_text() {
    assert!(read_success("{\"result\":\"success\"}"));
    assert!(read_success("  {\"x\":1, \"result\" : \"success\"}  "));
    assert!(!read_success("{\"result\":\"success \"}"));
    assert!(!read_success("{\"result\":[\"success\"]}"));
    assert!(!read_success("{\"data\":{\"result\":\"success\"}}"));
    assert!(!read_success("success"));
    assert!(!read_success(""));
}

#[test]
fn page_lists_the_ids_of_its_rows() {
    assert_eq!(
        read_purge_page("{\"records\":\"3\",\"rows\":[{\"id\":\"d1\",\"cell\":[]},{\"id\":\"d2\"}]}"),
        PurgePage::Dependents { ids: vec!["d1".to_string(), "d2".to_string()] }
    );
    assert_eq!(
        read_purge_page("{\"records\":3,\"rows\":[{\"id\":\"d1\"}]}"),
        PurgePage::Dependents { ids: vec!["d1".to_string()] }
    );
    assert_eq!(
        read_purge_page("{\"rows\":[{\"id\":123},{\"name\":\"x\"}]}"),
        PurgePage::Dependents { ids: vec!["2".to_string(), "ul".to_string()] }
    );
    assert_eq!(
        read_purge_page("{\"records\":\"1\",\"rows\":[]}"),
        PurgePage::Dependents { ids: Vec::new() }
    );
}

#[test]
fn page_with_count_zero_is_empty() {
    assert_eq!(read_purge_page("{\"records\":\"0\",\"rows\":[]}"), PurgePage::Empty);
    assert_eq!(read_purge_page("{\"records\":\"0\"}"), PurgePage::Empty);
    assert_eq!(
        read_purge_page("{\"records\":\"0\",\"rows\":[{\"id\":\"d1\"}]}"),
        PurgePage::Empty
    );
}

#[test]
fn page_that_cannot_be_read_is_malformed() {
    assert_eq!(read_purge_page("{\"records\":\"2\"}"), PurgePage::Malformed);
    assert_eq!(read_purge_page("{\"records\":\"2\",\"rows\":{}}"), PurgePage::Malformed);
    assert_eq!(read_purge_page("{\"records\":0}"), PurgePage::Malformed);
    assert_eq!(read_purge_page("oops"), PurgePage::Malformed);
    assert_eq!(read_purge_page(""), PurgePage::Malformed);
}

#[test]
fn page_is_decided_on_what_was_found() {
    assert_eq!(classify_page(some("0"), None), PurgePage::Empty);
    assert_eq!(classify_page(some("0"), Some(vec!["\"d1\"".to_string()])), PurgePage::Empty);
    assert_eq!(
        classify_page(some("00"), Some(vec!["\"d1\"".to_string(), "7".to_string()])),
        PurgePage::Dependents { ids: vec!["d1".to_string(), String::new()] }
    );
    assert_eq!(classify_page(None, Some(Vec::new())), PurgePage::Dependents { ids: Vec::new() });
    assert_eq!(classify_page(some("2"), None), PurgePage::Malformed);
    assert_eq!(classify_page(None, None), PurgePage::Malformed);
}

#[test]
fn row_ids_are_read_as_written() {
    assert_eq!(
        read_row_ids("{\"rows\":[{\"id\":\"d1\"},{\"id\":null},{\"id\":\"a\\\"b\"}]}"),
        Some(vec!["\"d1\"".to_string(), "null".to_string(), "\"a\\\"b\"".to_string()])
    );
    assert_eq!(read_row_ids("{\"rows\":[]}"), Some(Vec::new()));
    assert_eq!(read_row_ids("{\"rows\":7}"), None);
    assert_eq!(read_row_ids("{}"), None);
    assert_eq!(read_row_ids("]"), None);
}

#[test]
fn reply_kind_is_decided_on_what_was_found() {
    assert_eq!(classify_reply(some("success"), some("\"success\"")), ReplyKind::Success);
    assert_eq!(classify_reply(some("success"), None), ReplyKind::Success);
    assert_eq!(classify_reply(some("error"), some("\"error\"")), ReplyKind::StructuredError);
    assert_eq!(classify_reply(None, some("null")), ReplyKind::StructuredError);
    assert_eq!(classify_reply(None, None), ReplyKind::Malformed);
    assert!(success(&some("success")));
    assert!(!success(&some("Success")));
    assert!(!success(&None));
}

#[test]
fn reply_kinds() {
    assert_eq!(read_reply_kind("{\"result\":\"success\"}"), ReplyKind::Success);
    assert_eq!(read_reply_kind("{\"result\":\"error\"}"), ReplyKind::StructuredError);
    assert_eq!(
        read_reply_kind("{\"errors\":{\"so_phieu\":\"T1 đã tồn tại.\"}}"),
        ReplyKind::StructuredError
    );
    assert_eq!(read_reply_kind("{}"), ReplyKind::StructuredError);
    assert_eq!(read_reply_kind("[]"), ReplyKind::StructuredError);
    assert_eq!(read_reply_kind("{"), ReplyKind::Malformed);
    assert_eq!(read_reply_kind(""), ReplyKind::Malformed);
}

#[test]
fn record_id_follows_the_first_marker() {
    assert_eq!(
        find_record_id("{\"rows\":[{\"id\":\"OLD7\",\"cell\":[\"T1\"]},{\"id\":\"OLD8\"}]}"),
        some("OLD7")
    );
    assert_eq!(find_record_id("id\":\"x"), some("x"));
    assert_eq!(find_record_id("id\":\"số 1\nhai\"}"), some("số 1\nhai"));
    assert_eq!(find_record_id("xid\":\"a\"id\":\"b\""), some("a"));
}

#[test]
fn record_id_skips_empty_ids() {
    assert_eq!(find_record_id("{\"id\":\"\",\"pid\":\"R1\"}"), some("R1"));
    assert_eq!(find_record_id("{\"id\":\"\"}"), None);
}

#[test]
fn record_id_is_what_the_pattern_matches() {
    for text in [
        "",
        "id",
        "id\":\"",
        "id\":\"\"",
        "id\":\"a",
        "id\":\"a\"",
        "{\"id\":\"OLD7\",\"cell\":[\"T1\"]}",
        "{\"id\":\"\",\"id\":\"second\"}",
        "id\":\"id\":\"nested\"",
        "aid\":\"x\nid\":\"y\"",
        "{\"ID\":\"upper\"}",
        "{\"id\" : \"spaced\"}",
        "{\"rows\":[{\"id\":\"số phiếu\"}]}",
        "id\":\"\u{0}\u{1F600}\"",
        "iid\":\\\"q\"id\":\"r",
    ] {
        assert_eq!(find_record_id(text), by_pattern(text), "{:?}", text);
    }
}

#[test]
fn record_id_needs_the_marker() {
    assert_eq!(find_record_id(""), None);
    assert_eq!(find_record_id("id\":\""), None);
    assert_eq!(find_record_id("{\"id\":7}"), None);
    assert_eq!(find_record_id("{\"id\": \"x\"}"), None);
    assert_eq!(find_record_id("{\"rows\":[]}"), None);
}
