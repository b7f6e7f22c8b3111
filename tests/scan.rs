use file_probe::content_map::ContentMap;
use file_probe::reader::{finish_read, plan_for_extension, read_plan, ReadPlan};
use file_probe::reply::{file_reply, FileReply};
use file_probe::scan::{
    depth_of_limit, entry_key, path_action, single_file, Depth, DirectoryScan, EntryAction, EntryKind,
    PathAction,
};
use file_probe::text::{ends_with, same_text, trim_quotes};

fn s(t: &str) -> String {
    t.to_string()
}

#[test]
fn only_other_files_scan_empty() {
    let mut scan = DirectoryScan::new(Depth::TopLevel);
    for name in ["a.txt", "b.docx", "README", "image.png"] {
        let plan = read_plan(name);
        let text = finish_read(plan, Some(s("some content")));
        scan.add_file(s(name), text);
    }
    let result = scan.finish();
    assert_eq!(result.len(), 0);
}

#[test]
fn report_and_notes_give_two_entries() {
    let mut scan = DirectoryScan::new(Depth::TopLevel);
    assert_eq!(read_plan("report.pdf"), ReadPlan::Pdf);
    assert_eq!(read_plan("notes.csv"), ReadPlan::Text);
    scan.add_file(s("report.pdf"), finish_read(ReadPlan::Pdf, Some(s("Quarterly report"))));
    scan.add_file(s("notes.csv"), finish_read(ReadPlan::Text, Some(s("a,b\n1,2\n"))));
    let result = scan.finish();
    assert_eq!(result.len(), 2);
    assert_eq!(result.get("report.pdf"), Some(&s("Quarterly report")));
    assert_eq!(result.get("notes.csv"), Some(&s("a,b\n1,2\n")));
}

#[test]
fn one_level_down_is_reported() {
    let mut top = DirectoryScan::new(Depth::TopLevel);
    assert_eq!(top.entry_action(EntryKind::Directory), EntryAction::ScanNested);
    top.add_file(s("top.csv"), s("x"));

    let mut nested = DirectoryScan::new(Depth::Nested);
    nested.add_file(s("data.csv"), s("1,2"));
    nested.add_file(s("skip.txt"), s(""));
    let sub = nested.finish();
    top.add_subdirectory(&sub);

    let result = top.finish();
    assert_eq!(result.len(), 2);
    assert_eq!(result.get("data.csv"), Some(&s("1,2")));
    assert_eq!(result.get("top.csv"), Some(&s("x")));
}

#[test]
fn two_levels_down_is_not_scanned() {
    let nested = DirectoryScan::new(Depth::Nested);
    assert_eq!(nested.entry_action(EntryKind::Directory), EntryAction::Skip);
    assert_eq!(nested.entry_action(EntryKind::File), EntryAction::ReadFile);
    assert_eq!(path_action(EntryKind::Directory, Depth::Nested), PathAction::Nothing);
}

#[test]
fn subdirectory_entries_win_over_files() {
    let mut scan = DirectoryScan::new(Depth::TopLevel);
    scan.add_file(s("a.csv"), s("top"));
    let mut sub = ContentMap::new();
    sub.insert(s("a.csv"), s("nested"));
    sub.insert(s("b.pdf"), s("other"));
    scan.add_subdirectory(&sub);
    let result = scan.finish();
    assert_eq!(result.len(), 2);
    assert_eq!(result.get("a.csv"), Some(&s("nested")));
    assert_eq!(result.get("b.pdf"), Some(&s("other")));
}

#[test]
fn upper_case_pdf_read_as_pdf_then_dropped() {
    assert_eq!(read_plan("REPORT.PDF"), ReadPlan::Pdf);
    assert_eq!(read_plan("/data/Report.Pdf"), ReadPlan::Pdf);
    let mut scan = DirectoryScan::new(Depth::TopLevel);
    scan.add_file(s("REPORT.PDF"), finish_read(ReadPlan::Pdf, Some(s("text of the report"))));
    let result = scan.finish();
    assert_eq!(result.len(), 0);
}

#[test]
fn failed_pdf_read_is_empty_and_dropped() {
    let text = finish_read(ReadPlan::Pdf, None);
    assert_eq!(text, "");
    let mut scan = DirectoryScan::new(Depth::TopLevel);
    scan.add_file(s("broken.pdf"), text);
    scan.add_file(s("fine.csv"), s("1,2"));
    let result = scan.finish();
    assert_eq!(result.len(), 1);
    assert_eq!(result.get("broken.pdf"), None);
}

#[test]
fn read_plan_by_extension() {
    assert_eq!(read_plan("a.txt"), ReadPlan::Skip);
    assert_eq!(read_plan("data.CSV"), ReadPlan::Text);
    assert_eq!(read_plan("README"), ReadPlan::Text);
    assert_eq!(read_plan("/tmp/x.csv"), ReadPlan::Text);
    assert_eq!(read_plan("/home/u/.bashrc"), ReadPlan::Text);
    assert_eq!(read_plan("archive.tar.gz"), ReadPlan::Skip);
    assert_eq!(read_plan("dir.pdf/inner.txt"), ReadPlan::Skip);
    assert_eq!(plan_for_extension(None), ReadPlan::Text);
    assert_eq!(plan_for_extension(Some("pdf")), ReadPlan::Pdf);
    assert_eq!(plan_for_extension(Some("csv")), ReadPlan::Text);
    assert_eq!(plan_for_extension(Some("PDF")), ReadPlan::Skip);
    assert_eq!(plan_for_extension(Some("")), ReadPlan::Skip);
}

#[test]
fn finish_read_is_fail_soft() {
    assert_eq!(finish_read(ReadPlan::Text, Some(s("raw"))), "raw");
    assert_eq!(finish_read(ReadPlan::Text, None), "");
    assert_eq!(finish_read(ReadPlan::Skip, Some(s("ignored"))), "");
    assert_eq!(finish_read(ReadPlan::Pdf, Some(s("pdf text"))), "pdf text");
}

#[test]
fn classification_of_paths() {
    assert_eq!(depth_of_limit(0), Depth::TopLevel);
    assert_eq!(depth_of_limit(1), Depth::Nested);
    assert_eq!(depth_of_limit(-3), Depth::Nested);
    assert_eq!(path_action(EntryKind::Directory, Depth::TopLevel), PathAction::ScanDirectory);
    assert_eq!(path_action(EntryKind::File, Depth::TopLevel), PathAction::ReadFile);
    assert_eq!(path_action(EntryKind::File, Depth::Nested), PathAction::ReadFile);
    assert_eq!(path_action(EntryKind::Other, Depth::TopLevel), PathAction::Nothing);
    let top = DirectoryScan::new(Depth::TopLevel);
    assert_eq!(top.entry_action(EntryKind::File), EntryAction::ReadFile);
    assert_eq!(top.entry_action(EntryKind::Other), EntryAction::Skip);
}

#[test]
fn single_file_is_keyed_by_full_path() {
    let m = single_file("/tmp/x.csv", s("a,b\n"));
    assert_eq!(m.len(), 1);
    assert_eq!(m.get("/tmp/x.csv"), Some(&s("a,b\n")));
    assert_eq!(m.get("x.csv"), None);
    let empty = single_file("/tmp/y.txt", s(""));
    assert_eq!(empty.get("/tmp/y.txt"), Some(&s("")));
}

#[test]
fn entry_key_falls_back_to_full_path() {
    assert_eq!(entry_key(Some(s("a.csv")), s("/d/a.csv")), "a.csv");
    assert_eq!(entry_key(None, s("/d/a.csv")), "/d/a.csv");
}

#[test]
fn content_map_insert_replaces() {
    let mut m = ContentMap::new();
    assert_eq!(m.len(), 0);
    m.insert(s("k.csv"), s("one"));
    m.insert(s("j.pdf"), s("two"));
    m.insert(s("k.csv"), s("three"));
    assert_eq!(m.len(), 2);
    assert_eq!(m.get("k.csv"), Some(&s("three")));
    assert_eq!(m.get("missing"), None);
    assert_eq!(m.pairs().len(), 2);
}

#[test]
fn only_relevant_filters_suffix_and_empty() {
    let mut m = ContentMap::new();
    m.insert(s("a.pdf"), s("x"));
    m.insert(s("b.csv"), s(""));
    m.insert(s("c.csv.bak"), s("y"));
    m.insert(s("d.Csv"), s("z"));
    m.insert(s("e.csv"), s("w"));
    let r = m.only_relevant();
    assert_eq!(r.len(), 2);
    assert_eq!(r.get("a.pdf"), Some(&s("x")));
    assert_eq!(r.get("e.csv"), Some(&s("w")));
}

#[test]
fn missing_path_reply_has_no_code() {
    let r = file_reply(None);
    assert_eq!(r.code(), None);
    assert_eq!(r.status(), "error");
    assert_eq!(r.error_text(), None);
}

#[test]
fn failed_reply_has_code_404_and_message() {
    let msg = s("No such file or directory (os error 2)");
    let r = file_reply(Some(Err(msg.clone())));
    assert_eq!(r.code(), Some(404));
    assert_eq!(r.status(), "error");
    assert_eq!(r.error_text(), Some(msg));
}

#[test]
fn found_reply_has_code_zero() {
    let r = file_reply(Some(Ok(single_file("/tmp/x.csv", s("1,2")))));
    assert_eq!(r.code(), Some(0));
    assert_eq!(r.status(), "success");
    match r {
        FileReply::Found(m) => assert_eq!(m.get("/tmp/x.csv"), Some(&s("1,2"))),
        _ => panic!("expected data"),
    }
}

#[test]
fn trim_quotes_strips_both_ends() {
    assert_eq!(trim_quotes("\"/tmp/a b\""), "/tmp/a b");
    assert_eq!(trim_quotes("\"\"x\"\"\""), "x");
    assert_eq!(trim_quotes("\"\""), "");
    assert_eq!(trim_quotes("a\"b"), "a\"b");
    assert_eq!(trim_quotes("plain"), "plain");
    assert_eq!(trim_quotes(""), "");
}

#[test]
fn suffix_and_equality() {
    assert!(ends_with("report.pdf", ".pdf"));
    assert!(!ends_with("report.PDF", ".pdf"));
    assert!(!ends_with("pdf", ".pdf"));
    assert!(ends_with("x", ""));
    assert!(same_text("abc", "abc"));
    assert!(!same_text("abc", "abd"));
    assert!(!same_text("abc", "bc"));
}
