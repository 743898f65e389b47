use docindexer::document::{process_file, Candidate, SearchDocument};
use docindexer::filetype::get_file_type;
use docindexer::pipeline::{collect_batch, indexed_count, is_not_skipped, keep_entry, submission_for, Batch, Submission};
use lopdf::content::{Content, Operation};
use lopdf::{Dictionary, Document, Object, Stream};
use std::io::{Cursor, Write};
use zip::write::SimpleFileOptions;
use zip::ZipWriter;

fn names(parts: &[&str]) -> Vec<String> {
    parts.iter().map(|s| s.to_string()).collect()
}

fn doc(name: &str) -> SearchDocument {
    SearchDocument {
        id: name.to_string(),
        filename: name.to_string(),
        url: "file:///unknown".to_string(),
        content: Some(String::new()),
        created: None,
        modified: None,
        size: Some(0),
        filetype: Some("unknown".to_string()),
    }
}

fn archive_with(name: &str, body: &[u8]) -> Vec<u8> {
    let mut zip = ZipWriter::new(Cursor::new(Vec::new()));
    zip.start_file(name, SimpleFileOptions::default()).unwrap();
    zip.write_all(body).unwrap();
    zip.finish().unwrap().into_inner()
}

fn pdf_with_text(text: &str) -> Vec<u8> {
    let mut doc = Document::with_version("1.5");
    let pages_id = doc.new_object_id();
    let mut font = Dictionary::new();
    font.set("Type", "Font");
    font.set("Subtype", "Type1");
    font.set("BaseFont", "Courier");
    let font_id = doc.add_object(font);
    let mut fonts = Dictionary::new();
    fonts.set("F1", font_id);
    let mut resources = Dictionary::new();
    resources.set("Font", fonts);
    let resources_id = doc.add_object(resources);
    let content = Content {
        operations: vec![
            Operation::new("BT", vec![]),
            Operation::new("Tf", vec!["F1".into(), 48.into()]),
            Operation::new("Td", vec![100.into(), 600.into()]),
            Operation::new("Tj", vec![Object::string_literal(text)]),
            Operation::new("ET", vec![]),
        ],
    };
    let content_id = doc.add_object(Stream::new(Dictionary::new(), content.encode().unwrap()));
    let mut page = Dictionary::new();
    page.set("Type", "Page");
    page.set("Parent", pages_id);
    page.set("Contents", content_id);
    let page_id = doc.add_object(page);
    let mut pages = Dictionary::new();
    pages.set("Type", "Pages");
    pages.set("Kids", vec![Object::from(page_id)]);
    pages.set("Count", 1);
    pages.set("Resources", resources_id);
    doc.objects.insert(pages_id, Object::Dictionary(pages));
    let mut catalog = Dictionary::new();
    catalog.set("Type", "Catalog");
    catalog.set("Pages", pages_id);
    let catalog_id = doc.add_object(catalog);
    doc.trailer.set("Root", catalog_id);
    let mut out = Vec::new();
    doc.save_to(&mut out).unwrap();
    out
}

#[test]
fn skipped_names() {
    assert!(!is_not_skipped("target", true));
    assert!(!is_not_skipped(".git", true));
    assert!(is_not_skipped("target", false));
    assert!(is_not_skipped(".git", false));
    assert!(is_not_skipped("targets", true));
    assert!(is_not_skipped("Target", true));
    assert!(is_not_skipped(".github", true));
    assert!(is_not_skipped("", true));
}

#[test]
fn excluded_directories_hide_their_subtrees() {
    assert!(keep_entry(&names(&["root", "a.pdf"]), true));
    assert!(!keep_entry(&names(&["root", "target", "d.pdf"]), true));
    assert!(!keep_entry(&names(&["root", "x", ".git", "y", "HEAD"]), true));
    assert!(!keep_entry(&names(&["root", "docs"]), false));
    assert!(keep_entry(&names(&["root", "target_old", "a.pdf"]), true));
    // a regular file of an excluded name is still a candidate
    assert!(keep_entry(&names(&["root", "target"]), true));
    assert!(keep_entry(&names(&["root", "docs", ".git"]), true));
    assert!(!keep_entry(&names(&["target", "a.pdf"]), true));
}

#[test]
fn batch_counts_balance() {
    let batch = collect_batch(vec![Some(doc("a")), None, Some(doc("b")), None, None]);
    assert_eq!(batch.observed, 5);
    assert_eq!(batch.dropped, 3);
    assert_eq!(batch.len(), 2);
    assert_eq!(batch.docs[0].id, "a");
    assert_eq!(batch.docs[1].id, "b");
    assert_eq!(batch.observed, batch.dropped + batch.docs.len());
}

#[test]
fn empty_run() {
    let batch = collect_batch(Vec::new());
    assert_eq!(batch.observed, 0);
    assert!(batch.is_empty());
    assert_eq!(submission_for(false, &batch), Submission::Skip);
    assert_eq!(indexed_count(false, &batch), 0);
}

#[test]
fn record_one_at_a_time() {
    let mut batch = Batch::new();
    batch.record(None);
    batch.record(Some(doc("x")));
    assert_eq!(batch.observed, 2);
    assert_eq!(batch.dropped, 1);
    assert_eq!(batch.len(), 1);
}

#[test]
fn dry_run_keeps_batch_and_skips_submission() {
    let batch = collect_batch(vec![Some(doc("a")), None]);
    assert_eq!(submission_for(true, &batch), Submission::Skip);
    assert_eq!(indexed_count(true, &batch), 0);
    assert_eq!(submission_for(false, &batch), Submission::Submit);
    assert_eq!(indexed_count(false, &batch), 1);
    assert_eq!(batch.len(), 1);
}

#[test]
fn scenario_two_documents_indexed() {
    let pdf = pdf_with_text("Test PDF");
    let docx = archive_with("word/document.xml", b"<w:document><w:body><w:p><w:r><w:t>Hello</w:t></w:r></w:p></w:body></w:document>");
    let zip = archive_with("notes.txt", b"plain");
    let entries: Vec<(Vec<String>, bool, &str, Vec<u8>)> = vec![
        (names(&["root", "a.pdf"]), true, "root/a.pdf", pdf.clone()),
        (names(&["root", "b.docx"]), true, "root/b.docx", docx),
        (names(&["root", "c.zip"]), true, "root/c.zip", zip),
        (names(&["root", "target"]), false, "root/target", Vec::new()),
        (names(&["root", "target", "d.pdf"]), true, "root/target/d.pdf", pdf),
    ];
    let mut outcomes = Vec::new();
    for (components, is_file, path, bytes) in &entries {
        if !keep_entry(components, *is_file) {
            continue;
        }
        let c = Candidate { path: path.to_string(), size: bytes.len() as u64, created: None, modified: None };
        let head = &bytes[..bytes.len().min(512)];
        let kind = get_file_type(path, Some(head));
        let full = format!("/work/{}", path);
        outcomes.push(process_file(&c, kind, Some(bytes), &full));
    }
    let batch = collect_batch(outcomes);
    assert_eq!(batch.observed, 3);
    assert_eq!(batch.dropped, 1);
    assert_eq!(batch.len(), 2);
    let mut names_seen: Vec<&str> = batch.docs.iter().map(|d| d.filename.as_str()).collect();
    names_seen.sort();
    assert_eq!(names_seen, vec!["root/a.pdf", "root/b.docx"]);
    for d in &batch.docs {
        assert!(!d.content.as_deref().unwrap_or("").is_empty());
        assert!(d.id.chars().all(|c| c.is_ascii_hexdigit() && !c.is_ascii_uppercase()));
    }
    assert!(batch.docs.iter().any(|d| d.content.as_deref().unwrap().contains("Test PDF")));
    assert!(batch.docs.iter().any(|d| d.content.as_deref() == Some("Hello")));
    assert_eq!(submission_for(false, &batch), Submission::Submit);
    assert_eq!(indexed_count(false, &batch), 2);
}

#[test]
fn pdf_record_carries_metadata() {
    let bytes = pdf_with_text("Quarterly");
    let c = Candidate {
        path: "docs/Q1.PDF".to_string(),
        size: 1234,
        created: None,
        modified: Some(docindexer::document::Timestamp { secs: 10, nanos: 20 }),
    };
    let d = process_file(&c, get_file_type(&c.path, Some(&bytes[..512])), Some(&bytes), "/w/docs/Q1.PDF").unwrap();
    assert!(d.content.as_deref().unwrap().contains("Quarterly"));
    assert_eq!(d.size, Some(1234));
    assert_eq!(d.created, None);
    assert_eq!(d.modified, Some(docindexer::document::Timestamp { secs: 10, nanos: 20 }));
    assert_eq!(d.filetype.as_deref(), Some("pdf"));
    assert_eq!(d.url, "file:///w/docs/Q1.PDF");
    assert_eq!(d.id.len(), 32);
    let again = process_file(&c, get_file_type(&c.path, Some(&bytes[..512])), Some(&bytes), "/w/docs/Q1.PDF").unwrap();
    assert_eq!(again.id, d.id);
    assert_eq!(again.content, d.content);
}
