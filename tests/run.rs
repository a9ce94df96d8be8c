use pdf_to_images::cli;
use pdf_to_images::config::{Config, PdfImageFormat, Progress, Target, IO};
use pdf_to_images::error::PipelineError;
use pdf_to_images::orchestrate::{
    check_document, documents_in, input_mode, is_document_extension, Candidate, DocumentRun, Mode,
};

fn target() -> Target {
    Target::new(None, None, PdfImageFormat::Png, false, false, false).unwrap()
}

fn progress() -> Progress {
    Progress::new("t".to_string(), "n".to_string(), "c".to_string(), "d".to_string())
}

#[test]
fn mode_from_input_path() {
    assert_eq!(input_mode(true, false), Ok(Mode::Directory));
    assert_eq!(input_mode(false, true), Ok(Mode::SingleDocument));
    assert_eq!(input_mode(false, false), Err(PipelineError::InvalidInputPath));
}

#[test]
fn document_extension_is_pdf() {
    assert!(is_document_extension("pdf"));
    assert!(!is_document_extension("png"));
    assert!(!is_document_extension("pdfx"));
    assert!(!is_document_extension(""));
}

#[test]
fn document_checks() {
    assert_eq!(check_document(Some("pdf"), true), Ok(()));
    assert_eq!(check_document(Some("pdf"), false), Err(PipelineError::MissingDocumentStem));
    assert_eq!(check_document(Some("zip"), true), Err(PipelineError::NotASupportedDocument));
    assert_eq!(check_document(None, true), Err(PipelineError::NotASupportedDocument));
}

#[test]
fn directory_keeps_documents_in_order() {
    let c = |p: &str, e: Option<&str>| Candidate { path: p.to_string(), extension: e.map(|s| s.to_string()) };
    let kept = documents_in(vec![
        c("b.pdf", Some("pdf")),
        c("notes.txt", None),
        c("a.png", Some("png")),
        c("scan", Some("pdf")),
    ]);
    assert_eq!(kept, vec!["b.pdf".to_string(), "scan".to_string()]);
    assert!(documents_in(vec![]).is_empty());
}

#[test]
fn config_needs_positive_capacity() {
    let io = || IO::new("in".to_string(), "out".to_string());
    assert!(Config::new(io(), target(), progress(), 0).is_none());
    let c = Config::new(io(), target(), progress(), 25).unwrap();
    assert_eq!(c.number_of_pages_in_memory(), 25);
    assert_eq!(c.io().input(), "in");
    assert_eq!(c.io().output(), "out");
    assert_eq!(c.progress().template(), "t");
    assert_eq!(c.progress().nested_template(), "n");
    assert_eq!(c.progress().chars(), "c");
    assert_eq!(c.progress().nested_chars(), "d");
    assert_eq!(c.target().image_format(), PdfImageFormat::Png);
}

#[test]
fn cli_config_getters() {
    let c = cli::Config::new("a.pdf".to_string(), "out".to_string(), Some(10), None, Some("pw".to_string()));
    assert_eq!(c.input(), "a.pdf");
    assert_eq!(c.output(), "out");
    assert_eq!(c.password(), Some("pw"));
    assert_eq!(c.width(), Some(10));
    assert_eq!(c.height(), None);
}

#[test]
fn document_run_stops_at_first_failure() {
    let mut run = DocumentRun::new(4);
    assert_eq!(run.next(), Some(0));
    run.record(true);
    assert_eq!(run.next(), Some(1));
    run.record(false);
    assert_eq!(run.next(), None);
    assert_eq!(run.processed, 2);
}

#[test]
fn document_run_visits_all_without_failure() {
    let mut run = DocumentRun::new(2);
    let mut seen = Vec::new();
    while let Some(i) = run.next() {
        seen.push(i);
        run.record(true);
    }
    assert_eq!(seen, vec![0, 1]);
    assert_eq!(DocumentRun::new(0).next(), None);
}
