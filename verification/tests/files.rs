use note_shell::commands::file_commands::{
    open_file, open_file_dialog, open_specific_file, save_file_as, save_file_as_result,
    DialogFilter, FilePayload, FileProbe, OpenedFiles, PickedFile, SaveAsOutcome,
};
use note_shell::events::FrontendEvent;

const TEXT_EXTENSIONS: [&str; 40] = [
    "txt", "md", "json", "js", "ts", "vue", "rs", "py", "java", "cpp", "c", "h", "hpp", "cs",
    "php", "rb", "go", "swift", "kt", "scala", "r", "m", "pl", "sh", "bat", "ps1", "sql", "xml",
    "html", "css", "scss", "sass", "less", "yaml", "yml", "toml", "ini", "cfg", "conf", "log",
];

fn filter(name: &str, extensions: &[&str]) -> DialogFilter {
    DialogFilter {
        name: name.to_string(),
        extensions: extensions.iter().map(|e| e.to_string()).collect(),
    }
}

fn picked(path: &str, read: Result<&str, &str>) -> PickedFile {
    PickedFile {
        path: path.to_string(),
        read: read.map(|s| s.to_string()).map_err(|s| s.to_string()),
    }
}

fn payload(path: &str, content: &str) -> FilePayload {
    FilePayload { path: path.to_string(), content: content.to_string() }
}

#[test]
fn open_dialog_offers_text_files_then_all_files() {
    let filters = open_file_dialog();
    assert_eq!(filters, vec![filter("Text Files", &TEXT_EXTENSIONS), filter("All Files", &["*"])]);
}

#[test]
fn open_file_after_a_cancel_is_absent() {
    assert_eq!(open_file(None), OpenedFiles { files: None, errors: vec![] });
}

#[test]
fn open_file_with_nothing_picked_is_absent() {
    assert_eq!(open_file(Some(vec![])), OpenedFiles { files: None, errors: vec![] });
}

#[test]
fn open_file_returns_the_files_in_order() {
    let result = open_file(Some(vec![
        picked("/a/one.txt", Ok("first")),
        picked("/b/two.md", Ok("")),
        picked("/c/three.rs", Ok("fn main() {}")),
    ]));
    assert_eq!(
        result.files,
        Some(vec![
            payload("/a/one.txt", "first"),
            payload("/b/two.md", ""),
            payload("/c/three.rs", "fn main() {}"),
        ])
    );
    assert_eq!(result.errors, vec![]);
}

#[test]
fn open_file_reports_a_failed_read_and_keeps_the_others() {
    let result = open_file(Some(vec![
        picked("/a/one.txt", Ok("first")),
        picked("/b/locked.bin", Err("permission denied")),
        picked("/c/three.rs", Ok("third")),
        picked("/d/gone.txt", Err("not found")),
    ]));
    assert_eq!(
        result.files,
        Some(vec![payload("/a/one.txt", "first"), payload("/c/three.rs", "third")])
    );
    assert_eq!(
        result.errors,
        vec![
            FrontendEvent::Error("Failed to read file: /b/locked.bin".to_string()),
            FrontendEvent::Error("Failed to read file: /d/gone.txt".to_string()),
        ]
    );
}

#[test]
fn open_file_with_every_read_failed_is_absent() {
    let result = open_file(Some(vec![
        picked("/a", Err("x")),
        picked("/b", Err("y")),
    ]));
    assert_eq!(result.files, None);
    assert_eq!(
        result.errors,
        vec![
            FrontendEvent::Error("Failed to read file: /a".to_string()),
            FrontendEvent::Error("Failed to read file: /b".to_string()),
        ]
    );
}

#[test]
fn open_specific_file_on_a_missing_path_is_not_found() {
    assert_eq!(
        open_specific_file("/no/such/file.txt".to_string(), FileProbe::Missing),
        Err("File not found: /no/such/file.txt".to_string())
    );
}

#[test]
fn open_specific_file_reports_a_failed_read() {
    assert_eq!(
        open_specific_file(
            "/a/dir".to_string(),
            FileProbe::Unreadable("Is a directory (os error 21)".to_string())
        ),
        Err("Failed to read file: Is a directory (os error 21)".to_string())
    );
}

#[test]
fn open_specific_file_returns_the_text_that_was_read() {
    assert_eq!(
        open_specific_file(
            "/a/b/note.txt".to_string(),
            FileProbe::Content("line one\nline two\n".to_string())
        ),
        Ok(Some(payload("/a/b/note.txt", "line one\nline two\n")))
    );
    assert_eq!(
        open_specific_file("/e".to_string(), FileProbe::Content(String::new())),
        Ok(Some(payload("/e", "")))
    );
}

#[test]
fn save_file_as_offers_markdown_first_and_proposes_the_name() {
    let dialog = save_file_as("md", "notes");
    assert_eq!(dialog.file_name, "notes");
    assert_eq!(
        dialog.filters,
        vec![
            filter("Markdown Files", &["md", "markdown"]),
            filter("Text Files", &TEXT_EXTENSIONS),
            filter("All Files", &["*"]),
        ]
    );
}

#[test]
fn save_file_as_knows_seven_formats() {
    assert_eq!(save_file_as("txt", "n").filters[0], filter("Text Files", &["txt"]));
    assert_eq!(save_file_as("md", "n").filters[0], filter("Markdown Files", &["md", "markdown"]));
    assert_eq!(save_file_as("js", "n").filters[0], filter("JavaScript Files", &["js"]));
    assert_eq!(save_file_as("ts", "n").filters[0], filter("TypeScript Files", &["ts"]));
    assert_eq!(save_file_as("json", "n").filters[0], filter("JSON Files", &["json"]));
    assert_eq!(save_file_as("html", "n").filters[0], filter("HTML Files", &["html", "htm"]));
    assert_eq!(save_file_as("css", "n").filters[0], filter("CSS Files", &["css"]));
}

#[test]
fn save_file_as_takes_an_unknown_format_as_text() {
    let expected = filter("Text Files", &["txt"]);
    assert_eq!(save_file_as("docx", "n").filters[0], expected);
    assert_eq!(save_file_as("", "n").filters[0], expected);
    assert_eq!(save_file_as("MD", "n").filters[0], expected);
    assert_eq!(save_file_as("markdown", "").filters.len(), 3);
    assert_eq!(save_file_as("markdown", "").file_name, "");
}

#[test]
fn save_file_as_cancelled_is_absent() {
    assert_eq!(save_file_as_result(SaveAsOutcome::Cancelled), Ok(None));
}

#[test]
fn save_file_as_written_returns_the_path() {
    assert_eq!(
        save_file_as_result(SaveAsOutcome::Written { path: "/a/notes.md".to_string() }),
        Ok(Some("/a/notes.md".to_string()))
    );
}

#[test]
fn save_file_as_failed_returns_the_reason() {
    assert_eq!(
        save_file_as_result(SaveAsOutcome::WriteFailed { reason: "disk full".to_string() }),
        Err("disk full".to_string())
    );
}
