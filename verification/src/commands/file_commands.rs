//! Opening and saving text files: which dialog to show, and what to make of
//! what the dialog and the file system gave back.

use vstd::prelude::*;
use crate::events::{texts, FrontendEvent, FrontendEventView};
use crate::text::{joined, same_text};

verus! {

/// A file's path together with its text.
#[derive(Debug, PartialEq, Eq)]
pub struct FilePayload {
    pub path: String,
    pub content: String,
}

/// Mathematical form of a [`FilePayload`].
pub struct FilePayloadView {
    pub path: Seq<char>,
    pub content: Seq<char>,
}

impl View for FilePayload {
    type V = FilePayloadView;

    open spec fn view(&self) -> FilePayloadView {
        FilePayloadView { path: self.path@, content: self.content@ }
    }
}

/// Mathematical form of a list of payloads.
pub open spec fn payload_views(files: Seq<FilePayload>) -> Seq<FilePayloadView> {
    files.map_values(|file: FilePayload| file@)
}

/// A named group of file extensions that a file dialog offers.
#[derive(Debug, PartialEq, Eq)]
pub struct DialogFilter {
    pub name: String,
    pub extensions: Vec<String>,
}

/// Mathematical form of a [`DialogFilter`].
pub struct DialogFilterView {
    pub name: Seq<char>,
    pub extensions: Seq<Seq<char>>,
}

impl View for DialogFilter {
    type V = DialogFilterView;

    open spec fn view(&self) -> DialogFilterView {
        DialogFilterView { name: self.name@, extensions: texts(self.extensions@) }
    }
}

/// Mathematical form of a list of filters.
pub open spec fn filter_views(filters: Seq<DialogFilter>) -> Seq<DialogFilterView> {
    filters.map_values(|filter: DialogFilter| filter@)
}

/// The extensions that count as text files.
pub open spec fn text_extensions() -> Seq<Seq<char>> {
    seq![
        "txt"@, "md"@, "json"@, "js"@, "ts"@, "vue"@, "rs"@, "py"@, "java"@, "cpp"@,
        "c"@, "h"@, "hpp"@, "cs"@, "php"@, "rb"@, "go"@, "swift"@, "kt"@, "scala"@,
        "r"@, "m"@, "pl"@, "sh"@, "bat"@, "ps1"@, "sql"@, "xml"@, "html"@, "css"@,
        "scss"@, "sass"@, "less"@, "yaml"@, "yml"@, "toml"@, "ini"@, "cfg"@, "conf"@, "log"@,
    ]
}

/// The broad filter for text files.
pub open spec fn text_files_filter() -> DialogFilterView {
    DialogFilterView { name: "Text Files"@, extensions: text_extensions() }
}

/// The filter that lets every file through.
pub open spec fn all_files_filter() -> DialogFilterView {
    DialogFilterView { name: "All Files"@, extensions: seq!["*"@] }
}

/// The filter that belongs to a save format. A format that is not known
/// counts as plain text.
pub open spec fn format_filter(format: Seq<char>) -> DialogFilterView {
    if format == "md"@ {
        DialogFilterView { name: "Markdown Files"@, extensions: seq!["md"@, "markdown"@] }
    } else if format == "js"@ {
        DialogFilterView { name: "JavaScript Files"@, extensions: seq!["js"@] }
    } else if format == "ts"@ {
        DialogFilterView { name: "TypeScript Files"@, extensions: seq!["ts"@] }
    } else if format == "json"@ {
        DialogFilterView { name: "JSON Files"@, extensions: seq!["json"@] }
    } else if format == "html"@ {
        DialogFilterView { name: "HTML Files"@, extensions: seq!["html"@, "htm"@] }
    } else if format == "css"@ {
        DialogFilterView { name: "CSS Files"@, extensions: seq!["css"@] }
    } else {
        DialogFilterView { name: "Text Files"@, extensions: seq!["txt"@] }
    }
}

/// The filters of the dialog that opens files.
pub open spec fn open_filters() -> Seq<DialogFilterView> {
    seq![text_files_filter(), all_files_filter()]
}

/// The filters of the dialog that saves a file of a given format: the
/// format's own filter first.
pub open spec fn save_filters(format: Seq<char>) -> Seq<DialogFilterView> {
    seq![format_filter(format), text_files_filter(), all_files_filter()]
}

fn push_text(list: &mut Vec<String>, text: &str)
    ensures
        texts(final(list)@) == texts(old(list)@).push(text@),
{
    list.push(String::from_str(text));
    assert(texts(list@) =~= texts(old(list)@).push(text@));
}

fn filter_of_one(name: &str, extension: &str) -> (r: DialogFilter)
    ensures
        r@ == (DialogFilterView { name: name@, extensions: seq![extension@] }),
{
    let mut extensions: Vec<String> = Vec::new();
    push_text(&mut extensions, extension);
    assert(texts(extensions@) =~= seq![extension@]);
    DialogFilter { name: String::from_str(name), extensions }
}

fn filter_of_two(name: &str, first: &str, second: &str) -> (r: DialogFilter)
    ensures
        r@ == (DialogFilterView { name: name@, extensions: seq![first@, second@] }),
{
    let mut extensions: Vec<String> = Vec::new();
    push_text(&mut extensions, first);
    push_text(&mut extensions, second);
    assert(texts(extensions@) =~= seq![first@, second@]);
    DialogFilter { name: String::from_str(name), extensions }
}

fn new_text_files_filter() -> (r: DialogFilter)
    ensures
        r@ == text_files_filter(),
{
    let mut e: Vec<String> = Vec::new();
    push_text(&mut e, "txt");
    push_text(&mut e, "md");
    push_text(&mut e, "json");
    push_text(&mut e, "js");
    push_text(&mut e, "ts");
    push_text(&mut e, "vue");
    push_text(&mut e, "rs");
    push_text(&mut e, "py");
    push_text(&mut e, "java");
    push_text(&mut e, "cpp");
    push_text(&mut e, "c");
    push_text(&mut e, "h");
    push_text(&mut e, "hpp");
    push_text(&mut e, "cs");
    push_text(&mut e, "php");
    push_text(&mut e, "rb");
    push_text(&mut e, "go");
    push_text(&mut e, "swift");
    push_text(&mut e, "kt");
    push_text(&mut e, "scala");
    push_text(&mut e, "r");
    push_text(&mut e, "m");
    push_text(&mut e, "pl");
    push_text(&mut e, "sh");
    push_text(&mut e, "bat");
    push_text(&mut e, "ps1");
    push_text(&mut e, "sql");
    push_text(&mut e, "xml");
    push_text(&mut e, "html");
    push_text(&mut e, "css");
    push_text(&mut e, "scss");
    push_text(&mut e, "sass");
    push_text(&mut e, "less");
    push_text(&mut e, "yaml");
    push_text(&mut e, "yml");
    push_text(&mut e, "toml");
    push_text(&mut e, "ini");
    push_text(&mut e, "cfg");
    push_text(&mut e, "conf");
    push_text(&mut e, "log");
    assert(texts(e@) =~= text_extensions());
    DialogFilter { name: String::from_str("Text Files"), extensions: e }
}

fn new_all_files_filter() -> (r: DialogFilter)
    ensures
        r@ == all_files_filter(),
{
    filter_of_one("All Files", "*")
}

fn new_format_filter(format: &str) -> (r: DialogFilter)
    ensures
        r@ == format_filter(format@),
{
    if same_text(format, "md") {
        filter_of_two("Markdown Files", "md", "markdown")
    } else if same_text(format, "js") {
        filter_of_one("JavaScript Files", "js")
    } else if same_text(format, "ts") {
        filter_of_one("TypeScript Files", "ts")
    } else if same_text(format, "json") {
        filter_of_one("JSON Files", "json")
    } else if same_text(format, "html") {
        filter_of_two("HTML Files", "html", "htm")
    } else if same_text(format, "css") {
        filter_of_one("CSS Files", "css")
    } else {
        filter_of_one("Text Files", "txt")
    }
}

/// The filters to show in the dialog that opens files: text files, then all
/// files.
pub fn open_file_dialog() -> (filters: Vec<DialogFilter>)
    ensures
        filter_views(filters@) == open_filters(),
{
    let mut filters: Vec<DialogFilter> = Vec::new();
    filters.push(new_text_files_filter());
    filters.push(new_all_files_filter());
    assert(filter_views(filters@) =~= open_filters());
    filters
}

/// A file that the user picked, with what reading it gave: its text, or the
/// reason why it could not be read.
#[derive(Debug, PartialEq, Eq)]
pub struct PickedFile {
    pub path: String,
    pub read: Result<String, String>,
}

/// Mathematical form of a [`PickedFile`].
pub struct PickedFileView {
    pub path: Seq<char>,
    pub read: Result<Seq<char>, Seq<char>>,
}

impl View for PickedFile {
    type V = PickedFileView;

    open spec fn view(&self) -> PickedFileView {
        PickedFileView {
            path: self.path@,
            read: match self.read {
                Ok(content) => Ok(content@),
                Err(reason) => Err(reason@),
            },
        }
    }
}

/// Mathematical form of a list of picked files.
pub open spec fn picked_views(picked: Seq<PickedFile>) -> Seq<PickedFileView> {
    picked.map_values(|file: PickedFile| file@)
}

/// The payloads of the picked files that could be read, in the order in
/// which they were picked.
pub open spec fn read_payloads(picked: Seq<PickedFileView>) -> Seq<FilePayloadView>
    decreases picked.len(),
{
    if picked.len() == 0 {
        Seq::empty()
    } else {
        let rest = read_payloads(picked.drop_last());
        match picked.last().read {
            Ok(content) => rest.push(FilePayloadView { path: picked.last().path, content }),
            Err(_) => rest,
        }
    }
}

/// The message that reports a file that could not be read.
pub open spec fn read_failure(path: Seq<char>) -> FrontendEventView {
    FrontendEventView::Error("Failed to read file: "@ + path)
}

/// One error event for each picked file that could not be read, in the
/// order in which they were picked.
pub open spec fn read_failures(picked: Seq<PickedFileView>) -> Seq<FrontendEventView>
    decreases picked.len(),
{
    if picked.len() == 0 {
        Seq::empty()
    } else {
        let rest = read_failures(picked.drop_last());
        match picked.last().read {
            Ok(_) => rest,
            Err(_) => rest.push(read_failure(picked.last().path)),
        }
    }
}

/// Every picked file is accounted for once: it is among the payloads or
/// among the failures, so that one failed read takes no other file away.
pub proof fn lemma_every_pick_is_accounted_for(picked: Seq<PickedFileView>)
    ensures
        read_payloads(picked).len() + read_failures(picked).len() == picked.len(),
    decreases picked.len(),
{
    if picked.len() > 0 {
        lemma_every_pick_is_accounted_for(picked.drop_last());
    }
}

/// What opening files comes to.
#[derive(Debug, PartialEq, Eq)]
pub struct OpenedFiles {
    /// The files that were read; `None` where there is none.
    pub files: Option<Vec<FilePayload>>,
    /// The error events to deliver to the front-end.
    pub errors: Vec<FrontendEvent>,
}

/// Mathematical form of a list of events.
pub open spec fn event_views(events: Seq<FrontendEvent>) -> Seq<FrontendEventView> {
    events.map_values(|event: FrontendEvent| event@)
}

/// Makes the result of the open command from what the dialog and the reads
/// gave. `picked` is `None` where the user cancelled the dialog. A file that
/// could not be read is reported by an error event and does not keep the
/// others from being returned; with no file read, the result is absent.
pub fn open_file(picked: Option<Vec<PickedFile>>) -> (r: OpenedFiles)
    ensures
        match picked {
            None => r.files is None && r.errors@.len() == 0,
            Some(list) => {
                &&& event_views(r.errors@) == read_failures(picked_views(list@))
                &&& match r.files {
                    Some(files) => files@.len() > 0 && payload_views(files@) == read_payloads(
                        picked_views(list@),
                    ),
                    None => read_payloads(picked_views(list@)).len() == 0,
                }
            },
        },
{
    match picked {
        None => OpenedFiles { files: None, errors: Vec::new() },
        Some(list) => {
            let ghost all = picked_views(list@);
            let mut files: Vec<FilePayload> = Vec::new();
            let mut errors: Vec<FrontendEvent> = Vec::new();
            assert(all.take(0) =~= Seq::<PickedFileView>::empty());
            for file in it: list
                invariant
                    picked_views(it.seq()) == all,
                    payload_views(files@) == read_payloads(all.take(it.index() as int)),
                    event_views(errors@) == read_failures(all.take(it.index() as int)),
            {
                let ghost seen = all.take(it.index() as int);
                let ghost next = all.take(it.index() + 1);
                assert(next.drop_last() =~= seen);
                assert(next.last() == file@);
                let PickedFile { path, read } = file;
                match read {
                    Ok(content) => {
                        files.push(FilePayload { path, content });
                        assert(payload_views(files@) =~= read_payloads(next));
                    },
                    Err(_) => {
                        errors.push(
                            FrontendEvent::Error(joined("Failed to read file: ", path.as_str())),
                        );
                        assert(event_views(errors@) =~= read_failures(next));
                    },
                }
            }
            assert(all.take(all.len() as int) =~= all);
            if files.len() == 0 {
                OpenedFiles { files: None, errors }
            } else {
                OpenedFiles { files: Some(files), errors }
            }
        },
    }
}

/// What the file system said of one path.
#[derive(Debug, PartialEq, Eq)]
pub enum FileProbe {
    /// Nothing exists at the path.
    Missing,
    /// Something exists there, but reading it failed for the given reason.
    Unreadable(String),
    /// The text that was read.
    Content(String),
}

/// Mathematical form of a [`FileProbe`].
pub enum FileProbeView {
    Missing,
    Unreadable(Seq<char>),
    Content(Seq<char>),
}

impl View for FileProbe {
    type V = FileProbeView;

    open spec fn view(&self) -> FileProbeView {
        match *self {
            FileProbe::Missing => FileProbeView::Missing,
            FileProbe::Unreadable(reason) => FileProbeView::Unreadable(reason@),
            FileProbe::Content(content) => FileProbeView::Content(content@),
        }
    }
}

/// The result of opening one given path: the payload with the text that was
/// read, or the message that says what went wrong.
pub open spec fn specific_file_result(path: Seq<char>, probe: FileProbeView) -> Result<
    Option<FilePayloadView>,
    Seq<char>,
> {
    match probe {
        FileProbeView::Missing => Err("File not found: "@ + path),
        FileProbeView::Unreadable(reason) => Err("Failed to read file: "@ + reason),
        FileProbeView::Content(content) => Ok(Some(FilePayloadView { path, content })),
    }
}

/// Mathematical form of the result of opening one path.
pub open spec fn specific_file_view(r: Result<Option<FilePayload>, String>) -> Result<
    Option<FilePayloadView>,
    Seq<char>,
> {
    match r {
        Ok(Some(file)) => Ok(Some(file@)),
        Ok(None) => Ok(None),
        Err(message) => Err(message@),
    }
}

/// Makes the result of opening the file at `path` from what the file system
/// said of it: a path where nothing exists is reported as not found, a read
/// that failed with its reason, and a read that succeeded gives the path
/// with exactly the text that was read.
pub fn open_specific_file(path: String, probe: FileProbe) -> (r: Result<
    Option<FilePayload>,
    String,
>)
    ensures
        specific_file_view(r) == specific_file_result(path@, probe@),
{
    match probe {
        FileProbe::Missing => Err(joined("File not found: ", path.as_str())),
        FileProbe::Unreadable(reason) => Err(joined("Failed to read file: ", reason.as_str())),
        FileProbe::Content(content) => Ok(Some(FilePayload { path, content })),
    }
}

/// What to show in the dialog that saves a file.
#[derive(Debug, PartialEq, Eq)]
pub struct SaveDialog {
    /// The file name that the dialog proposes.
    pub file_name: String,
    /// The filters that the dialog offers, the first one selected.
    pub filters: Vec<DialogFilter>,
}

/// Mathematical form of a [`SaveDialog`].
pub struct SaveDialogView {
    pub file_name: Seq<char>,
    pub filters: Seq<DialogFilterView>,
}

impl View for SaveDialog {
    type V = SaveDialogView;

    open spec fn view(&self) -> SaveDialogView {
        SaveDialogView { file_name: self.file_name@, filters: filter_views(self.filters@) }
    }
}

/// Sets up the dialog that saves a file under a new name: it proposes
/// `default_name` and offers the filter of `default_format` first, then text
/// files, then all files.
pub fn save_file_as(default_format: &str, default_name: &str) -> (dialog: SaveDialog)
    ensures
        dialog@ == (SaveDialogView {
            file_name: default_name@,
            filters: save_filters(default_format@),
        }),
{
    let mut filters: Vec<DialogFilter> = Vec::new();
    filters.push(new_format_filter(default_format));
    filters.push(new_text_files_filter());
    filters.push(new_all_files_filter());
    assert(filter_views(filters@) =~= save_filters(default_format@));
    SaveDialog { file_name: String::from_str(default_name), filters }
}

/// How saving under a new name went.
#[derive(Debug, PartialEq, Eq)]
pub enum SaveAsOutcome {
    /// The user closed the dialog without a choice; nothing was written.
    Cancelled,
    /// The text was written to the chosen path.
    Written { path: String },
    /// Writing to the chosen path failed for the given reason.
    WriteFailed { reason: String },
}

/// Mathematical form of a [`SaveAsOutcome`].
pub enum SaveAsOutcomeView {
    Cancelled,
    Written { path: Seq<char> },
    WriteFailed { reason: Seq<char> },
}

impl View for SaveAsOutcome {
    type V = SaveAsOutcomeView;

    open spec fn view(&self) -> SaveAsOutcomeView {
        match *self {
            SaveAsOutcome::Cancelled => SaveAsOutcomeView::Cancelled,
            SaveAsOutcome::Written { path } => SaveAsOutcomeView::Written { path: path@ },
            SaveAsOutcome::WriteFailed { reason } => SaveAsOutcomeView::WriteFailed {
                reason: reason@,
            },
        }
    }
}

/// The result of saving under a new name: absent after a cancel, the chosen
/// path after a write, the reason after a failed write.
pub open spec fn save_as_result(outcome: SaveAsOutcomeView) -> Result<Option<Seq<char>>, Seq<char>> {
    match outcome {
        SaveAsOutcomeView::Cancelled => Ok(None),
        SaveAsOutcomeView::Written { path } => Ok(Some(path)),
        SaveAsOutcomeView::WriteFailed { reason } => Err(reason),
    }
}

/// Mathematical form of the result of saving under a new name.
pub open spec fn save_as_view(r: Result<Option<String>, String>) -> Result<
    Option<Seq<char>>,
    Seq<char>,
> {
    match r {
        Ok(Some(path)) => Ok(Some(path@)),
        Ok(None) => Ok(None),
        Err(reason) => Err(reason@),
    }
}

/// Makes the result of saving under a new name from how it went.
pub fn save_file_as_result(outcome: SaveAsOutcome) -> (r: Result<Option<String>, String>)
    ensures
        save_as_view(r) == save_as_result(outcome@),
{
    match outcome {
        SaveAsOutcome::Cancelled => Ok(None),
        SaveAsOutcome::Written { path } => Ok(Some(path)),
        SaveAsOutcome::WriteFailed { reason } => Err(reason),
    }
}

} // verus!
