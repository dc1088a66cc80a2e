//! Going through the files of an invocation: what is printed for each, and
//! what is reported of a file that could not be opened or read.
//!
//! Opening and reading is left to the caller, who hands over what came of it
//! for each file. Every file is dealt with on its own: what is printed or
//! reported for one depends on nothing that happened to another.
//!
//! Lines are selected by reading a file from its beginning, which every
//! source allows. Bytes are selected by going straight to a byte, which only
//! a source that can seek allows: of one that cannot, bytes are not selected.

use vstd::prelude::*;
use vstd::string::*;
use vstd::utf8::encode_utf8;
use crate::config::Config;
use crate::scan::{
    count_lines_bytes,
    line_count,
    print_bytes,
    print_lines,
    selected_bytes,
    selected_lines,
    NEWLINE,
};

verus! {

/// The byte of `=`.
pub const EQUALS: u8 = 61;

/// The byte of `>`.
pub const GREATER: u8 = 62;

/// The byte of `<`.
pub const LESS: u8 = 60;

/// The byte of a space.
pub const SPACE: u8 = 32;

/// What came of opening and reading one file.
#[derive(Debug, PartialEq, Eq)]
pub enum FileInput {
    /// The file could not be opened, for the reason given.
    Unopened { reason: String },
    /// The file was opened, and reading it failed for the reason given.
    Unread { reason: String },
    /// The file was read, and this is all it holds. Its source can seek.
    Content(Vec<u8>),
    /// The file was read from its beginning to its end, and `data` is all it
    /// holds, but its source cannot seek: going to a byte of it fails for the
    /// reason given.
    Sequential { data: Vec<u8>, reason: String },
}

impl FileInput {
    /// What the file holds, where it was read.
    pub open spec fn content(self) -> Option<Seq<u8>> {
        match self {
            FileInput::Content(data) => Some(data@),
            FileInput::Sequential { data, .. } => Some(data@),
            _ => None,
        }
    }

    /// The content is short enough for its length to be counted in 64 bits
    /// with a sign.
    pub open spec fn countable(self) -> bool {
        self.content() matches Some(data) ==> data.len() <= i64::MAX
    }
}

/// Why nothing was selected from a file.
#[derive(Debug, PartialEq, Eq)]
pub enum FileError {
    /// The file could not be opened.
    FileOpenError { path: String, reason: String },
    /// The file was opened, and reading it or seeking in it failed.
    IoError { path: String, reason: String },
}

impl FileError {
    /// The message of this error as a sequence of characters: the path, a
    /// colon and the reason.
    pub open spec fn message(self) -> Seq<char> {
        match self {
            FileError::FileOpenError { path, reason } => path@ + ": "@ + reason@,
            FileError::IoError { path, reason } => path@ + ": "@ + reason@,
        }
    }

    /// The message to show to the user.
    pub fn to_string(&self) -> (s: String)
        ensures
            s@ == self.message(),
    {
        match self {
            FileError::FileOpenError { path, reason } => {
                let mut s = path.clone();
                s.append(": ");
                s.append(reason.as_str());
                s
            },
            FileError::IoError { path, reason } => {
                let mut s = path.clone();
                s.append(": ");
                s.append(reason.as_str());
                s
            },
        }
    }
}

/// What one file adds to the run: the bytes for the standard output, and the
/// error to report, if there is one.
#[derive(Debug, PartialEq, Eq)]
pub struct FileReport {
    pub stdout: Vec<u8>,
    pub error: Option<FileError>,
}

/// Headers are shown where more than one file is given and they are not
/// suppressed.
pub open spec fn shows_headers(config: Config) -> bool {
    !config.quiet && config.files@.len() > 1
}

/// The header of a file: `==> `, the path, ` <==` and a newline, and before
/// them an empty line for every file but the first.
pub open spec fn header(path: Seq<char>, file_num: int) -> Seq<u8> {
    let lead = if file_num > 0 {
        seq![NEWLINE]
    } else {
        Seq::empty()
    };
    lead + seq![EQUALS, EQUALS, GREATER, SPACE] + encode_utf8(path) + seq![
        SPACE,
        LESS,
        EQUALS,
        EQUALS,
        NEWLINE,
    ]
}

/// What stands before the content of the file at position `file_num`: its
/// header where headers are shown, and nothing otherwise.
pub open spec fn file_head(config: Config, file_num: int) -> Seq<u8> {
    if shows_headers(config) {
        header(config.files@[file_num]@, file_num)
    } else {
        Seq::empty()
    }
}

/// What is selected from the content of a file: bytes where a count of bytes
/// is given, lines otherwise, each with the file's own total.
pub open spec fn selected(config: Config, data: Seq<u8>) -> Seq<u8> {
    match config.bytes {
        Some(num_bytes) => selected_bytes(data, num_bytes, data.len() as int),
        None => selected_lines(data, config.lines, line_count(data) as int),
    }
}

/// The reason for which nothing is selected from a file that was opened, if
/// there is one: reading it failed, or bytes are to be selected and its
/// source cannot seek.
pub open spec fn io_failure(config: Config, input: FileInput) -> Option<Seq<char>> {
    match input {
        FileInput::Unread { reason } => Some(reason@),
        FileInput::Sequential { reason, .. } => if config.bytes is Some {
            Some(reason@)
        } else {
            None
        },
        _ => None,
    }
}

/// What the file at position `file_num` adds to the standard output: nothing
/// where it could not be opened; else its header, where headers are shown,
/// and behind it what is selected from its content, unless reading or seeking
/// failed.
pub open spec fn file_stdout(config: Config, file_num: int, input: FileInput) -> Seq<u8> {
    if input is Unopened {
        Seq::empty()
    } else if io_failure(config, input) is Some {
        file_head(config, file_num)
    } else {
        file_head(config, file_num) + selected(config, input.content().unwrap())
    }
}

/// The report says what is due for the file at position `file_num`: the
/// output of [`file_stdout`], and an error exactly where the file could not
/// be opened or where there is an [`io_failure`], with the file's path and
/// the reason that was given.
pub open spec fn reports_on(
    report: FileReport,
    config: Config,
    file_num: int,
    input: FileInput,
) -> bool {
    &&& report.stdout@ == file_stdout(config, file_num, input)
    &&& match report.error {
        None => input !is Unopened && io_failure(config, input) is None,
        Some(FileError::FileOpenError { path, reason }) => {
            &&& input matches FileInput::Unopened { reason: given }
            &&& path@ == config.files@[file_num]@
            &&& reason@ == given@
        },
        Some(FileError::IoError { path, reason }) => {
            &&& input !is Unopened
            &&& io_failure(config, input) == Some(reason@)
            &&& path@ == config.files@[file_num]@
        },
    }
}

/// Writes the header of a file.
fn write_header(path: &str, file_num: usize) -> (out: Vec<u8>)
    ensures
        out@ == header(path@, file_num as int),
{
    let mut out: Vec<u8> = Vec::new();
    if file_num > 0 {
        out.push(NEWLINE);
    }
    out.push(EQUALS);
    out.push(EQUALS);
    out.push(GREATER);
    out.push(SPACE);
    out.extend_from_slice(path.as_bytes());
    out.push(SPACE);
    out.push(LESS);
    out.push(EQUALS);
    out.push(EQUALS);
    out.push(NEWLINE);
    out
}

/// Writes what stands before the content of the file at position `file_num`:
/// its header where headers are shown, and nothing otherwise.
fn write_head(config: &Config, file_num: usize) -> (out: Vec<u8>)
    requires
        file_num < config.files@.len(),
    ensures
        out@ == file_head(*config, file_num as int),
{
    if !config.quiet && config.files.len() > 1 {
        write_header(config.files[file_num].as_str(), file_num)
    } else {
        Vec::new()
    }
}

/// Reports on a file that was read: its header, where headers are shown, and
/// what is selected from its content, after counting its lines and bytes.
fn selection(config: &Config, file_num: usize, data: &Vec<u8>) -> (report: FileReport)
    requires
        file_num < config.files@.len(),
        data@.len() <= i64::MAX,
    ensures
        report.error is None,
        report.stdout@ == file_head(*config, file_num as int) + selected(*config, data@),
{
    let mut stdout = write_head(config, file_num);
    let (total_lines, total_bytes) = count_lines_bytes(data.as_slice());
    let mut chosen = match &config.bytes {
        Some(num_bytes) => print_bytes(data.as_slice(), num_bytes, total_bytes),
        None => print_lines(data.as_slice(), &config.lines, total_lines),
    };
    stdout.append(&mut chosen);
    FileReport { stdout, error: None }
}

/// Reports on a file that was opened and from which nothing is selected: its
/// header, where headers are shown, and the error.
fn failure(config: &Config, file_num: usize, reason: &String) -> (report: FileReport)
    requires
        file_num < config.files@.len(),
    ensures
        report.stdout@ == file_head(*config, file_num as int),
        report.error matches Some(FileError::IoError { path, reason: given }) && path@
            == config.files@[file_num as int]@ && given@ == reason@,
{
    FileReport {
        stdout: write_head(config, file_num),
        error: Some(
            FileError::IoError { path: config.files[file_num].clone(), reason: reason.clone() },
        ),
    }
}

/// Deals with the file at position `file_num` of the invocation, given what
/// came of opening and reading it.
pub fn tail_file(config: &Config, file_num: usize, input: &FileInput) -> (report: FileReport)
    requires
        file_num < config.files@.len(),
        input.countable(),
    ensures
        reports_on(report, *config, file_num as int, *input),
{
    match input {
        FileInput::Unopened { reason } => FileReport {
            stdout: Vec::new(),
            error: Some(
                FileError::FileOpenError {
                    path: config.files[file_num].clone(),
                    reason: reason.clone(),
                },
            ),
        },
        FileInput::Unread { reason } => failure(config, file_num, reason),
        FileInput::Content(data) => selection(config, file_num, data),
        FileInput::Sequential { data, reason } => {
            if config.bytes.is_some() {
                failure(config, file_num, reason)
            } else {
                selection(config, file_num, data)
            }
        },
    }
}

/// Goes through the files of an invocation in their order, given for each
/// what came of opening and reading it, and reports on each.
///
/// A file that could not be opened or read has its error in its own report
/// and changes nothing for the others.
pub fn run(config: &Config, inputs: &Vec<FileInput>) -> (reports: Vec<FileReport>)
    requires
        inputs@.len() == config.files@.len(),
        forall|i: int| 0 <= i < inputs@.len() ==> (#[trigger] inputs@[i]).countable(),
    ensures
        reports@.len() == inputs@.len(),
        forall|i: int|
            0 <= i < reports@.len() ==> reports_on(#[trigger] reports@[i], *config, i, inputs@[i]),
{
    let mut reports: Vec<FileReport> = Vec::new();
    let mut file_num: usize = 0;
    while file_num < inputs.len()
        invariant
            file_num <= inputs@.len(),
            inputs@.len() == config.files@.len(),
            forall|i: int| 0 <= i < inputs@.len() ==> (#[trigger] inputs@[i]).countable(),
            reports@.len() == file_num,
            forall|i: int|
                0 <= i < reports@.len() ==> reports_on(
                    #[trigger] reports@[i],
                    *config,
                    i,
                    inputs@[i],
                ),
        decreases inputs@.len() - file_num,
    {
        let report = tail_file(config, file_num, &inputs[file_num]);
        reports.push(report);
        file_num += 1;
    }
    reports
}

} // verus!
