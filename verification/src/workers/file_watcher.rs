//! The file watcher: which changes are reported, and how.

use vstd::prelude::*;
use vstd::string::StringExecFns;
use crate::event::event::{opt_text, AxonEvent, EventView, LogLevel};

verus! {

/// Milliseconds to wait after a change before the file is read.
pub const SETTLE_MILLIS: u64 = 150;

/// Whether files with this extension are watched: Rust sources and TOML files.
pub open spec fn watched(extension: Option<Seq<char>>) -> bool {
    extension == Some("rs"@) || extension == Some("toml"@)
}

/// Whether files with this extension are watched.
pub fn is_watched(extension: &Option<String>) -> (b: bool)
    ensures
        b == watched(opt_text(*extension)),
{
    match extension {
        Some(ext) => {
            let rs = String::from_str("rs");
            let toml = String::from_str("toml");
            *ext == rs || *ext == toml
        },
        None => false,
    }
}

/// The event that reports a changed file.
pub open spec fn change_report(path: Seq<char>, content: Seq<char>) -> EventView {
    EventView::LogDetected {
        source: "file_watcher"@,
        level: LogLevel::Error,
        message: "ANALIZA: "@ + content,
        source_file: Some(path),
        raw_lines: Some(content),
    }
}

/// What is reported for a file that was created or modified: nothing if
/// its extension is not watched or the file is empty, else one event that
/// carries its content.
pub fn run(extension: &Option<String>, path: String, content: String) -> (report: Option<
    AxonEvent,
>)
    ensures
        match report {
            Some(event) => watched(opt_text(*extension)) && content@.len() > 0 && event@
                == change_report(path@, content@),
            None => !watched(opt_text(*extension)) || content@.len() == 0,
        },
{
    if !is_watched(extension) || content.as_str().unicode_len() == 0 {
        return None;
    }
    let mut message = String::from_str("ANALIZA: ");
    message.append(content.as_str());
    Some(
        AxonEvent::LogDetected {
            source: String::from_str("file_watcher"),
            level: LogLevel::Error,
            message,
            source_file: Some(path),
            raw_lines: Some(content),
        },
    )
}

} // verus!
