//! A console logging library: leveled, tagged, timestamped messages with
//! colour-coded output, rendered either as a single line or as a multi-line
//! block (message, optional call-site note, optional value dump) connected
//! by box-drawing glyphs.
//!
//! Formatting is total and exactly specified; only the clock reading, the
//! colour switch of the process environment, and the final write to
//! standard output are outside the proofs. A block is joined into one
//! string and written by a single call, so its lines cannot interleave
//! with another block's at the stream.

use vstd::prelude::*;
use std::io::Write;

pub mod ansi;
pub mod laws;
pub mod clock;
pub mod render;
pub mod severity;
pub mod text;

use crate::severity::{LogLevel, get_colour, padded_label_chars, colour_of};
use crate::ansi::{is_styled, dim_prefix, colour_prefix, paint, dim};
use crate::clock::{Timestamp, ts_chars, format_timestamp, now_utc};
use crate::render::{Connectors, render_line, render_block};
use crate::text::{pad_right, join_lines};

verus! {

/// The one error the library can surface: the write to standard output
/// failed.
#[derive(Debug, PartialEq, Eq, Structural)]
pub struct WriteError {}

/// Relies on std's `writeln!` on `std::io::stdout`: the text and one
/// newline go out in a single locked write, so a multi-line text cannot
/// interleave with other writes at line granularity.
#[verifier::external_body]
fn emit_line(s: &str) -> (r: Result<(), WriteError>)
{
    match writeln!(std::io::stdout(), "{}", s) {
        Ok(()) => Ok(()),
        Err(_) => Err(WriteError {}),
    }
}

/// The console logger. It holds no state: every call reads the clock,
/// formats, and writes.
pub struct Logger {}

impl Logger {
    pub fn new() -> Logger {
        Logger {}
    }

    /// The padded severity label in the severity's colour.
    pub fn get_tag(&self, level: LogLevel) -> (r: String)
        ensures
            is_styled(padded_label_chars(level), colour_prefix(colour_of(level)), r@),
    {
        let label = pad_right(severity::label_str(level), 6);
        paint(label.as_str(), get_colour(level))
    }

    /// The current time as a dimmed bracketed timestamp with fields of
    /// natural width.
    pub fn timestamp(&self) -> (r: String)
        ensures
            exists|t: Timestamp|
                #[trigger] t.wf() && is_styled(ts_chars(t, false), dim_prefix(), r@),
    {
        let now = now_utc();
        let text = format_timestamp(&now, false);
        let r = dim(text.as_str());
        proof {
            assert(now.wf() && is_styled(ts_chars(now, false), dim_prefix(), r@));
        }
        r
    }

    /// Renders one single-line event and writes it. Whether the write
    /// succeeds depends on the output stream alone; the rendered text is
    /// pinned by `render::render_line`.
    fn _write(&self, message: &str, tag: &str, level: LogLevel) -> Result<(), WriteError> {
        let ts = now_utc();
        let con = Connectors::default();
        let line = render_line(level, message, tag, &ts, false, con.single_line);
        emit_line(line.as_str())
    }

    /// Renders one block-form event and writes it as a single string, so
    /// the block's lines stay together on the stream. The lines are
    /// pinned by `render::render_block`.
    fn _write_block(
        &self,
        message: &str,
        tag: &str,
        level: LogLevel,
        emit_call_site: bool,
        call_site: &str,
        attached: Option<&str>,
    ) -> Result<(), WriteError> {
        let ts = now_utc();
        let lines = render_block(level, message, tag, emit_call_site, call_site, attached, &ts);
        let block = join_lines(&lines);
        emit_line(block.as_str())
    }

    pub fn silly(&self, message: &str, tag: &str) -> Result<(), WriteError> {
        self._write(message, tag, LogLevel::Silly)
    }

    pub fn debug(&self, message: &str, tag: &str) -> Result<(), WriteError> {
        self._write(message, tag, LogLevel::Debug)
    }

    pub fn info(&self, message: &str, tag: &str) -> Result<(), WriteError> {
        self._write(message, tag, LogLevel::Info)
    }

    pub fn warn(&self, message: &str, tag: &str) -> Result<(), WriteError> {
        self._write(message, tag, LogLevel::Warn)
    }

    pub fn error(&self, message: &str, tag: &str) -> Result<(), WriteError> {
        self._write(message, tag, LogLevel::Error)
    }

    pub fn fatal(&self, message: &str, tag: &str) -> Result<(), WriteError> {
        self._write(message, tag, LogLevel::Fatal)
    }

    pub fn silly_detailed(
        &self,
        message: &str,
        tag: &str,
        emit_call_site: bool,
        call_site: &str,
        attached: Option<&str>,
    ) -> Result<(), WriteError> {
        self._write_block(message, tag, LogLevel::Silly, emit_call_site, call_site, attached)
    }

    pub fn debug_detailed(
        &self,
        message: &str,
        tag: &str,
        emit_call_site: bool,
        call_site: &str,
        attached: Option<&str>,
    ) -> Result<(), WriteError> {
        self._write_block(message, tag, LogLevel::Debug, emit_call_site, call_site, attached)
    }

    pub fn info_detailed(
        &self,
        message: &str,
        tag: &str,
        emit_call_site: bool,
        call_site: &str,
        attached: Option<&str>,
    ) -> Result<(), WriteError> {
        self._write_block(message, tag, LogLevel::Info, emit_call_site, call_site, attached)
    }

    pub fn warn_detailed(
        &self,
        message: &str,
        tag: &str,
        emit_call_site: bool,
        call_site: &str,
        attached: Option<&str>,
    ) -> Result<(), WriteError> {
        self._write_block(message, tag, LogLevel::Warn, emit_call_site, call_site, attached)
    }

    pub fn error_detailed(
        &self,
        message: &str,
        tag: &str,
        emit_call_site: bool,
        call_site: &str,
        attached: Option<&str>,
    ) -> Result<(), WriteError> {
        self._write_block(message, tag, LogLevel::Error, emit_call_site, call_site, attached)
    }

    pub fn fatal_detailed(
        &self,
        message: &str,
        tag: &str,
        emit_call_site: bool,
        call_site: &str,
        attached: Option<&str>,
    ) -> Result<(), WriteError> {
        self._write_block(message, tag, LogLevel::Fatal, emit_call_site, call_site, attached)
    }
}

} // verus!
