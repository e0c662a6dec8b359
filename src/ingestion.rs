//! Settings of the ingestion pipeline and normalisation of incoming text.
use vstd::prelude::*;
use vstd::string::{StrSliceExecFns, StringExecFns};

verus! {


/// Parser of trace spans into telemetry, keeping text up to a length.
#[derive(Debug, Clone, Copy, PartialEq, Eq)]
pub struct OtlpParser {
    pub max_text_length: usize,
}

impl Default for OtlpParser {
    fn default() -> (r: OtlpParser)
        ensures
            r.max_text_length == 10000,
    {
        OtlpParser { max_text_length: 10000 }
    }
}

/// `text` as stored: when its UTF-8 encoding is longer than `max` bytes, its first
/// `max` characters followed by the truncation mark; otherwise unchanged.
pub open spec fn truncated_text(text: Seq<char>, byte_len: nat, max: nat) -> Seq<char> {
    if byte_len > max {
        text.take(if text.len() < max { text.len() as int } else { max as int })
            + "...[truncated]"@
    } else {
        text
    }
}

impl OtlpParser {
    pub fn new(max_text_length: usize) -> (r: OtlpParser)
        ensures
            r.max_text_length == max_text_length,
    {
        OtlpParser { max_text_length }
    }

    /// Cuts `text` down to the configured length, marking the cut.
    pub fn truncate_text(&self, text: String) -> (r: String)
        ensures
            r@ == truncated_text(
                text@,
                (vstd::utf8::encode_utf8(text@).len() as usize) as nat,
                self.max_text_length as nat,
            ),
    {
        let byte_len = text.as_str().len();
        if byte_len > self.max_text_length {
            let n = text.as_str().unicode_len();
            let keep = if n < self.max_text_length {
                n
            } else {
                self.max_text_length
            };
            let head = text.as_str().substring_char(0, keep);
            assert(head@ =~= text@.take(keep as int));
            String::from_str(head).concat("...[truncated]")
        } else {
            text
        }
    }
}

/// Settings of the ingestion pipeline.
#[derive(Debug, Clone, Copy, PartialEq, Eq)]
pub struct PipelineConfig {
    pub buffer_size: usize,
    pub workers: usize,
    pub enable_validation: bool,
    pub enable_sanitization: bool,
}

impl Default for PipelineConfig {
    fn default() -> (r: PipelineConfig)
        ensures
            r.buffer_size == 10000,
            r.workers == 4,
            r.enable_validation,
            r.enable_sanitization,
    {
        PipelineConfig {
            buffer_size: 10000,
            workers: 4,
            enable_validation: true,
            enable_sanitization: true,
        }
    }
}

/// What the pipeline reports of itself.
#[derive(Debug, Clone, Copy, PartialEq, Eq)]
pub struct PipelineStats {
    pub workers: usize,
    pub buffer_size: usize,
}

impl PipelineConfig {
    pub fn stats(&self) -> (r: PipelineStats)
        ensures
            r.workers == self.workers,
            r.buffer_size == self.buffer_size,
    {
        PipelineStats { workers: self.workers, buffer_size: self.buffer_size }
    }
}

} // verus!
