use crate::decimal::{parse_u32, parsed_u32};
use crate::error::ErrorKind;
use crate::hexcode::{decode_hex, hex_bytes, is_hex_text};
use crate::text::{fields, split_fields};
use vstd::prelude::*;

verus! {

/// One unit of work: find the nonce whose text, appended to `base`, hashes
/// to `target`.
#[derive(Debug, Clone, PartialEq, Eq)]
pub struct Job {
    pub base: String,
    pub target: Vec<u8>,
    pub difficulty: u32,
}

/// A job as plain values: its texts as sequences.
pub struct JobView {
    pub base: Seq<char>,
    pub target: Seq<u8>,
    pub difficulty: u32,
}

impl View for Job {
    type V = JobView;

    open spec fn view(&self) -> JobView {
        JobView { base: self.base@, target: self.target@, difficulty: self.difficulty }
    }
}

/// The target that `text` stands for: the bytes of its hexadecimal digits,
/// or no bytes at all where `text` is not hexadecimal.
pub open spec fn target_of(text: Seq<char>) -> Seq<u8> {
    if is_hex_text(text) {
        hex_bytes(text)
    } else {
        Seq::<u8>::empty()
    }
}

/// The difficulty that `text` stands for: its value as a decimal number, or
/// zero where `text` is no such number.
pub open spec fn difficulty_of(text: Seq<char>) -> u32 {
    match parsed_u32(text) {
        Some(value) => value,
        None => 0,
    }
}

/// The job that the trimmed line `line` describes, if it has exactly three
/// fields: the base, the target in hexadecimal, the difficulty in decimal.
pub open spec fn job_of(line: Seq<char>) -> Option<JobView> {
    let parts = fields(line);
    if parts.len() == 3 {
        Some(
            JobView {
                base: parts[0],
                target: target_of(parts[1]),
                difficulty: difficulty_of(parts[2]),
            },
        )
    } else {
        None
    }
}

/// Decodes the target field of a job line. A field that does not decode
/// gives the empty target, not an error.
pub fn decode_target(text: &str) -> (target: Vec<u8>)
    ensures
        target@ == target_of(text@),
{
    match decode_hex(text) {
        Ok(bytes) => bytes,
        Err(_) => Vec::new(),
    }
}

/// Decodes the difficulty field of a job line. A field that does not decode
/// gives difficulty zero, not an error.
pub fn decode_difficulty(text: &str) -> (difficulty: u32)
    ensures
        difficulty == difficulty_of(text@),
{
    match parse_u32(text) {
        Some(value) => value,
        None => 0,
    }
}

/// Parses one trimmed job line. A line with any other number of fields than
/// three is malformed; fields that do not decode are replaced by defaults.
pub fn parse_job_line(line: &str) -> (r: Result<Job, ErrorKind>)
    ensures
        match r {
            Ok(job) => job_of(line@) == Some(job@),
            Err(kind) => job_of(line@) is None && kind == ErrorKind::MalformedJob,
        },
{
    let parts = split_fields(line);
    if parts.len() != 3 {
        return Err(ErrorKind::MalformedJob);
    }
    let base = parts[0].to_owned();
    let target = decode_target(parts[1]);
    let difficulty = decode_difficulty(parts[2]);
    Ok(Job { base, target, difficulty })
}

} // verus!
