//! Records for the platform log: a priority, a tag and a message, the two
//! texts as the C strings that the platform is handed.

use vstd::prelude::*;
use vstd::utf8::encode_utf8;

verus! {

/// The priorities of the platform log.
#[allow(non_camel_case_types)]
#[derive(Clone, Copy, Debug, PartialEq, Eq, Structural)]
pub enum LogPriority {
    UNKNOWN,
    DEFAULT,
    VERBOSE,
    DEBUG,
    INFO,
    WARN,
    ERROR,
    FATAL,
    SILENT,
}

/// The number by which the platform knows a priority.
pub open spec fn priority_code(priority: LogPriority) -> int {
    match priority {
        LogPriority::UNKNOWN => 0,
        LogPriority::DEFAULT => 1,
        LogPriority::VERBOSE => 2,
        LogPriority::DEBUG => 3,
        LogPriority::INFO => 4,
        LogPriority::WARN => 5,
        LogPriority::ERROR => 6,
        LogPriority::FATAL => 7,
        LogPriority::SILENT => 8,
    }
}

/// No two priorities share a number, and the numbers are those from 0 to 8.
pub proof fn lemma_priority_codes(a: LogPriority, b: LogPriority)
    ensures
        0 <= priority_code(a) <= 8,
        priority_code(a) == priority_code(b) ==> a == b,
{
}

impl LogPriority {
    /// The number by which the platform knows the priority.
    pub fn code(self) -> (code: i32)
        ensures
            code == priority_code(self),
    {
        match self {
            LogPriority::UNKNOWN => 0,
            LogPriority::DEFAULT => 1,
            LogPriority::VERBOSE => 2,
            LogPriority::DEBUG => 3,
            LogPriority::INFO => 4,
            LogPriority::WARN => 5,
            LogPriority::ERROR => 6,
            LogPriority::FATAL => 7,
            LogPriority::SILENT => 8,
        }
    }
}

/// Whether no byte of `text` is zero.
pub open spec fn zero_free(text: Seq<u8>) -> bool {
    forall|i: int| 0 <= i < text.len() ==> #[trigger] text[i] != 0
}

/// Whether `text` is what a C string holds that is made of `bytes` and a
/// terminating zero: the bytes before the first zero among them, or all of
/// them where none is zero.
pub open spec fn is_c_text(bytes: Seq<u8>, text: Seq<u8>) -> bool {
    &&& text.len() <= bytes.len()
    &&& text == bytes.take(text.len() as int)
    &&& zero_free(text)
    &&& text.len() < bytes.len() ==> bytes[text.len() as int] == 0
}

/// A byte sequence has one C text.
pub proof fn lemma_c_text_unique(bytes: Seq<u8>, a: Seq<u8>, b: Seq<u8>)
    requires
        is_c_text(bytes, a),
        is_c_text(bytes, b),
    ensures
        a == b,
{
    if a.len() < b.len() {
        assert(b[a.len() as int] == bytes[a.len() as int]);
    }
    if b.len() < a.len() {
        assert(a[b.len() as int] == bytes[b.len() as int]);
    }
}

/// Bytes without a zero are their own C text, and only those are.
pub proof fn lemma_c_text_whole(bytes: Seq<u8>)
    ensures
        is_c_text(bytes, bytes) <==> zero_free(bytes),
{
    assert(bytes.take(bytes.len() as int) =~= bytes);
}

/// The C text of `bytes`.
pub fn c_text(bytes: &[u8]) -> (text: Vec<u8>)
    ensures
        is_c_text(bytes@, text@),
        zero_free(text@),
{
    let mut text: Vec<u8> = Vec::new();
    let mut k: usize = 0;
    while k < bytes.len() && bytes[k] != 0
        invariant
            k <= bytes@.len(),
            text@ == bytes@.take(k as int),
            forall|i: int| 0 <= i < k ==> #[trigger] text@[i] != 0,
        decreases bytes.len() - k,
    {
        text.push(bytes[k]);
        k = k + 1;
    }
    text
}

/// A record for the platform log.
#[derive(Debug, PartialEq, Eq)]
pub struct LogRecord {
    /// The priority of the record.
    pub priority: LogPriority,
    /// The tag, as the bytes of a C string without its terminator.
    pub tag: Vec<u8>,
    /// The message, as the bytes of a C string without its terminator.
    pub text: Vec<u8>,
}

impl LogRecord {
    /// Whether the record can be handed to the platform: neither text holds
    /// a zero byte.
    pub open spec fn wf(&self) -> bool {
        zero_free(self.tag@) && zero_free(self.text@)
    }

    /// Whether the record is the one for `tag` and `msg` at `priority`: its
    /// texts are the C texts of their UTF-8 bytes.
    pub open spec fn is_for(&self, priority: LogPriority, tag: Seq<char>, msg: Seq<char>) -> bool {
        &&& self.priority == priority
        &&& is_c_text(encode_utf8(tag), self.tag@)
        &&& is_c_text(encode_utf8(msg), self.text@)
    }
}

/// The record for `tag` and `msg` at priority `prio`. What follows a zero
/// byte in either text, and the zero itself, is left out, as a C string ends
/// there.
pub fn rust_android_log(prio: LogPriority, tag: String, msg: String) -> (record: LogRecord)
    ensures
        record.is_for(prio, tag@, msg@),
        record.wf(),
{
    let tag_text = c_text(tag.as_str().as_bytes());
    let msg_text = c_text(msg.as_str().as_bytes());
    LogRecord { priority: prio, tag: tag_text, text: msg_text }
}

/// The record for `tag` and `msg` at priority `VERBOSE`.
pub fn v(tag: String, msg: String) -> (record: LogRecord)
    ensures
        record.is_for(LogPriority::VERBOSE, tag@, msg@),
        record.wf(),
{
    rust_android_log(LogPriority::VERBOSE, tag, msg)
}

/// The record for `tag` and `msg` at priority `DEBUG`.
pub fn d(tag: String, msg: String) -> (record: LogRecord)
    ensures
        record.is_for(LogPriority::DEBUG, tag@, msg@),
        record.wf(),
{
    rust_android_log(LogPriority::DEBUG, tag, msg)
}

/// The record for `tag` and `msg` at priority `INFO`.
pub fn i(tag: String, msg: String) -> (record: LogRecord)
    ensures
        record.is_for(LogPriority::INFO, tag@, msg@),
        record.wf(),
{
    rust_android_log(LogPriority::INFO, tag, msg)
}

/// The record for `tag` and `msg` at priority `WARN`.
pub fn w(tag: String, msg: String) -> (record: LogRecord)
    ensures
        record.is_for(LogPriority::WARN, tag@, msg@),
        record.wf(),
{
    rust_android_log(LogPriority::WARN, tag, msg)
}

/// The record for `tag` and `msg` at priority `ERROR`.
pub fn e(tag: String, msg: String) -> (record: LogRecord)
    ensures
        record.is_for(LogPriority::ERROR, tag@, msg@),
        record.wf(),
{
    rust_android_log(LogPriority::ERROR, tag, msg)
}

} // verus!
