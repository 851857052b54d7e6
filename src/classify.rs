use vstd::prelude::*;
use vstd::utf8::{decode_utf8, valid_utf8};

verus! {

/// What a captured block of build output is taken to be.
#[derive(Clone, Copy, Debug, PartialEq, Eq, Structural)]
pub enum Classification {
    Success,
    Error,
    Warning,
    Ignored,
}

/// One classified block of captured build output.
pub struct DiagnosticItem {
    pub raw_text: String,
    pub classification: Classification,
}

/// The pattern that marks a block as an error.
pub open spec fn error_word() -> Seq<char> {
    seq!['e', 'r', 'r', 'o', 'r']
}

/// The pattern that marks a block as a warning.
pub open spec fn warning_word() -> Seq<char> {
    seq!['w', 'a', 'r', 'n', 'i', 'n', 'g']
}

/// `pat` occurs in `text` starting at position `i`.
pub open spec fn occurs_at(text: Seq<char>, pat: Seq<char>, i: int) -> bool {
    0 <= i && i + pat.len() <= text.len() && text.subrange(i, i + pat.len()) == pat
}

/// `pat` occurs somewhere in `text` (case-sensitive).
pub open spec fn has_substring(text: Seq<char>, pat: Seq<char>) -> bool {
    exists|i: int| occurs_at(text, pat, i)
}

/// How a decoded standard-error block is classified.
pub open spec fn stderr_classification(text: Seq<char>) -> Classification {
    if has_substring(text, error_word()) {
        Classification::Error
    } else if has_substring(text, warning_word()) {
        Classification::Warning
    } else {
        Classification::Ignored
    }
}

/// An item takes part in the visible list exactly when it is an error or a
/// warning with some text.
pub open spec fn is_visible_spec(item: DiagnosticItem) -> bool {
    (item.classification == Classification::Error || item.classification
        == Classification::Warning) && item.raw_text@.len() > 0
}

/// The description of the decoding failure of bytes that are not UTF-8.
pub uninterp spec fn utf8_error_text(bytes: Seq<u8>) -> Seq<char>;

/// The text an item holds for a captured stream: the decoded characters, or
/// the description of the decoding failure.
pub open spec fn stream_text(bytes: Seq<u8>) -> Seq<char> {
    if valid_utf8(bytes) {
        decode_utf8(bytes)
    } else {
        utf8_error_text(bytes)
    }
}

/// The classification of the item made from captured standard output.
pub open spec fn stdout_classification(bytes: Seq<u8>) -> Classification {
    if valid_utf8(bytes) {
        Classification::Success
    } else {
        Classification::Error
    }
}

/// The classification of the item made from captured standard error.
pub open spec fn stderr_stream_classification(bytes: Seq<u8>) -> Classification {
    if valid_utf8(bytes) {
        stderr_classification(decode_utf8(bytes))
    } else {
        Classification::Error
    }
}

/// Relies on std::str::from_utf8: it succeeds exactly on UTF-8 bytes and then
/// holds the characters they encode; on failure, the error's text (through
/// its `Display`) depends on the bytes alone and is never empty.
#[verifier::external_body]
fn decode_stream(bytes: &[u8]) -> (r: Result<String, String>)
    ensures
        match r {
            Ok(s) => valid_utf8(bytes@) && s@ == decode_utf8(bytes@),
            Err(e) => !valid_utf8(bytes@) && e@ == utf8_error_text(bytes@) && e@.len() > 0,
        },
{
    match std::str::from_utf8(bytes) {
        Ok(s) => Ok(s.to_string()),
        Err(e) => Err(e.to_string()),
    }
}

/// The characters of a string, in order.
fn chars_of(s: &str) -> (r: Vec<char>)
    ensures
        r@ == s@,
{
    let mut r: Vec<char> = Vec::new();
    for c in it: s.chars()
        invariant
            r@ == it.seq().take(it.index() as int),
    {
        r.push(c);
    }
    r
}

/// Whether `pat` occurs at position `i` of `text`.
fn matches_at(text: &Vec<char>, pat: &Vec<char>, i: usize) -> (r: bool)
    requires
        i + pat@.len() <= text@.len() <= usize::MAX,
    ensures
        r == occurs_at(text@, pat@, i as int),
{
    let mut k: usize = 0;
    while k < pat.len()
        invariant
            i + pat@.len() <= text@.len(),
            text@.len() <= usize::MAX,
            k <= pat@.len(),
            forall|j: int| 0 <= j < k ==> text@[i + j] == pat@[j],
        decreases pat@.len() - k,
    {
        if text[i + k] != pat[k] {
            assert(text@.subrange(i as int, i + pat@.len())[k as int] != pat@[k as int]);
            return false;
        }
        k = k + 1;
    }
    assert(text@.subrange(i as int, i + pat@.len()) =~= pat@);
    true
}

/// Whether `pat` occurs anywhere in `text`.
fn contains_chars(text: &Vec<char>, pat: &Vec<char>) -> (r: bool)
    ensures
        r == has_substring(text@, pat@),
{
    if pat.len() > text.len() {
        return false;
    }
    let last = text.len() - pat.len();
    let mut i: usize = 0;
    while i < last
        invariant
            last == text@.len() - pat@.len(),
            text@.len() <= usize::MAX,
            i <= last,
            forall|j: int| 0 <= j < i ==> !occurs_at(text@, pat@, j),
        decreases last - i,
    {
        if matches_at(text, pat, i) {
            return true;
        }
        i = i + 1;
    }
    if matches_at(text, pat, last) {
        return true;
    }
    assert forall|j: int| !occurs_at(text@, pat@, j) by {
        if 0 <= j && j + pat@.len() <= text@.len() && j != last {
            assert(j < i);
        }
    }
    false
}

/// Classifies decoded standard-error text: an error when it contains "error",
/// else a warning when it contains "warning", else ignored.
pub fn classify_stderr_text(text: &str) -> (r: Classification)
    ensures
        r == stderr_classification(text@),
{
    let chars = chars_of(text);
    let error_pat: Vec<char> = vec!['e', 'r', 'r', 'o', 'r'];
    let warning_pat: Vec<char> = vec!['w', 'a', 'r', 'n', 'i', 'n', 'g'];
    assert(error_pat@ =~= error_word());
    assert(warning_pat@ =~= warning_word());
    if contains_chars(&chars, &error_pat) {
        Classification::Error
    } else if contains_chars(&chars, &warning_pat) {
        Classification::Warning
    } else {
        Classification::Ignored
    }
}

impl DiagnosticItem {
    /// A copy of the item.
    pub fn duplicate(&self) -> (r: DiagnosticItem)
        ensures
            r == *self,
    {
        DiagnosticItem { raw_text: self.raw_text.clone(), classification: self.classification }
    }

    /// Whether the item takes part in the visible list.
    pub fn is_visible(&self) -> (r: bool)
        ensures
            r == is_visible_spec(*self),
    {
        (match self.classification {
            Classification::Error => true,
            Classification::Warning => true,
            _ => false,
        }) && !self.raw_text.as_str().is_empty()
    }
}

/// Turns the captured standard output and standard error of a build into
/// diagnostic items: first the one for standard output, then the one for
/// standard error. A stream that is not UTF-8 becomes an error item holding
/// the description of the decoding failure.
pub fn classify_output(stdout: &[u8], stderr: &[u8]) -> (r: Vec<DiagnosticItem>)
    ensures
        r@.len() == 2,
        r@[0].raw_text@ == stream_text(stdout@),
        r@[0].classification == stdout_classification(stdout@),
        r@[1].raw_text@ == stream_text(stderr@),
        r@[1].classification == stderr_stream_classification(stderr@),
        !valid_utf8(stdout@) ==> is_visible_spec(r@[0]),
        !valid_utf8(stderr@) ==> is_visible_spec(r@[1]),
{
    let out_item = match decode_stream(stdout) {
        Ok(text) => DiagnosticItem { raw_text: text, classification: Classification::Success },
        Err(description) => DiagnosticItem {
            raw_text: description,
            classification: Classification::Error,
        },
    };
    let err_item = match decode_stream(stderr) {
        Ok(text) => {
            let classification = classify_stderr_text(text.as_str());
            DiagnosticItem { raw_text: text, classification }
        },
        Err(description) => DiagnosticItem {
            raw_text: description,
            classification: Classification::Error,
        },
    };
    let mut r: Vec<DiagnosticItem> = Vec::new();
    r.push(out_item);
    r.push(err_item);
    r
}

} // verus!
