use vstd::prelude::*;
use vstd::utf8::{decode_utf8, valid_utf8};

verus! {

/// What `String::from_utf8_lossy` makes of a byte sequence.
pub uninterp spec fn utf8_lossy(bytes: Seq<u8>) -> Seq<char>;

/// Calls `String::from_utf8_lossy` and takes the owned string. Its result is named
/// `utf8_lossy`; beside that, the contract states what the documentation shows: every
/// byte yields part of a character or a replacement character, so the text is empty
/// exactly when the bytes are, and valid UTF-8 decodes to the characters it encodes.
#[verifier::external_body]
fn decode_lossy(bytes: &[u8]) -> (text: String)
    ensures
        text@ == utf8_lossy(bytes@),
        (text@.len() == 0) == (bytes@.len() == 0),
        valid_utf8(bytes@) ==> text@ == decode_utf8(bytes@),
{
    String::from_utf8_lossy(bytes).into_owned()
}

/// Calls `std::str::from_utf8` and takes an owned copy of the text. As its
/// documentation says, it succeeds exactly on valid UTF-8, and the text is the
/// characters that the bytes encode.
#[verifier::external_body]
pub(crate) fn utf8_text(bytes: &[u8]) -> (text: Option<String>)
    ensures
        text is Some <==> valid_utf8(bytes@),
        text matches Some(t) ==> t@ == decode_utf8(bytes@),
{
    match std::str::from_utf8(bytes) {
        Ok(t) => Some(t.to_string()),
        Err(_) => None,
    }
}

/// The bytes before the first NUL, or all of them when there is none.
pub open spec fn until_nul(bytes: Seq<u8>) -> Seq<u8> {
    if exists|i: int| 0 <= i < bytes.len() && bytes[i] == 0 {
        bytes.take(choose|i: int| 0 <= i < bytes.len() && bytes[i] == 0 && (forall|j: int| 0 <= j < i ==> bytes[j] != 0))
    } else {
        bytes
    }
}

/// Characterises `until_nul` by its end: the prefix holds no NUL and stops at a NUL or
/// at the end.
pub proof fn lemma_until_nul(bytes: Seq<u8>, end: int)
    requires
        0 <= end <= bytes.len(),
        forall|j: int| 0 <= j < end ==> bytes[j] != 0,
        end == bytes.len() || bytes[end] == 0,
    ensures
        until_nul(bytes) == bytes.take(end),
{
    if exists|i: int| 0 <= i < bytes.len() && bytes[i] == 0 {
        let k = choose|i: int| 0 <= i < bytes.len() && bytes[i] == 0 && (forall|j: int| 0 <= j < i ==> bytes[j] != 0);
        assert(0 <= end < bytes.len() && bytes[end] == 0 && (forall|j: int| 0 <= j < end ==> bytes[j] != 0));
        assert(k == end) by {
            if k < end {
                assert(bytes[k] != 0);
            }
            if end < k {
                assert(bytes[end] != 0);
            }
        }
    } else {
        assert(end == bytes.len());
        assert(bytes.take(end) =~= bytes);
    }
}

/// Returns the index of the first NUL, or the length when there is none.
pub fn nul_position(bytes: &[u8]) -> (end: usize)
    ensures
        end <= bytes@.len(),
        forall|j: int| 0 <= j < end ==> bytes@[j] != 0,
        end == bytes@.len() || bytes@[end as int] == 0,
        until_nul(bytes@) == bytes@.take(end as int),
{
    let mut i: usize = 0;
    while i < bytes.len()
        invariant
            i <= bytes@.len(),
            forall|j: int| 0 <= j < i ==> bytes@[j] != 0,
        decreases bytes@.len() - i,
    {
        if bytes[i] == 0 {
            proof {
                lemma_until_nul(bytes@, i as int);
            }
            return i;
        }
        i = i + 1;
    }
    proof {
        lemma_until_nul(bytes@, i as int);
    }
    i
}

/// Copies the bytes before the first NUL.
pub fn bytes_until_nul(bytes: &[u8]) -> (prefix: Vec<u8>)
    ensures
        prefix@ == until_nul(bytes@),
{
    let end = nul_position(bytes);
    let mut prefix: Vec<u8> = Vec::new();
    let mut i: usize = 0;
    while i < end
        invariant
            i <= end <= bytes@.len(),
            prefix@ == bytes@.take(i as int),
        decreases end - i,
    {
        prefix.push(bytes[i]);
        i = i + 1;
        proof {
            assert(prefix@ =~= bytes@.take(i as int));
        }
    }
    prefix
}

/// The text of a NUL-terminated C string: `None` when it is empty.
pub open spec fn c_text(bytes: Seq<u8>) -> Option<Seq<char>> {
    if until_nul(bytes).len() == 0 {
        None
    } else {
        Some(utf8_lossy(until_nul(bytes)))
    }
}

/// Reads a NUL-terminated C string: `None` when it is empty, else its bytes decoded
/// with replacement of invalid sequences.
pub fn c_array_to_string(bytes: &[u8]) -> (text: Option<String>)
    ensures
        text matches Some(t) ==> c_text(bytes@) == Some(t@),
        text is None <==> c_text(bytes@) is None,
{
    let prefix = bytes_until_nul(bytes);
    if prefix.len() == 0 {
        return None;
    }
    let text = decode_lossy(prefix.as_slice());
    if text.as_str().is_empty() {
        None
    } else {
        Some(text)
    }
}

/// An error produced by the bmx-backed reader or writer, or by a byte source.
#[derive(Debug)]
pub struct Error {
    message: String,
}

impl View for Error {
    type V = Seq<char>;

    closed spec fn view(&self) -> Seq<char> {
        self.message@
    }
}

/// Calls `ToString::to_string` on an I/O error: the text that its `Display` shows.
/// The text can come from the operating system, so nothing is stated of it.
#[verifier::external_body]
fn io_error_text(error: &std::io::Error) -> String {
    error.to_string()
}

/// An I/O error becomes an error whose message is the I/O error's text.
impl From<std::io::Error> for Error {
    fn from(error: std::io::Error) -> (converted: Self) {
        Error { message: io_error_text(&error) }
    }
}

/// The text of an I/O error depends on the operating system, so the conversion
/// promises no particular message.
impl vstd::std_specs::convert::FromSpecImpl<std::io::Error> for Error {
    open spec fn obeys_from_spec() -> bool {
        false
    }

    open spec fn from_spec(v: std::io::Error) -> Self {
        vstd::pervasive::arbitrary()
    }
}

/// The message given to a shim failure that reports no text of its own.
pub open spec fn shim_fallback_message() -> Seq<char> {
    "bmx operation failed"@
}

/// The message of a shim failure whose error buffer holds `bytes`.
pub open spec fn shim_message(bytes: Seq<u8>) -> Seq<char> {
    let text = utf8_lossy(until_nul(bytes));
    if text.len() == 0 {
        shim_fallback_message()
    } else {
        text
    }
}

impl Error {
    pub fn new(message: String) -> (error: Self)
        ensures
            error@ == message@,
    {
        Error { message }
    }

    pub fn from_str(message: &str) -> (error: Self)
        ensures
            error@ == message@,
    {
        Error { message: message.to_owned() }
    }

    /// The error that the shim reported in its NUL-terminated message buffer.
    pub fn from_shim(message: &[u8]) -> (error: Self)
        ensures
            error@ == shim_message(message@),
    {
        let prefix = bytes_until_nul(message);
        let text = decode_lossy(prefix.as_slice());
        if text.as_str().is_empty() {
            Error::from_str("bmx operation failed")
        } else {
            Error { message: text }
        }
    }

    pub fn message(&self) -> (text: &str)
        ensures
            text@ == self@,
    {
        self.message.as_str()
    }

    /// Whether the message says that something failed; the Python binding raises such
    /// errors from opening a clip as I/O errors.
    pub fn is_failure_report(&self) -> (failed: bool)
        ensures
            failed == occurs_in(self@, "failed"@),
    {
        text_contains(self.message.as_str(), "failed")
    }
}

/// Whether `word` stands in `text` starting at `at`.
pub open spec fn occurs_at(text: Seq<char>, word: Seq<char>, at: int) -> bool {
    &&& 0 <= at
    &&& at + word.len() <= text.len()
    &&& text.subrange(at, at + word.len()) == word
}

/// Whether `word` stands somewhere in `text`.
pub open spec fn occurs_in(text: Seq<char>, word: Seq<char>) -> bool {
    exists|at: int| occurs_at(text, word, at)
}

fn matches_at(text: &str, word: &str, at: usize) -> (same: bool)
    requires
        at + word@.len() <= text@.len(),
    ensures
        same == occurs_at(text@, word@, at as int),
{
    let n = text.unicode_len();
    let m = word.unicode_len();
    let mut j: usize = 0;
    while j < m
        invariant
            j <= m,
            m == word@.len(),
            n == text@.len(),
            at + m <= n,
            forall|q: int| 0 <= q < j ==> text@[at + q] == word@[q],
        decreases m - j,
    {
        if text.get_char(at + j) != word.get_char(j) {
            assert(text@.subrange(at as int, at + m)[j as int] != word@[j as int]);
            return false;
        }
        j = j + 1;
    }
    assert(text@.subrange(at as int, at + m) =~= word@);
    true
}

/// Whether `word` stands somewhere in `text`.
pub fn text_contains(text: &str, word: &str) -> (found: bool)
    ensures
        found == occurs_in(text@, word@),
{
    let n = text.unicode_len();
    let m = word.unicode_len();
    if m > n {
        assert forall|at: int| !occurs_at(text@, word@, at) by {}
        return false;
    }
    let last = n - m;
    let mut at: usize = 0;
    loop
        invariant
            m <= n,
            n == text@.len(),
            m == word@.len(),
            last == n - m,
            at <= last,
            forall|k: int| 0 <= k < at ==> !occurs_at(text@, word@, k),
        decreases last - at,
    {
        if matches_at(text, word, at) {
            return true;
        }
        if at == last {
            assert forall|k: int| !occurs_at(text@, word@, k) by {
                if 0 <= k < at {
                }
            }
            return false;
        }
        at = at + 1;
    }
}

/// A shim failure never yields an empty message: text before the NUL is kept, and an
/// empty buffer gives the fallback message.
pub proof fn lemma_shim_message_nonempty(bytes: Seq<u8>)
    ensures
        shim_message(bytes).len() > 0,
{
    reveal_strlit("bmx operation failed");
}

} // verus!
