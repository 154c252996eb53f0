//! Clipboard text conversion between GTK and Wayland, and the stored Wayland selection.
use crate::text::{chars_of, push_char, same_text};
use vstd::prelude::*;

verus! {

/// The text with every `\r\n` pair, read left to right, replaced by `\n`.
pub open spec fn crlf_to_lf(s: Seq<char>) -> Seq<char>
    decreases s.len(),
{
    if s.len() == 0 {
        Seq::empty()
    } else if s.len() >= 2 && s[0] == '\r' && s[1] == '\n' {
        seq!['\n'] + crlf_to_lf(s.skip(2))
    } else {
        seq![s[0]] + crlf_to_lf(s.skip(1))
    }
}

/// The text with every `\r` replaced by `\n`.
pub open spec fn cr_to_lf(s: Seq<char>) -> Seq<char> {
    s.map_values(|c: char| if c == '\r' { '\n' } else { c })
}

/// Unix line endings: `\r\n` pairs first, then lone `\r`, become `\n`.
pub open spec fn normalized_line_endings(s: Seq<char>) -> Seq<char> {
    cr_to_lf(crlf_to_lf(s))
}

/// The MIME types that carry plain text.
pub open spec fn is_text_mime(m: Seq<char>) -> bool {
    m == "text/plain"@ || m == "text/plain;charset=utf-8"@ || m == "UTF8_STRING"@ || m == "TEXT"@
        || m == "STRING"@
}

/// The canonical form of a MIME type: the plain-text types map to
/// `text/plain;charset=utf-8`, every other type stays as it is.
pub open spec fn canonical_mime(m: Seq<char>) -> Seq<char> {
    if m == "UTF8_STRING"@ || m == "TEXT"@ || m == "STRING"@ || m == "text/plain"@ {
        "text/plain;charset=utf-8"@
    } else {
        m
    }
}

fn string_from_chars(v: &Vec<char>) -> (s: String)
    ensures
        s@ == v@,
{
    let mut s = String::new();
    let mut i: usize = 0;
    while i < v.len()
        invariant
            i <= v@.len(),
            s@ == v@.take(i as int),
        decreases v@.len() - i,
    {
        push_char(&mut s, v[i]);
        i = i + 1;
        assert(s@ =~= v@.take(i as int));
    }
    assert(v@.take(v@.len() as int) =~= v@);
    s
}

fn crlf_to_lf_chars(v: &Vec<char>) -> (out: Vec<char>)
    ensures
        out@ == crlf_to_lf(v@),
{
    let mut out: Vec<char> = Vec::new();
    let mut i: usize = 0;
    assert(v@.skip(0) =~= v@);
    while i < v.len()
        invariant
            i <= v@.len(),
            out@ + crlf_to_lf(v@.skip(i as int)) == crlf_to_lf(v@),
        decreases v@.len() - i,
    {
        let ghost rest = v@.skip(i as int);
        if i + 1 < v.len() && v[i] == '\r' && v[i + 1] == '\n' {
            out.push('\n');
            assert(rest.skip(2) =~= v@.skip(i + 2));
            i = i + 2;
        } else {
            out.push(v[i]);
            assert(rest.skip(1) =~= v@.skip(i + 1));
            i = i + 1;
        }
        assert(out@ + crlf_to_lf(v@.skip(i as int)) =~= crlf_to_lf(v@));
    }
    assert(v@.skip(i as int) =~= Seq::<char>::empty());
    assert(out@ =~= crlf_to_lf(v@));
    out
}

/// Converts clipboard text between GTK and Wayland conventions.
pub struct FormatConverter;

impl FormatConverter {
    /// GTK text to Wayland text: `\r\n` becomes `\n`.
    pub fn gtk_to_wayland_text(text: &str) -> (s: String)
        ensures
            s@ == crlf_to_lf(text@),
    {
        let chars = chars_of(text);
        let converted = crlf_to_lf_chars(&chars);
        string_from_chars(&converted)
    }

    /// Wayland text to GTK text: kept as it is (GTK reads both line endings).
    pub fn wayland_to_gtk_text(text: &str) -> (s: String)
        ensures
            s@ == text@,
    {
        let chars = chars_of(text);
        string_from_chars(&chars)
    }

    /// Unix line endings: `\r\n`, then any remaining `\r`, become `\n`.
    pub fn normalize_line_endings(text: &str) -> (s: String)
        ensures
            s@ == normalized_line_endings(text@),
            forall|i: int| 0 <= i < s@.len() ==> s@[i] != '\r',
    {
        let chars = chars_of(text);
        let mut v = crlf_to_lf_chars(&chars);
        let ghost pairs_done = v@;
        let mut i: usize = 0;
        while i < v.len()
            invariant
                i <= v@.len(),
                v@.len() == pairs_done.len(),
                forall|j: int| 0 <= j < i ==> v@[j] == cr_to_lf(pairs_done)[j],
                forall|j: int| i <= j < v@.len() ==> v@[j] == pairs_done[j],
            decreases v@.len() - i,
        {
            if v[i] == '\r' {
                v.set(i, '\n');
            }
            i = i + 1;
        }
        assert(v@ =~= cr_to_lf(pairs_done));
        string_from_chars(&v)
    }

    /// Whether a MIME type carries plain text.
    pub fn is_text_mime_type(mime_type: &str) -> (r: bool)
        ensures
            r == is_text_mime(mime_type@),
    {
        same_text(mime_type, "text/plain") || same_text(mime_type, "text/plain;charset=utf-8")
            || same_text(mime_type, "UTF8_STRING") || same_text(mime_type, "TEXT") || same_text(
            mime_type,
            "STRING",
        )
    }

    /// The canonical MIME type of text.
    pub fn canonical_text_mime_type() -> (m: &'static str)
        ensures
            m@ == "text/plain;charset=utf-8"@,
    {
        "text/plain;charset=utf-8"
    }

    /// The canonical form of a MIME type; types it does not know are returned unchanged.
    pub fn map_mime_type<'a>(mime_type: &'a str) -> (m: &'a str)
        ensures
            m@ == canonical_mime(mime_type@),
    {
        if same_text(mime_type, "UTF8_STRING") || same_text(mime_type, "TEXT") || same_text(
            mime_type,
            "STRING",
        ) || same_text(mime_type, "text/plain") {
            "text/plain;charset=utf-8"
        } else {
            mime_type
        }
    }
}

/// A text without `\r` is left unchanged by the `\r\n` replacement.
proof fn lemma_crlf_to_lf_without_cr(s: Seq<char>)
    requires
        forall|i: int| 0 <= i < s.len() ==> s[i] != '\r',
    ensures
        crlf_to_lf(s) == s,
    decreases s.len(),
{
    if s.len() > 0 {
        lemma_crlf_to_lf_without_cr(s.skip(1));
        assert(seq![s[0]] + s.skip(1) =~= s);
    }
}

/// Normalizing line endings twice gives what normalizing once gives.
pub proof fn lemma_normalize_line_endings_idempotent(s: Seq<char>)
    ensures
        normalized_line_endings(normalized_line_endings(s)) == normalized_line_endings(s),
{
    let n = normalized_line_endings(s);
    assert forall|i: int| 0 <= i < n.len() implies n[i] != '\r' by {}
    lemma_crlf_to_lf_without_cr(n);
    assert(cr_to_lf(n) =~= n);
}

/// How many times `c` occurs in `s`.
pub open spec fn count_char(s: Seq<char>, c: char) -> nat
    decreases s.len(),
{
    if s.len() == 0 {
        0
    } else {
        (if s[0] == c { 1nat } else { 0nat }) + count_char(s.skip(1), c)
    }
}

/// How many `\r` in `s` are directly followed by `\n`.
pub open spec fn crlf_count(s: Seq<char>) -> nat
    decreases s.len(),
{
    if s.len() < 2 {
        0
    } else {
        (if s[0] == '\r' && s[1] == '\n' { 1nat } else { 0nat }) + crlf_count(s.skip(1))
    }
}

proof fn lemma_count_char_prepend(x: char, t: Seq<char>, c: char)
    ensures
        count_char(seq![x] + t, c) == (if x == c { 1nat } else { 0nat }) + count_char(t, c),
{
    assert((seq![x] + t).skip(1) =~= t);
}

proof fn lemma_count_char_absent(s: Seq<char>, c: char)
    requires
        count_char(s, c) == 0,
    ensures
        forall|i: int| 0 <= i < s.len() ==> s[i] != c,
    decreases s.len(),
{
    if s.len() > 0 {
        lemma_count_char_absent(s.skip(1), c);
        assert forall|i: int| 0 <= i < s.len() implies s[i] != c by {
            if i > 0 {
                assert(s[i] == s.skip(1)[i - 1]);
            }
        }
    }
}

/// What replacing the `\r\n` pairs does to the length and to the counts of `\n` and `\r`.
proof fn lemma_crlf_to_lf_counts(s: Seq<char>)
    ensures
        crlf_to_lf(s).len() + crlf_count(s) == s.len(),
        count_char(crlf_to_lf(s), '\n') == count_char(s, '\n'),
        count_char(crlf_to_lf(s), '\r') + crlf_count(s) == count_char(s, '\r'),
    decreases s.len(),
{
    if s.len() == 0 {
    } else if s.len() >= 2 && s[0] == '\r' && s[1] == '\n' {
        let rest = s.skip(2);
        lemma_crlf_to_lf_counts(rest);
        lemma_count_char_prepend('\n', crlf_to_lf(rest), '\n');
        lemma_count_char_prepend('\n', crlf_to_lf(rest), '\r');
        assert(s.skip(1).skip(1) =~= rest);
        assert(s.skip(1)[0] == '\n');
        assert(count_char(s.skip(1), '\n') == 1 + count_char(rest, '\n'));
        assert(count_char(s.skip(1), '\r') == count_char(rest, '\r'));
        if s.skip(1).len() >= 2 {
            assert(crlf_count(s.skip(1)) == crlf_count(rest));
        } else {
            assert(rest.len() == 0);
        }
    } else {
        let rest = s.skip(1);
        lemma_crlf_to_lf_counts(rest);
        lemma_count_char_prepend(s[0], crlf_to_lf(rest), '\n');
        lemma_count_char_prepend(s[0], crlf_to_lf(rest), '\r');
        if s.len() < 2 {
            assert(rest.len() < 2);
        }
    }
}

/// What replacing every `\r` by `\n` does to the counts of `\n` and `\r`.
proof fn lemma_cr_to_lf_counts(t: Seq<char>)
    ensures
        cr_to_lf(t).len() == t.len(),
        count_char(cr_to_lf(t), '\n') == count_char(t, '\n') + count_char(t, '\r'),
        count_char(cr_to_lf(t), '\r') == 0,
    decreases t.len(),
{
    if t.len() > 0 {
        lemma_cr_to_lf_counts(t.skip(1));
        assert(cr_to_lf(t).skip(1) =~= cr_to_lf(t.skip(1)));
    }
}

/// Normalizing line endings removes one character for each `\r\n` pair, keeps
/// every `\n`, turns every lone `\r` into a `\n`, leaves no `\r`, and leaves a
/// text without `\r` unchanged.
pub proof fn lemma_normalize_line_endings_counts(s: Seq<char>)
    ensures
        normalized_line_endings(s).len() == s.len() - crlf_count(s),
        count_char(normalized_line_endings(s), '\n') == count_char(s, '\n') + (count_char(s, '\r')
            - crlf_count(s)),
        count_char(normalized_line_endings(s), '\r') == 0,
        count_char(s, '\r') == 0 ==> normalized_line_endings(s) == s,
{
    lemma_crlf_to_lf_counts(s);
    lemma_cr_to_lf_counts(crlf_to_lf(s));
    if count_char(s, '\r') == 0 {
        lemma_count_char_absent(s, '\r');
        lemma_crlf_to_lf_without_cr(s);
        assert(cr_to_lf(s) =~= s);
    }
}

/// Every plain-text MIME type maps to `text/plain;charset=utf-8`, and every other
/// type is kept as it is.
pub proof fn lemma_text_mime_types_map_to_canonical(m: Seq<char>)
    ensures
        is_text_mime(m) ==> canonical_mime(m) == "text/plain;charset=utf-8"@,
        !is_text_mime(m) ==> canonical_mime(m) == m,
{
}

/// Why the selection could not be read or stored.
#[derive(Debug, Clone, Copy, PartialEq, Eq, Structural)]
pub enum WaylandSelectionError {
    LockError,
}

impl WaylandSelectionError {
    /// The message of the error.
    pub fn message(&self) -> (m: &'static str)
        ensures
            m@ == "Failed to acquire lock"@,
    {
        match self {
            WaylandSelectionError::LockError => "Failed to acquire lock",
        }
    }
}

/// The text that Wayland clients currently offer as selection.
pub struct WaylandSelectionHandler {
    current_selection: Option<String>,
}

/// The selection text, if any.
pub open spec fn selection_view(s: Option<String>) -> Option<Seq<char>> {
    match s {
        Some(t) => Some(t@),
        None => None,
    }
}

impl View for WaylandSelectionHandler {
    type V = Option<Seq<char>>;

    closed spec fn view(&self) -> Option<Seq<char>> {
        selection_view(self.current_selection)
    }
}

impl WaylandSelectionHandler {
    /// A handler without selection.
    pub fn new() -> (h: Self)
        ensures
            h@ == None::<Seq<char>>,
    {
        WaylandSelectionHandler { current_selection: None }
    }

    /// The current selection text.
    pub fn get_selection(&self) -> (r: Result<Option<String>, WaylandSelectionError>)
        ensures
            r matches Ok(v) && selection_view(v) == self@,
    {
        match &self.current_selection {
            Some(text) => Ok(Some(text.clone())),
            None => Ok(None),
        }
    }

    /// Stores new selection text.
    pub fn set_selection(&mut self, content: String) -> (r: Result<(), WaylandSelectionError>)
        ensures
            r is Ok,
            final(self)@ == Some(content@),
    {
        self.current_selection = Some(content);
        Ok(())
    }
}

/// Reading the selection after storing text gives that text: `h` is a handler as
/// `set_selection(content)` leaves it, and `r` is what `get_selection` may return for it.
pub proof fn lemma_selection_read_after_write(
    h: WaylandSelectionHandler,
    content: Seq<char>,
    r: Result<Option<String>, WaylandSelectionError>,
)
    requires
        h@ == Some(content),
        r matches Ok(v) && selection_view(v) == h@,
    ensures
        r matches Ok(Some(t)) && t@ == content,
{
}

} // verus!
