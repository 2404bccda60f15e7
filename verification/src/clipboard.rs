//! What the viewer shows for the clipboard's text.
//!
//! Text copied from a terminal can carry control characters and ANSI escape
//! sequences that the text field handles badly, so the viewer looks at the
//! first bytes of the text and shows a placeholder where it finds them.

use vstd::prelude::*;

use crate::text::{digit_char, digit_value, hex_digit, lemma_digit_reads_back, string_push};

verus! {

/// How many bytes of the clipboard text are examined at most.
pub const EXAMINED_PREFIX_LIMIT: usize = 20;

/// A byte that marks terminal output: an ASCII control character other than
/// tab, line feed and carriage return.
pub open spec fn is_terminal_control(b: u8) -> bool {
    b < 32 && b != 9 && b != 10 && b != 13
}

/// Whether `s` holds a byte that marks terminal output.
pub open spec fn has_control_chars(s: Seq<u8>) -> bool {
    exists|i: int| 0 <= i < s.len() && is_terminal_control(#[trigger] s[i])
}

/// Whether `s` holds the start of an ANSI escape sequence: ESC followed by `[`.
pub open spec fn has_escape_sequence(s: Seq<u8>) -> bool {
    exists|i: int| 0 <= i && i + 1 < s.len() && #[trigger] s[i] == 0x1b && s[i + 1] == 0x5b
}

/// Whether `s` looks like text copied from a terminal.
pub open spec fn looks_like_terminal_output(s: Seq<u8>) -> bool {
    has_control_chars(s) || has_escape_sequence(s)
}

/// How many bytes are examined of a text `utf16_len` UTF-16 units long.
pub open spec fn examined_len(utf16_len: nat) -> nat {
    if utf16_len < 20 {
        utf16_len
    } else {
        20
    }
}

/// Whether clipboard text may be put in the text field as it is.
///
/// `utf16_len` is the text's length in UTF-16 units and `utf8` its UTF-8
/// bytes, `None` where the system gave no UTF-8 form. Empty text is shown;
/// text without a UTF-8 form is not; otherwise the text is shown unless its
/// first `examined_len(utf16_len)` bytes look like terminal output.
pub open spec fn safe_to_display(utf16_len: nat, utf8: Option<Seq<u8>>) -> bool {
    if utf16_len == 0 {
        true
    } else {
        match utf8 {
            None => false,
            Some(bytes) => !looks_like_terminal_output(bytes.take(examined_len(utf16_len) as int)),
        }
    }
}

/// The number of bytes to examine of a text `utf16_len` UTF-16 units long:
/// the length, but at most `EXAMINED_PREFIX_LIMIT`.
pub fn examined_byte_count(utf16_len: usize) -> (n: usize)
    ensures
        n == examined_len(utf16_len as nat),
{
    if utf16_len < EXAMINED_PREFIX_LIMIT {
        utf16_len
    } else {
        EXAMINED_PREFIX_LIMIT
    }
}

/// Whether `bytes` holds a byte that marks terminal output.
pub fn contains_control_chars(bytes: &[u8]) -> (r: bool)
    ensures
        r == has_control_chars(bytes@),
{
    let mut i: usize = 0;
    while i < bytes.len()
        invariant
            i <= bytes@.len(),
            forall|j: int| 0 <= j < i ==> !is_terminal_control(#[trigger] bytes@[j]),
        decreases bytes@.len() - i,
    {
        let b = bytes[i];
        if b < 32 && b != 9 && b != 10 && b != 13 {
            assert(is_terminal_control(bytes@[i as int]));
            return true;
        }
        i = i + 1;
    }
    false
}

/// Whether `bytes` holds ESC followed by `[`.
pub fn contains_escape_sequence(bytes: &[u8]) -> (r: bool)
    ensures
        r == has_escape_sequence(bytes@),
{
    let mut i: usize = 1;
    while i < bytes.len()
        invariant
            1 <= i,
            forall|j: int| 0 <= j < i - 1 && j + 1 < bytes@.len() ==> !(#[trigger] bytes@[j] == 0x1b && bytes@[j + 1] == 0x5b),
        decreases bytes@.len() - i,
    {
        if bytes[i - 1] == 0x1b && bytes[i] == 0x5b {
            assert(bytes@[i - 1] == 0x1b && bytes@[(i - 1) + 1] == 0x5b);
            return true;
        }
        i = i + 1;
    }
    false
}

/// Whether clipboard text may be put in the text field as it is; see
/// `safe_to_display`. Of `utf8` only the first `examined_byte_count`
/// bytes are read, and the caller hands over at least that many.
pub fn is_safe_to_display(utf16_len: usize, utf8: Option<&[u8]>) -> (r: bool)
    requires
        utf8 matches Some(bytes) ==> bytes@.len() >= examined_len(utf16_len as nat),
    ensures
        r == safe_to_display(utf16_len as nat, match utf8 { Some(b) => Some(b@), None => None }),
{
    if utf16_len == 0 {
        return true;
    }
    match utf8 {
        None => false,
        Some(bytes) => {
            let n = examined_byte_count(utf16_len);
            let prefix = &bytes[0..n];
            assert(prefix@ =~= bytes@.take(n as int));
            !(contains_control_chars(prefix) || contains_escape_sequence(prefix))
        },
    }
}

/// What the clipboard offered as text, as far as the viewer examines it.
pub struct TextSample {
    /// The text's length in UTF-16 units.
    pub utf16_len: usize,
    /// The first bytes of the text's UTF-8 form (at least
    /// `examined_byte_count(utf16_len)` of them), or `None` where the system
    /// gave no UTF-8 form.
    pub utf8_prefix: Option<Vec<u8>>,
}

impl TextSample {
    /// The UTF-8 bytes as a sequence, where there are any.
    pub open spec fn utf8_view(&self) -> Option<Seq<u8>> {
        match self.utf8_prefix {
            Some(b) => Some(b@),
            None => None,
        }
    }

    /// Whether enough UTF-8 bytes were handed over to be examined.
    pub open spec fn well_formed(&self) -> bool {
        self.utf8_prefix matches Some(b) ==> b@.len() >= examined_len(self.utf16_len as nat)
    }
}

/// What the text field shows after the clipboard changed.
#[derive(Clone, Copy, Debug, PartialEq, Eq, Structural)]
pub enum DisplayChoice {
    /// The clipboard's text itself.
    ShowText,
    /// A placeholder in place of text that looks like terminal output.
    ShowTerminalPlaceholder,
    /// A notice that the clipboard holds no text.
    ShowNonTextNotice,
}

/// The choice for the clipboard's content: `None` where it holds no text.
pub open spec fn display_choice(sample: Option<(nat, Option<Seq<u8>>)>) -> DisplayChoice {
    match sample {
        None => DisplayChoice::ShowNonTextNotice,
        Some((len, utf8)) => if safe_to_display(len, utf8) {
            DisplayChoice::ShowText
        } else {
            DisplayChoice::ShowTerminalPlaceholder
        },
    }
}

/// The sample as plain values, for `display_choice`.
pub open spec fn sample_view(sample: Option<TextSample>) -> Option<(nat, Option<Seq<u8>>)> {
    match sample {
        None => None,
        Some(t) => Some((t.utf16_len as nat, t.utf8_view())),
    }
}

/// Decides what the text field shows for the clipboard's text (`None`
/// where the clipboard holds no text).
pub fn choose_display(sample: &Option<TextSample>) -> (c: DisplayChoice)
    requires
        sample matches Some(t) ==> t.well_formed(),
    ensures
        c == display_choice(sample_view(*sample)),
{
    match sample {
        None => DisplayChoice::ShowNonTextNotice,
        Some(t) => {
            let utf8: Option<&[u8]> = match &t.utf8_prefix {
                Some(b) => Some(b.as_slice()),
                None => None,
            };
            if is_safe_to_display(t.utf16_len, utf8) {
                DisplayChoice::ShowText
            } else {
                DisplayChoice::ShowTerminalPlaceholder
            }
        },
    }
}

impl DisplayChoice {
    /// The fixed text shown for this choice; `None` where the clipboard's own
    /// text is shown.
    pub fn fixed_text(&self) -> (r: Option<&'static str>)
        ensures
            match *self {
                DisplayChoice::ShowText => r is None,
                DisplayChoice::ShowTerminalPlaceholder => r matches Some(t) && t@
                    == "[Terminal text - copied but not displayed for stability]"@,
                DisplayChoice::ShowNonTextNotice => r matches Some(t) && t@
                    == "Clipboard contains non-text content"@,
            },
    {
        match self {
            DisplayChoice::ShowText => None,
            DisplayChoice::ShowTerminalPlaceholder => Some(
                "[Terminal text - copied but not displayed for stability]",
            ),
            DisplayChoice::ShowNonTextNotice => Some("Clipboard contains non-text content"),
        }
    }
}

/// Which bytes mark terminal output: exactly the bytes below 32 other than
/// tab (9), line feed (10) and carriage return (13); no byte of 32 or more,
/// such as those of a multi-byte UTF-8 character, ever does.
pub proof fn law_terminal_control_bytes(b: u8)
    ensures
        b >= 32 ==> !is_terminal_control(b),
        b == 9 || b == 10 || b == 13 ==> !is_terminal_control(b),
        b < 32 && b != 9 && b != 10 && b != 13 ==> is_terminal_control(b),
{
}

/// A control byte is found wherever it stands: the bytes of a concatenation
/// hold one exactly when either part does, and a single byte holds one
/// exactly when it is below 32 and not tab, line feed or carriage return.
pub proof fn law_control_chars_anywhere(a: Seq<u8>, b: Seq<u8>, x: u8)
    ensures
        !has_control_chars(Seq::<u8>::empty()),
        has_control_chars(seq![x]) == (x < 32 && x != 9 && x != 10 && x != 13),
        has_control_chars(a + b) == (has_control_chars(a) || has_control_chars(b)),
{
    let s = a + b;
    if has_control_chars(s) {
        let i = choose|i: int| 0 <= i < s.len() && is_terminal_control(#[trigger] s[i]);
        if i < a.len() {
            assert(a[i] == s[i]);
        } else {
            assert(b[i - a.len()] == s[i]);
        }
    }
    if has_control_chars(a) {
        let i = choose|i: int| 0 <= i < a.len() && is_terminal_control(#[trigger] a[i]);
        assert(s[i] == a[i]);
    }
    if has_control_chars(b) {
        let i = choose|i: int| 0 <= i < b.len() && is_terminal_control(#[trigger] b[i]);
        assert(s[a.len() + i] == b[i]);
    }
    if x < 32 && x != 9 && x != 10 && x != 13 {
        assert(seq![x][0] == x);
    }
}

/// An escape sequence is found at every offset: putting a byte `x` in front
/// of `s` adds one exactly when `x` is ESC and `s` starts with `[`, and no
/// sequence of fewer than two bytes holds one.
pub proof fn law_escape_sequence_anywhere(x: u8, s: Seq<u8>)
    ensures
        !has_escape_sequence(Seq::<u8>::empty()),
        !has_escape_sequence(seq![x]),
        has_escape_sequence(seq![x] + s) == (has_escape_sequence(s) || (x == 0x1b && s.len() > 0
            && s[0] == 0x5b)),
{
    let t = seq![x] + s;
    if has_escape_sequence(t) {
        let i = choose|i: int| 0 <= i && i + 1 < t.len() && #[trigger] t[i] == 0x1b && t[i + 1] == 0x5b;
        if i > 0 {
            assert(s[i - 1] == t[i] && s[i] == t[i + 1]);
        } else {
            assert(t[0] == x && t[1] == s[0]);
        }
    }
    if has_escape_sequence(s) {
        let i = choose|i: int| 0 <= i && i + 1 < s.len() && #[trigger] s[i] == 0x1b && s[i + 1] == 0x5b;
        assert(t[i + 1] == s[i] && t[i + 2] == s[i + 1]);
    }
    if x == 0x1b && s.len() > 0 && s[0] == 0x5b {
        assert(t[0] == 0x1b && t[1] == 0x5b);
    }
}

/// What the text field shows for clipboard text of `len` UTF-16 units with
/// UTF-8 bytes `bytes`: the text itself exactly when it is empty or when none
/// of its first `min(len, 20)` bytes is a control byte below 32 other than
/// tab, line feed and carriage return, and no ESC in them is followed by `[`
/// in them; otherwise the terminal placeholder, whatever the length.
pub proof fn law_text_shown_iff_examined_bytes_clean(len: nat, bytes: Seq<u8>)
    requires
        bytes.len() >= (if len < 20 { len } else { 20 }),
    ensures
        (display_choice(Some((len, Some(bytes)))) == DisplayChoice::ShowText) <==> (len == 0 || (
        (forall|i: int|
            0 <= i < len && i < 20 ==> !(#[trigger] bytes[i] < 32 && bytes[i] != 9 && bytes[i] != 10
                && bytes[i] != 13)) && (forall|i: int|
            0 <= i && i + 1 < len && i + 1 < 20 ==> !(#[trigger] bytes[i] == 0x1b && bytes[i + 1]
                == 0x5b)))),
        display_choice(Some((len, Some(bytes)))) == DisplayChoice::ShowText || display_choice(
            Some((len, Some(bytes))),
        ) == DisplayChoice::ShowTerminalPlaceholder,
{
    let n: int = if len < 20 { len as int } else { 20 };
    assert(examined_len(len) == n);
    let p = bytes.take(n);
    let clean_controls = forall|i: int|
        0 <= i < len && i < 20 ==> !(#[trigger] bytes[i] < 32 && bytes[i] != 9 && bytes[i] != 10
            && bytes[i] != 13);
    let clean_escapes = forall|i: int|
        0 <= i && i + 1 < len && i + 1 < 20 ==> !(#[trigger] bytes[i] == 0x1b && bytes[i + 1]
            == 0x5b);
    if len > 0 {
        if has_control_chars(p) {
            let i = choose|i: int| 0 <= i < p.len() && is_terminal_control(#[trigger] p[i]);
            assert(p[i] == bytes[i]);
            assert(!clean_controls);
        }
        if has_escape_sequence(p) {
            let i = choose|i: int| 0 <= i && i + 1 < p.len() && #[trigger] p[i] == 0x1b && p[i + 1] == 0x5b;
            assert(p[i] == bytes[i] && p[i + 1] == bytes[i + 1]);
            assert(!clean_escapes);
        }
        if !clean_controls {
            let i = choose|i: int|
                !(0 <= i < len && i < 20 ==> !(#[trigger] bytes[i] < 32 && bytes[i] != 9 && bytes[i] != 10
                    && bytes[i] != 13));
            assert(p[i] == bytes[i]);
            assert(is_terminal_control(p[i]));
            assert(has_control_chars(p));
        }
        if !clean_escapes {
            let i = choose|i: int|
                !(0 <= i && i + 1 < len && i + 1 < 20 ==> !(#[trigger] bytes[i] == 0x1b && bytes[i + 1]
                    == 0x5b));
            assert(p[i] == bytes[i] && p[i + 1] == bytes[i + 1]);
            assert(has_escape_sequence(p));
        }
    }
}

/// Non-empty clipboard text without a UTF-8 form gets the terminal
/// placeholder, and a clipboard without text gets the non-text notice.
pub proof fn law_text_without_utf8_or_no_text(len: nat)
    ensures
        len > 0 ==> display_choice(Some((len, None))) == DisplayChoice::ShowTerminalPlaceholder,
        display_choice(Some((0, None))) == DisplayChoice::ShowText,
        display_choice(None) == DisplayChoice::ShowNonTextNotice,
{
}

/// Only the examined bytes decide: two texts of the same length whose first
/// `examined_len` bytes agree get the same decision.
pub proof fn law_only_examined_bytes_decide(utf16_len: nat, a: Seq<u8>, b: Seq<u8>)
    requires
        a.len() >= examined_len(utf16_len),
        b.len() >= examined_len(utf16_len),
        a.take(examined_len(utf16_len) as int) == b.take(examined_len(utf16_len) as int),
    ensures
        safe_to_display(utf16_len, Some(a)) == safe_to_display(utf16_len, Some(b)),
{
}

/// Text that nowhere looks like terminal output is shown.
pub proof fn law_plain_text_is_shown(utf16_len: nat, bytes: Seq<u8>)
    requires
        bytes.len() >= examined_len(utf16_len),
        !looks_like_terminal_output(bytes),
    ensures
        safe_to_display(utf16_len, Some(bytes)),
{
    let p = bytes.take(examined_len(utf16_len) as int);
    assert forall|i: int| 0 <= i < p.len() implies !is_terminal_control(#[trigger] p[i]) by {
        assert(p[i] == bytes[i]);
    }
    assert forall|i: int| 0 <= i && i + 1 < p.len() implies !(#[trigger] p[i] == 0x1b && p[i + 1] == 0x5b) by {
        assert(p[i] == bytes[i]);
        assert(p[i + 1] == bytes[i + 1]);
    }
}

/// A byte in two lower-case hexadecimal digits.
pub open spec fn hex_pair(b: u8) -> Seq<char> {
    seq![hex_digit((b / 16) as int), hex_digit((b % 16) as int)]
}

/// A byte in two lower-case hexadecimal digits, as logged for the examined
/// bytes.
pub fn hex_byte(b: u8) -> (r: String)
    ensures
        r@ == hex_pair(b),
{
    let mut s = String::new();
    string_push(&mut s, digit_char(b / 16));
    string_push(&mut s, digit_char(b % 16));
    assert(s@ =~= hex_pair(b));
    s
}

/// Each byte in two lower-case hexadecimal digits, in order.
pub fn hex_bytes(bytes: &[u8]) -> (r: Vec<String>)
    ensures
        r.len() == bytes@.len(),
        forall|i: int| 0 <= i < bytes@.len() ==> (#[trigger] r@[i])@ == hex_pair(bytes@[i]),
{
    let mut r: Vec<String> = Vec::new();
    let mut i: usize = 0;
    while i < bytes.len()
        invariant
            i <= bytes@.len(),
            r.len() == i,
            forall|j: int| 0 <= j < i ==> (#[trigger] r@[j])@ == hex_pair(bytes@[j]),
        decreases bytes@.len() - i,
    {
        r.push(hex_byte(bytes[i]));
        i = i + 1;
    }
    r
}

/// The hexadecimal form of a byte reads back as the byte, so the logged form
/// of the examined bytes shows them exactly.
pub proof fn law_hex_pair_reads_back(b: u8)
    ensures
        hex_pair(b).len() == 2,
        digit_value(hex_pair(b)[0]) * 16 + digit_value(hex_pair(b)[1]) == b,
{
    lemma_digit_reads_back((b / 16) as int);
    lemma_digit_reads_back((b % 16) as int);
}

} // verus!
