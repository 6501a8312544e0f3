//! A scan of catalog text for what parser and formatter cannot cope with.
//!
//! `fluent` aborts on a few inputs:
//!
//! - In a string literal, `\u` or `\U` with too few hex digits, followed by a
//!   character of several bytes: the parser cuts that character in two when
//!   it reports the escape.
//! - A number literal with twenty digits or more after the dot, where it is
//!   selected on or handed to a term: the plural rules scale it by a power of
//!   ten that overflows.
//! - The formatter gives up after a hundred placeables and then writes the
//!   name of the placeable it was in. A placeable that holds nothing but
//!   another placeable has no name, nor has a selection on a literal. This
//!   needs the hundred-and-first placeable to be met inside such a placeable,
//!   so it needs a placeable or a reference there, and, in the whole text,
//!   either a reference or more than a hundred placeables.
//! - Parser and formatter descend once for each placeable or call that is
//!   open inside another, so nesting them thousands deep exhausts the stack.
//!   How deep is too deep is the machine's to say; the scan lets through
//!   what nests no deeper than [`MAX_DEPTH`].
//!
//! The scan follows the text byte by byte as the parser does from the head of
//! each entry: through pattern text, expressions, variant keys and string
//! literals, with the placeables and calls that are open. Comment lines, and
//! what follows them up to the next entry, are passed over. Where a text is
//! not grammatical the parser stops reading the entry and the scan reads on,
//! so such a text may be refused here for what the parser never gets to see;
//! it would not have been compiled anyway.
//!
//! What the scan refuses beyond need, among grammatical texts: a long number
//! literal that is selected on without a plural key, or handed to a term that
//! does not select on it; and a placeable or reference inside a nameless
//! placeable where the hundred placeables cannot in fact come together.

use vstd::prelude::*;
use vstd::utf8::encode_utf8;

verus! {

pub const NEWLINE: u8 = 0x0a;

pub const SPACE: u8 = 0x20;

pub const QUOTE: u8 = 0x22;

pub const HASH: u8 = 0x23;

pub const DOLLAR: u8 = 0x24;

pub const PAREN: u8 = 0x28;

pub const UNPAREN: u8 = 0x29;

pub const MINUS: u8 = 0x2d;

pub const DOT: u8 = 0x2e;

pub const COLON: u8 = 0x3a;

pub const EQUALS: u8 = 0x3d;

pub const GREATER: u8 = 0x3e;

pub const UPPER_U: u8 = 0x55;

pub const BRACKET: u8 = 0x5b;

pub const BACKSLASH: u8 = 0x5c;

pub const UNBRACKET: u8 = 0x5d;

pub const UNDERSCORE: u8 = 0x5f;

pub const LOWER_U: u8 = 0x75;

pub const OPEN: u8 = 0x7b;

pub const CLOSE: u8 = 0x7d;

/// The most digits after the dot that a number literal may have where it is
/// selected on or handed to a term.
pub const MAX_DIGITS: usize = 19;

/// The deepest nesting of placeables and calls that is let through.
pub const MAX_DEPTH: usize = 16;

/// The number of placeables after which the formatter gives up.
pub const MAX_PLACEABLES: usize = 100;

/// A space, a line feed or a carriage return.
pub open spec fn is_blank(b: u8) -> bool {
    b == 0x20 || b == 0x0a || b == 0x0d
}

/// An ASCII digit.
pub open spec fn is_digit(b: u8) -> bool {
    0x30 <= b <= 0x39
}

/// An ASCII letter.
pub open spec fn is_letter(b: u8) -> bool {
    0x41 <= b <= 0x5a || 0x61 <= b <= 0x7a
}

/// An ASCII hex digit.
pub open spec fn is_hex(b: u8) -> bool {
    is_digit(b) || 0x41 <= b <= 0x46 || 0x61 <= b <= 0x66
}

/// A byte that an identifier may hold after its first letter.
pub open spec fn is_name_byte(b: u8) -> bool {
    is_letter(b) || is_digit(b) || b == UNDERSCORE || b == MINUS
}

/// The first position at or after `p` that holds no blank.
pub open spec fn after_blank(t: Seq<u8>, p: int) -> int
    decreases t.len() - p,
{
    if 0 <= p < t.len() && is_blank(t[p]) {
        after_blank(t, p + 1)
    } else {
        p
    }
}

/// The first position at or after `p` that holds no space.
pub open spec fn after_spaces(t: Seq<u8>, p: int) -> int
    decreases t.len() - p,
{
    if 0 <= p < t.len() && t[p] == SPACE {
        after_spaces(t, p + 1)
    } else {
        p
    }
}

/// The first position at or after `p` that holds no digit.
pub open spec fn after_digits(t: Seq<u8>, p: int) -> int
    decreases t.len() - p,
{
    if 0 <= p < t.len() && is_digit(t[p]) {
        after_digits(t, p + 1)
    } else {
        p
    }
}

/// The first position at or after `p` that holds no byte of an identifier.
pub open spec fn after_name(t: Seq<u8>, p: int) -> int
    decreases t.len() - p,
{
    if 0 <= p < t.len() && is_name_byte(t[p]) {
        after_name(t, p + 1)
    } else {
        p
    }
}

/// The first position at or after `p` that holds no hex digit, and no
/// further than `n` positions on.
pub open spec fn after_hex(t: Seq<u8>, p: int, n: nat) -> int
    decreases n,
{
    if n > 0 && 0 <= p < t.len() && is_hex(t[p]) {
        after_hex(t, p + 1, (n - 1) as nat)
    } else {
        p
    }
}

/// The position after the string literal whose opening quote stands just
/// before `p`: after the next quote that no backslash escapes, and the end of
/// the text where there is none.
pub open spec fn after_string(t: Seq<u8>, p: int) -> int
    decreases t.len() - p,
{
    if p < 0 || p >= t.len() {
        t.len() as int
    } else if t[p] == QUOTE {
        p + 1
    } else if t[p] == BACKSLASH {
        if p + 1 < t.len() {
            after_string(t, p + 2)
        } else {
            t.len() as int
        }
    } else {
        after_string(t, p + 1)
    }
}

/// The position after the minus sign at `p`, and `p` where none stands there.
pub open spec fn after_minus(t: Seq<u8>, p: int) -> int {
    if 0 <= p < t.len() && t[p] == MINUS {
        p + 1
    } else {
        p
    }
}

/// The position after the number literal that starts at `p`: a minus sign if
/// there is one, digits, and a dot with more digits if there is one.
pub open spec fn after_number(t: Seq<u8>, p: int) -> int {
    let whole = after_digits(t, after_minus(t, p));
    if 0 <= whole < t.len() && t[whole] == DOT {
        after_digits(t, whole + 1)
    } else {
        whole
    }
}

/// How many digits the number literal at `p` has after its dot.
pub open spec fn fraction_digits(t: Seq<u8>, p: int) -> int {
    let whole = after_digits(t, after_minus(t, p));
    if 0 <= whole < t.len() && t[whole] == DOT {
        after_digits(t, whole + 1) - (whole + 1)
    } else {
        0
    }
}

/// Whether `->` stands at `p`.
pub open spec fn arrow_at(t: Seq<u8>, p: int) -> bool {
    0 <= p && p + 1 < t.len() && t[p] == MINUS && t[p + 1] == GREATER
}

/// Whether a line starts at `p`.
pub open spec fn line_starts_at(t: Seq<u8>, p: int) -> bool {
    p == 0 || (0 < p <= t.len() && t[p - 1] == NEWLINE)
}

/// Whether the bytes from `p` on read as the head of a message or a term: an
/// identifier, with `-` before it for a term, then spaces, then `=`. At the
/// start of a line the parser either starts an entry here or stops reading
/// the entry it is in; either way nothing is open any more.
pub open spec fn entry_head_at(t: Seq<u8>, p: int) -> bool {
    let name = after_minus(t, p);
    let sign = after_spaces(t, after_name(t, name));
    0 <= name < t.len() && is_letter(t[name]) && sign < t.len() && t[sign] == EQUALS
}

/// Whether a token may start at `p`: the byte before it is no part of a name
/// or number, and no `$` that would make a variable of it.
pub open spec fn token_starts_at(t: Seq<u8>, p: int) -> bool {
    p == 0 || (0 < p <= t.len() && !is_name_byte(t[p - 1]) && t[p - 1] != DOT && t[p - 1]
        != DOLLAR)
}

/// Whether a number literal starts at `p`.
pub open spec fn number_at(t: Seq<u8>, p: int) -> bool {
    0 <= p < t.len() && token_starts_at(t, p) && (is_digit(t[p]) || (t[p] == MINUS && p + 1
        < t.len() && is_digit(t[p + 1])))
}

/// Whether a placeable that opens at `p` holds, first of all, another
/// placeable.
pub open spec fn nests_at(t: Seq<u8>, p: int) -> bool {
    let inner = after_blank(t, p + 1);
    inner < t.len() && t[inner] == OPEN
}

/// Whether a placeable that opens at `p` selects on a string or number
/// literal.
pub open spec fn selects_literal_at(t: Seq<u8>, p: int) -> bool {
    let first = after_blank(t, p + 1);
    first < t.len() && {
        ||| t[first] == QUOTE && arrow_at(t, after_blank(t, after_string(t, first + 1)))
        ||| (is_digit(t[first]) || t[first] == MINUS) && arrow_at(
            t,
            after_blank(t, after_number(t, first)),
        )
    }
}

/// Whether the escape whose letter `u` or `U` stands at `p` makes the parser
/// abort: it has fewer hex digits than it needs, and what follows them is the
/// first byte of a character of several bytes.
pub open spec fn fatal_escape_at(t: Seq<u8>, p: int) -> bool {
    let needed: nat = if t[p] == LOWER_U {
        4
    } else {
        6
    };
    let end = after_hex(t, p + 1, needed);
    0 <= p < t.len() && (t[p] == LOWER_U || t[p] == UPPER_U) && end - (p + 1) < needed && end
        < t.len() && t[end] >= 0x80
}

/// Whether a name that starts at `p` refers to a message: it is no function
/// called with arguments, and, inside a call, it is no name of an argument.
pub open spec fn message_named_at(t: Seq<u8>, p: int, in_call: bool) -> bool {
    let next = after_blank(t, after_name(t, p));
    !(next < t.len() && t[next] == PAREN) && !(in_call && next < t.len() && t[next] == COLON)
}

/// Whether a reference to a message or a term starts at `p`.
pub open spec fn reference_at(t: Seq<u8>, p: int, in_call: bool) -> bool {
    0 <= p < t.len() && token_starts_at(t, p) && {
        ||| is_letter(t[p]) && message_named_at(t, p, in_call)
        ||| t[p] == MINUS && p + 1 < t.len() && is_letter(t[p + 1])
    }
}

/// Whether a number literal that can overflow the plural rules starts at `p`:
/// it has more than [`MAX_DIGITS`] digits after the dot and is selected on, or
/// stands among the arguments of a term.
pub open spec fn long_literal_at(t: Seq<u8>, p: int, in_term: bool) -> bool {
    number_at(t, p) && fraction_digits(t, p) > MAX_DIGITS && (in_term || arrow_at(
        t,
        after_blank(t, after_number(t, p)),
    ))
}

/// What the scan reads at a position.
#[derive(Clone, Copy, PartialEq, Eq, Structural, Debug)]
pub enum Mode {
    /// The text of a pattern, and everything outside of entries.
    Text,
    /// An expression: inside a placeable or among the arguments of a call.
    Expr,
    /// The key of a variant, between `[` and `]`.
    Key,
    /// A string literal.
    Literal,
    /// The byte after a backslash in a string literal.
    Escape,
    /// Outside of entries: before the first entry, and from a comment line
    /// to the next entry. The parser reads no expression there.
    Idle,
}

/// A placeable or a call that is open.
#[derive(Clone, Copy, PartialEq, Eq, Structural, Debug)]
pub struct Frame {
    /// Whether this is a call, and not a placeable.
    pub call: bool,
    /// Whether this is the call of a term.
    pub term: bool,
    /// Whether pattern text goes on after it, and not an expression.
    pub in_text: bool,
    /// Whether this placeable, or one that it is in, has no name that the
    /// formatter could write.
    pub nameless: bool,
}

/// What the scan knows after some bytes of the text.
pub ghost struct Scan {
    /// The placeables and calls that are open, the outermost first.
    pub frames: Seq<Frame>,
    /// What is being read.
    pub mode: Mode,
    /// How many placeables stood in pattern text so far, counted up to one
    /// more than [`MAX_PLACEABLES`].
    pub placeables: nat,
    /// Whether the last name met in an expression was that of a term.
    pub term: bool,
    /// Whether a reference to a message or term was met.
    pub refers: bool,
    /// Whether a placeable or a reference was met inside a nameless placeable.
    pub exposed: bool,
    /// Whether something was met on which `fluent` aborts whatever else the
    /// text holds.
    pub fatal: bool,
}

/// What the scan knows before the first byte.
pub open spec fn scan_start() -> Scan {
    Scan {
        frames: Seq::empty(),
        mode: Mode::Idle,
        placeables: 0,
        term: false,
        refers: false,
        exposed: false,
        fatal: false,
    }
}

/// Whether the innermost open placeable or call is a call.
pub open spec fn in_call(s: Scan) -> bool {
    s.frames.len() > 0 && s.frames.last().call
}

/// Whether the innermost open placeable or call is the call of a term.
pub open spec fn in_term(s: Scan) -> bool {
    s.frames.len() > 0 && s.frames.last().term
}

/// Whether the scan is inside a nameless placeable.
pub open spec fn in_nameless(s: Scan) -> bool {
    s.frames.len() > 0 && s.frames.last().nameless
}

/// The scan with one more frame open and an expression to read; too deep a
/// nesting is fatal, and the frame is then left out.
pub open spec fn opened(s: Scan, frame: Frame) -> Scan {
    if s.frames.len() >= MAX_DEPTH {
        Scan { mode: Mode::Expr, fatal: true, ..s }
    } else {
        Scan { frames: s.frames.push(frame), mode: Mode::Expr, ..s }
    }
}

/// The scan after `{` at `i` in pattern text.
pub open spec fn open_in_text(t: Seq<u8>, i: int, s: Scan) -> Scan {
    let counted = Scan {
        placeables: if s.placeables > MAX_PLACEABLES {
            s.placeables
        } else {
            s.placeables + 1
        },
        exposed: s.exposed || in_nameless(s),
        ..s
    };
    opened(
        counted,
        Frame {
            call: false,
            term: false,
            in_text: true,
            nameless: in_nameless(s) || nests_at(t, i) || selects_literal_at(t, i),
        },
    )
}

/// The scan after `}`: the innermost placeable is closed, if a placeable is
/// innermost, and reading goes on where it stood.
pub open spec fn close_placeable(s: Scan) -> Scan {
    if s.frames.len() > 0 && !s.frames.last().call {
        Scan {
            frames: s.frames.drop_last(),
            mode: if s.frames.last().in_text {
                Mode::Text
            } else {
                Mode::Expr
            },
            ..s
        }
    } else {
        s
    }
}

/// The scan after `)`: the innermost call is closed, if a call is innermost.
pub open spec fn close_call(s: Scan) -> Scan {
    if in_call(s) {
        Scan { frames: s.frames.drop_last(), ..s }
    } else {
        s
    }
}

/// Whether the name of a term starts at `p`.
pub open spec fn term_at(t: Seq<u8>, p: int) -> bool {
    0 <= p && p + 1 < t.len() && token_starts_at(t, p) && t[p] == MINUS && is_letter(t[p + 1])
}

/// Whether a name that is no name of a term starts at `p`.
pub open spec fn name_at(t: Seq<u8>, p: int) -> bool {
    0 <= p < t.len() && token_starts_at(t, p) && is_letter(t[p])
}

/// The scan after the byte at `i` of an expression that opens and closes
/// nothing: a reference or a long number literal may start there.
pub open spec fn token(t: Seq<u8>, i: int, s: Scan) -> Scan {
    let refers = reference_at(t, i, in_call(s));
    Scan {
        term: term_at(t, i) || (s.term && !name_at(t, i)),
        refers: s.refers || refers,
        exposed: s.exposed || (refers && in_nameless(s)),
        fatal: s.fatal || long_literal_at(t, i, in_term(s)),
        ..s
    }
}

/// The scan after the byte at `i`, read in the mode that the scan is in.
pub open spec fn read(t: Seq<u8>, i: int, s: Scan) -> Scan {
    let b = t[i];
    match s.mode {
        Mode::Idle => s,
        Mode::Text => if b == OPEN {
            open_in_text(t, i, s)
        } else if b == CLOSE {
            close_placeable(s)
        } else {
            s
        },
        Mode::Expr => if b == QUOTE {
            Scan { mode: Mode::Literal, ..s }
        } else if b == OPEN {
            opened(
                s,
                Frame { call: false, term: false, in_text: false, nameless: in_nameless(s) },
            )
        } else if b == PAREN {
            opened(
                s,
                Frame { call: true, term: s.term, in_text: false, nameless: in_nameless(s) },
            )
        } else if b == UNPAREN {
            close_call(s)
        } else if b == CLOSE {
            close_placeable(s)
        } else if b == BRACKET {
            Scan { mode: Mode::Key, ..s }
        } else {
            token(t, i, s)
        },
        Mode::Key => if b == UNBRACKET {
            Scan { mode: Mode::Text, ..s }
        } else {
            s
        },
        Mode::Literal => if b == BACKSLASH {
            Scan { mode: Mode::Escape, ..s }
        } else if b == QUOTE {
            Scan { mode: Mode::Expr, ..s }
        } else if b == NEWLINE {
            Scan { mode: Mode::Text, ..s }
        } else {
            s
        },
        Mode::Escape => Scan {
            mode: if b == NEWLINE {
                Mode::Text
            } else {
                Mode::Literal
            },
            fatal: s.fatal || fatal_escape_at(t, i),
            ..s
        },
    }
}

/// The scan after the byte at `i`. A `#` at the start of a line ends the
/// entry, the head of an entry at the start of a line starts one; both close
/// whatever was open.
pub open spec fn scan_step(t: Seq<u8>, i: int, s: Scan) -> Scan {
    if line_starts_at(t, i) && t[i] == HASH {
        Scan { frames: Seq::empty(), mode: Mode::Idle, ..s }
    } else if line_starts_at(t, i) && entry_head_at(t, i) {
        Scan { frames: Seq::empty(), mode: Mode::Text, ..s }
    } else {
        read(t, i, s)
    }
}

/// What the scan knows after the first `p` bytes.
pub open spec fn scan(t: Seq<u8>, p: int) -> Scan
    decreases p,
{
    if p <= 0 {
        scan_start()
    } else {
        scan_step(t, p - 1, scan(t, p - 1))
    }
}

/// Whether a scan has met nothing that `fluent` can abort on: nothing fatal,
/// and nothing inside a nameless placeable, unless the text holds no
/// reference and so few placeables that the formatter cannot give up.
pub open spec fn harmless(s: Scan) -> bool {
    !s.fatal && !(s.exposed && (s.refers || s.placeables > MAX_PLACEABLES))
}

/// Whether the bytes of a catalog text hold nothing that `fluent` can abort on.
pub open spec fn tame_bytes(t: Seq<u8>) -> bool {
    harmless(scan(t, t.len() as int))
}

/// Whether a catalog text holds nothing that `fluent` can abort on.
pub open spec fn tame(text: Seq<char>) -> bool {
    tame_bytes(encode_utf8(text))
}

/// The scan as it is kept while it runs.
struct Scanner {
    frames: Vec<Frame>,
    mode: Mode,
    placeables: usize,
    term: bool,
    refers: bool,
    exposed: bool,
    fatal: bool,
}

impl View for Scanner {
    type V = Scan;

    closed spec fn view(&self) -> Scan {
        Scan {
            frames: self.frames@,
            mode: self.mode,
            placeables: self.placeables as nat,
            term: self.term,
            refers: self.refers,
            exposed: self.exposed,
            fatal: self.fatal,
        }
    }
}

fn skip_blank(t: &[u8], p: usize) -> (r: usize)
    requires
        p <= t.len(),
    ensures
        r == after_blank(t@, p as int),
        p <= r <= t.len(),
{
    let mut i = p;
    while i < t.len() && (t[i] == 0x20 || t[i] == 0x0a || t[i] == 0x0d)
        invariant
            p <= i <= t.len(),
            after_blank(t@, p as int) == after_blank(t@, i as int),
        decreases t.len() - i,
    {
        i += 1;
    }
    i
}

fn skip_spaces(t: &[u8], p: usize) -> (r: usize)
    requires
        p <= t.len(),
    ensures
        r == after_spaces(t@, p as int),
        p <= r <= t.len(),
{
    let mut i = p;
    while i < t.len() && t[i] == SPACE
        invariant
            p <= i <= t.len(),
            after_spaces(t@, p as int) == after_spaces(t@, i as int),
        decreases t.len() - i,
    {
        i += 1;
    }
    i
}

fn digit(b: u8) -> (r: bool)
    ensures
        r == is_digit(b),
{
    0x30 <= b && b <= 0x39
}

fn letter(b: u8) -> (r: bool)
    ensures
        r == is_letter(b),
{
    (0x41 <= b && b <= 0x5a) || (0x61 <= b && b <= 0x7a)
}

fn hex(b: u8) -> (r: bool)
    ensures
        r == is_hex(b),
{
    digit(b) || (0x41 <= b && b <= 0x46) || (0x61 <= b && b <= 0x66)
}

fn name_byte(b: u8) -> (r: bool)
    ensures
        r == is_name_byte(b),
{
    letter(b) || digit(b) || b == UNDERSCORE || b == MINUS
}

fn skip_digits(t: &[u8], p: usize) -> (r: usize)
    requires
        p <= t.len(),
    ensures
        r == after_digits(t@, p as int),
        p <= r <= t.len(),
{
    let mut i = p;
    while i < t.len() && digit(t[i])
        invariant
            p <= i <= t.len(),
            after_digits(t@, p as int) == after_digits(t@, i as int),
        decreases t.len() - i,
    {
        i += 1;
    }
    i
}

fn skip_name(t: &[u8], p: usize) -> (r: usize)
    requires
        p <= t.len(),
    ensures
        r == after_name(t@, p as int),
        p <= r <= t.len(),
{
    let mut i = p;
    while i < t.len() && name_byte(t[i])
        invariant
            p <= i <= t.len(),
            after_name(t@, p as int) == after_name(t@, i as int),
        decreases t.len() - i,
    {
        i += 1;
    }
    i
}

fn skip_hex(t: &[u8], p: usize, n: usize) -> (r: usize)
    requires
        p <= t.len(),
        n <= 6,
    ensures
        r == after_hex(t@, p as int, n as nat),
        p <= r <= t.len(),
        r - p <= n,
{
    let mut i = p;
    let mut left = n;
    while left > 0 && i < t.len() && hex(t[i])
        invariant
            p <= i <= t.len(),
            i - p + left == n,
            after_hex(t@, p as int, n as nat) == after_hex(t@, i as int, left as nat),
        decreases left,
    {
        i += 1;
        left -= 1;
    }
    i
}

fn skip_string(t: &[u8], p: usize) -> (r: usize)
    requires
        p <= t.len(),
    ensures
        r == after_string(t@, p as int),
        p <= r <= t.len(),
{
    let mut i = p;
    while i < t.len()
        invariant
            p <= i <= t.len(),
            after_string(t@, p as int) == after_string(t@, i as int),
        decreases t.len() - i,
    {
        if t[i] == QUOTE {
            return i + 1;
        }
        if t[i] == BACKSLASH {
            if i + 1 < t.len() {
                i += 2;
            } else {
                return t.len();
            }
        } else {
            i += 1;
        }
    }
    i
}

fn skip_minus(t: &[u8], p: usize) -> (r: usize)
    requires
        p < t.len(),
    ensures
        r == after_minus(t@, p as int),
        p <= r <= t.len(),
{
    if t[p] == MINUS {
        p + 1
    } else {
        p
    }
}

fn skip_number(t: &[u8], p: usize) -> (r: usize)
    requires
        p < t.len(),
    ensures
        r == after_number(t@, p as int),
        p <= r <= t.len(),
{
    let whole = skip_digits(t, skip_minus(t, p));
    if whole < t.len() && t[whole] == DOT {
        skip_digits(t, whole + 1)
    } else {
        whole
    }
}

fn count_fraction(t: &[u8], p: usize) -> (r: usize)
    requires
        p < t.len(),
    ensures
        r == fraction_digits(t@, p as int),
{
    let whole = skip_digits(t, skip_minus(t, p));
    if whole < t.len() && t[whole] == DOT {
        skip_digits(t, whole + 1) - (whole + 1)
    } else {
        0
    }
}

fn is_arrow(t: &[u8], p: usize) -> (r: bool)
    requires
        p <= t.len(),
    ensures
        r == arrow_at(t@, p as int),
{
    p < t.len() && t.len() - p > 1 && t[p] == MINUS && t[p + 1] == GREATER
}

fn is_line_start(t: &[u8], p: usize) -> (r: bool)
    requires
        p < t.len(),
    ensures
        r == line_starts_at(t@, p as int),
{
    p == 0 || t[p - 1] == NEWLINE
}

fn is_entry_head(t: &[u8], p: usize) -> (r: bool)
    requires
        p < t.len(),
    ensures
        r == entry_head_at(t@, p as int),
{
    let name = skip_minus(t, p);
    if name >= t.len() || !letter(t[name]) {
        return false;
    }
    let sign = skip_spaces(t, skip_name(t, name));
    sign < t.len() && t[sign] == EQUALS
}

fn is_token_start(t: &[u8], p: usize) -> (r: bool)
    requires
        p < t.len(),
    ensures
        r == token_starts_at(t@, p as int),
{
    p == 0 || (!name_byte(t[p - 1]) && t[p - 1] != DOT && t[p - 1] != DOLLAR)
}

fn is_number(t: &[u8], p: usize) -> (r: bool)
    requires
        p < t.len(),
    ensures
        r == number_at(t@, p as int),
{
    is_token_start(t, p) && (digit(t[p]) || (t[p] == MINUS && t.len() - p > 1 && digit(t[p + 1])))
}

fn is_nested(t: &[u8], p: usize) -> (r: bool)
    requires
        p < t.len(),
    ensures
        r == nests_at(t@, p as int),
{
    let inner = skip_blank(t, p + 1);
    inner < t.len() && t[inner] == OPEN
}

fn is_literal_selection(t: &[u8], p: usize) -> (r: bool)
    requires
        p < t.len(),
    ensures
        r == selects_literal_at(t@, p as int),
{
    let first = skip_blank(t, p + 1);
    if first >= t.len() {
        return false;
    }
    if t[first] == QUOTE {
        let end = skip_string(t, first + 1);
        is_arrow(t, skip_blank(t, end))
    } else if digit(t[first]) || t[first] == MINUS {
        let end = skip_number(t, first);
        is_arrow(t, skip_blank(t, end))
    } else {
        false
    }
}

fn is_fatal_escape(t: &[u8], p: usize) -> (r: bool)
    requires
        p < t.len(),
    ensures
        r == fatal_escape_at(t@, p as int),
{
    if t[p] != LOWER_U && t[p] != UPPER_U {
        return false;
    }
    let needed: usize = if t[p] == LOWER_U {
        4
    } else {
        6
    };
    let end = skip_hex(t, p + 1, needed);
    end - (p + 1) < needed && end < t.len() && t[end] >= 0x80
}

fn is_reference(t: &[u8], p: usize, in_call: bool) -> (r: bool)
    requires
        p < t.len(),
    ensures
        r == reference_at(t@, p as int, in_call),
{
    if !is_token_start(t, p) {
        return false;
    }
    if letter(t[p]) {
        let next = skip_blank(t, skip_name(t, p));
        !(next < t.len() && t[next] == PAREN) && !(in_call && next < t.len() && t[next] == COLON)
    } else {
        t[p] == MINUS && t.len() - p > 1 && letter(t[p + 1])
    }
}

fn is_term(t: &[u8], p: usize) -> (r: bool)
    requires
        p < t.len(),
    ensures
        r == term_at(t@, p as int),
{
    t.len() - p > 1 && is_token_start(t, p) && t[p] == MINUS && letter(t[p + 1])
}

fn is_name(t: &[u8], p: usize) -> (r: bool)
    requires
        p < t.len(),
    ensures
        r == name_at(t@, p as int),
{
    is_token_start(t, p) && letter(t[p])
}

fn is_long_literal(t: &[u8], p: usize, in_term: bool) -> (r: bool)
    requires
        p < t.len(),
    ensures
        r == long_literal_at(t@, p as int, in_term),
{
    if !is_number(t, p) || count_fraction(t, p) <= MAX_DIGITS {
        return false;
    }
    if in_term {
        return true;
    }
    let end = skip_number(t, p);
    is_arrow(t, skip_blank(t, end))
}

impl Scanner {
    /// No frame is ever kept beyond [`MAX_DEPTH`], nor a count of placeables
    /// beyond one more than [`MAX_PLACEABLES`].
    spec fn wf(&self) -> bool {
        self.frames@.len() <= MAX_DEPTH && self.placeables <= MAX_PLACEABLES + 1
    }

    fn new() -> (r: Scanner)
        ensures
            r.wf(),
            r@ == scan_start(),
    {
        Scanner {
            frames: Vec::new(),
            mode: Mode::Idle,
            placeables: 0,
            term: false,
            refers: false,
            exposed: false,
            fatal: false,
        }
    }

    fn in_call(&self) -> (r: bool)
        ensures
            r == in_call(self@),
    {
        self.frames.len() > 0 && self.frames[self.frames.len() - 1].call
    }

    fn in_term(&self) -> (r: bool)
        ensures
            r == in_term(self@),
    {
        self.frames.len() > 0 && self.frames[self.frames.len() - 1].term
    }

    fn in_nameless(&self) -> (r: bool)
        ensures
            r == in_nameless(self@),
    {
        self.frames.len() > 0 && self.frames[self.frames.len() - 1].nameless
    }

    fn open(&mut self, frame: Frame)
        requires
            old(self).wf(),
        ensures
            final(self).wf(),
            final(self)@ == opened(old(self)@, frame),
    {
        self.mode = Mode::Expr;
        if self.frames.len() >= MAX_DEPTH {
            self.fatal = true;
        } else {
            self.frames.push(frame);
        }
    }

    fn open_in_text(&mut self, t: &[u8], i: usize)
        requires
            old(self).wf(),
            i < t.len(),
        ensures
            final(self).wf(),
            final(self)@ == open_in_text(t@, i as int, old(self)@),
    {
        let nameless = self.in_nameless() || is_nested(t, i) || is_literal_selection(t, i);
        if self.placeables <= MAX_PLACEABLES {
            self.placeables += 1;
        }
        self.exposed = self.exposed || self.in_nameless();
        self.open(Frame { call: false, term: false, in_text: true, nameless });
    }

    fn close_placeable(&mut self)
        requires
            old(self).wf(),
        ensures
            final(self).wf(),
            final(self)@ == close_placeable(old(self)@),
    {
        if self.frames.len() > 0 && !self.frames[self.frames.len() - 1].call {
            let frame = self.frames[self.frames.len() - 1];
            self.frames.pop();
            self.mode = if frame.in_text {
                Mode::Text
            } else {
                Mode::Expr
            };
        }
    }

    fn close_call(&mut self)
        requires
            old(self).wf(),
        ensures
            final(self).wf(),
            final(self)@ == close_call(old(self)@),
    {
        if self.in_call() {
            self.frames.pop();
        }
    }

    fn token(&mut self, t: &[u8], i: usize)
        requires
            old(self).wf(),
            i < t.len(),
        ensures
            final(self).wf(),
            final(self)@ == token(t@, i as int, old(self)@),
    {
        let refers = is_reference(t, i, self.in_call());
        self.exposed = self.exposed || (refers && self.in_nameless());
        self.refers = self.refers || refers;
        self.fatal = self.fatal || is_long_literal(t, i, self.in_term());
        self.term = is_term(t, i) || (self.term && !is_name(t, i));
    }

    fn read(&mut self, t: &[u8], i: usize)
        requires
            old(self).wf(),
            i < t.len(),
        ensures
            final(self).wf(),
            final(self)@ == read(t@, i as int, old(self)@),
    {
        let b = t[i];
        match self.mode {
            Mode::Idle => {},
            Mode::Text => {
                if b == OPEN {
                    self.open_in_text(t, i);
                } else if b == CLOSE {
                    self.close_placeable();
                }
            },
            Mode::Expr => {
                if b == QUOTE {
                    self.mode = Mode::Literal;
                } else if b == OPEN {
                    let nameless = self.in_nameless();
                    self.open(Frame { call: false, term: false, in_text: false, nameless });
                } else if b == PAREN {
                    let nameless = self.in_nameless();
                    let term = self.term;
                    self.open(Frame { call: true, term, in_text: false, nameless });
                } else if b == UNPAREN {
                    self.close_call();
                } else if b == CLOSE {
                    self.close_placeable();
                } else if b == BRACKET {
                    self.mode = Mode::Key;
                } else {
                    self.token(t, i);
                }
            },
            Mode::Key => {
                if b == UNBRACKET {
                    self.mode = Mode::Text;
                }
            },
            Mode::Literal => {
                if b == BACKSLASH {
                    self.mode = Mode::Escape;
                } else if b == QUOTE {
                    self.mode = Mode::Expr;
                } else if b == NEWLINE {
                    self.mode = Mode::Text;
                }
            },
            Mode::Escape => {
                self.fatal = self.fatal || is_fatal_escape(t, i);
                self.mode = if b == NEWLINE {
                    Mode::Text
                } else {
                    Mode::Literal
                };
            },
        }
    }

    fn step(&mut self, t: &[u8], i: usize)
        requires
            old(self).wf(),
            i < t.len(),
        ensures
            final(self).wf(),
            final(self)@ == scan_step(t@, i as int, old(self)@),
    {
        let fresh = is_line_start(t, i);
        if fresh && t[i] == HASH {
            self.frames.clear();
            self.mode = Mode::Idle;
        } else if fresh && is_entry_head(t, i) {
            self.frames.clear();
            self.mode = Mode::Text;
        } else {
            self.read(t, i);
        }
    }

    fn is_harmless(&self) -> (r: bool)
        ensures
            r == harmless(self@),
    {
        !self.fatal && !(self.exposed && (self.refers || self.placeables > MAX_PLACEABLES))
    }
}

/// Whether a catalog text holds nothing that `fluent` can abort on.
pub fn is_tame(text: &str) -> (r: bool)
    ensures
        r == tame(text@),
{
    let t = text.as_bytes();
    let mut scanner = Scanner::new();
    let mut p: usize = 0;
    while p < t.len()
        invariant
            p <= t.len(),
            t@ == encode_utf8(text@),
            scanner.wf(),
            scanner@ == scan(t@, p as int),
        decreases t.len() - p,
    {
        scanner.step(t, p);
        p += 1;
    }
    scanner.is_harmless()
}

} // verus!
