//! How deeply a manifest's text makes the toml parser recurse.
//!
//! The parser descends once for each array or inline table opened inside
//! another, and once for each segment of a dotted key or table header. A key,
//! a header and an inline table never span a line, since only spaces and tabs
//! may stand between their parts. So a scan that follows the tokenizer through
//! strings and comments, and measures the depth of `[`/`{` outside them and the
//! number of `.` outside them on each line, bounds that recursion from above.
use vstd::prelude::*;
use vstd::std_specs::iter::IteratorSpec;

verus! {

/// The deepest nesting of arrays and inline tables accepted.
pub const MAX_NESTING: usize = 24;

/// The most dots accepted outside strings and comments on one line.
pub const MAX_LINE_DOTS: usize = 24;

/// The longest manifest text accepted, in characters.
pub const MAX_MANIFEST_CHARS: usize = 4194304;

/// Where the scan stands in the tokenizer's terms.
#[derive(PartialEq, Eq, Structural, Clone, Copy, Debug)]
pub enum ScanMode {
    Plain,
    Comment,
    Basic,
    MultiBasic,
    Literal,
    MultiLiteral,
}

#[derive(PartialEq, Eq, Structural, Clone, Copy, Debug)]
pub struct ScanState {
    pub mode: ScanMode,
    pub depth: usize,
    pub dots: usize,
}

pub open spec fn at_is(s: Seq<char>, i: int, c: char) -> bool {
    0 <= i < s.len() && s[i] == c
}

/// Where a closing triple quote at `i` ends: the tokenizer takes up to two more
/// of the same quote as part of the string.
pub open spec fn after_triple(s: Seq<char>, i: int, q: char) -> int {
    if at_is(s, i + 3, q) {
        if at_is(s, i + 4, q) {
            i + 5
        } else {
            i + 4
        }
    } else {
        i + 3
    }
}

pub open spec fn with_mode(st: ScanState, m: ScanMode) -> ScanState {
    ScanState { mode: m, depth: st.depth, dots: st.dots }
}

/// One step of the scan at position `i`: where the next step starts, and the state there.
pub open spec fn scan_step(s: Seq<char>, i: int, st: ScanState) -> (int, ScanState) {
    let c = s[i];
    match st.mode {
        ScanMode::Plain => if c == '#' {
            (i + 1, with_mode(st, ScanMode::Comment))
        } else if c == '"' {
            if at_is(s, i + 1, '"') && at_is(s, i + 2, '"') {
                (i + 3, with_mode(st, ScanMode::MultiBasic))
            } else {
                (i + 1, with_mode(st, ScanMode::Basic))
            }
        } else if c == '\'' {
            if at_is(s, i + 1, '\'') && at_is(s, i + 2, '\'') {
                (i + 3, with_mode(st, ScanMode::MultiLiteral))
            } else {
                (i + 1, with_mode(st, ScanMode::Literal))
            }
        } else if c == '[' || c == '{' {
            (i + 1, ScanState { mode: st.mode, depth: (st.depth + 1) as usize, dots: st.dots })
        } else if c == ']' || c == '}' {
            (i + 1, ScanState {
                mode: st.mode,
                depth: if st.depth > 0 { (st.depth - 1) as usize } else { 0 },
                dots: st.dots,
            })
        } else if c == '.' {
            (i + 1, ScanState { mode: st.mode, depth: st.depth, dots: (st.dots + 1) as usize })
        } else if c == '\n' {
            (i + 1, ScanState { mode: st.mode, depth: st.depth, dots: 0 })
        } else {
            (i + 1, st)
        },
        ScanMode::Comment => if c == '\n' {
            (i + 1, ScanState { mode: ScanMode::Plain, depth: st.depth, dots: 0 })
        } else {
            (i + 1, st)
        },
        ScanMode::Basic => if c == '\\' {
            (i + 2, st)
        } else if c == '"' {
            (i + 1, with_mode(st, ScanMode::Plain))
        } else if c == '\n' {
            (i + 1, ScanState { mode: ScanMode::Plain, depth: st.depth, dots: 0 })
        } else {
            (i + 1, st)
        },
        ScanMode::MultiBasic => if c == '\\' {
            (i + 2, st)
        } else if c == '"' && at_is(s, i + 1, '"') && at_is(s, i + 2, '"') {
            (after_triple(s, i, '"'), with_mode(st, ScanMode::Plain))
        } else {
            (i + 1, st)
        },
        ScanMode::Literal => if c == '\'' {
            (i + 1, with_mode(st, ScanMode::Plain))
        } else if c == '\n' {
            (i + 1, ScanState { mode: ScanMode::Plain, depth: st.depth, dots: 0 })
        } else {
            (i + 1, st)
        },
        ScanMode::MultiLiteral => if c == '\'' && at_is(s, i + 1, '\'') && at_is(s, i + 2, '\'') {
            (after_triple(s, i, '\''), with_mode(st, ScanMode::Plain))
        } else {
            (i + 1, st)
        },
    }
}

pub open spec fn in_bounds(st: ScanState) -> bool {
    st.depth <= MAX_NESTING && st.dots <= MAX_LINE_DOTS
}

/// Whether the scan from position `i` in state `st` stays within the bounds to the end.
pub open spec fn scan_from(s: Seq<char>, i: int, st: ScanState) -> bool
    decreases s.len() - i,
{
    if i >= s.len() || i < 0 {
        true
    } else {
        let (j, next) = scan_step(s, i, st);
        in_bounds(next) && (i < j < s.len() ==> scan_from(s, j, next))
    }
}

pub open spec fn scan_start() -> ScanState {
    ScanState { mode: ScanMode::Plain, depth: 0, dots: 0 }
}

/// Whether the manifest text is nested shallowly enough to hand to the parser.
pub open spec fn manifest_within_bounds(text: Seq<char>) -> bool {
    text.len() <= MAX_MANIFEST_CHARS && scan_from(text, 0, scan_start())
}

fn char_at(s: &Vec<char>, i: usize, c: char) -> (r: bool)
    ensures
        r == at_is(s@, i as int, c),
{
    i < s.len() && s[i] == c
}

fn step(s: &Vec<char>, i: usize, st: ScanState) -> (r: (usize, ScanState))
    requires
        i < s@.len(),
        in_bounds(st),
        s@.len() <= MAX_MANIFEST_CHARS,
    ensures
        r.0 as int == scan_step(s@, i as int, st).0,
        r.1 == scan_step(s@, i as int, st).1,
        r.0 > i,
{
    let c = s[i];
    match st.mode {
        ScanMode::Plain => if c == '#' {
            (i + 1, ScanState { mode: ScanMode::Comment, ..st })
        } else if c == '"' {
            if char_at(s, i + 1, '"') && char_at(s, i + 2, '"') {
                (i + 3, ScanState { mode: ScanMode::MultiBasic, ..st })
            } else {
                (i + 1, ScanState { mode: ScanMode::Basic, ..st })
            }
        } else if c == '\'' {
            if char_at(s, i + 1, '\'') && char_at(s, i + 2, '\'') {
                (i + 3, ScanState { mode: ScanMode::MultiLiteral, ..st })
            } else {
                (i + 1, ScanState { mode: ScanMode::Literal, ..st })
            }
        } else if c == '[' || c == '{' {
            (i + 1, ScanState { depth: st.depth + 1, ..st })
        } else if c == ']' || c == '}' {
            (i + 1, ScanState { depth: if st.depth > 0 { st.depth - 1 } else { 0 }, ..st })
        } else if c == '.' {
            (i + 1, ScanState { dots: st.dots + 1, ..st })
        } else if c == '\n' {
            (i + 1, ScanState { dots: 0, ..st })
        } else {
            (i + 1, st)
        },
        ScanMode::Comment => if c == '\n' {
            (i + 1, ScanState { mode: ScanMode::Plain, dots: 0, ..st })
        } else {
            (i + 1, st)
        },
        ScanMode::Basic => if c == '\\' {
            (i + 2, st)
        } else if c == '"' {
            (i + 1, ScanState { mode: ScanMode::Plain, ..st })
        } else if c == '\n' {
            (i + 1, ScanState { mode: ScanMode::Plain, dots: 0, ..st })
        } else {
            (i + 1, st)
        },
        ScanMode::MultiBasic => if c == '\\' {
            (i + 2, st)
        } else if c == '"' && char_at(s, i + 1, '"') && char_at(s, i + 2, '"') {
            (triple_end(s, i, '"'), ScanState { mode: ScanMode::Plain, ..st })
        } else {
            (i + 1, st)
        },
        ScanMode::Literal => if c == '\'' {
            (i + 1, ScanState { mode: ScanMode::Plain, ..st })
        } else if c == '\n' {
            (i + 1, ScanState { mode: ScanMode::Plain, dots: 0, ..st })
        } else {
            (i + 1, st)
        },
        ScanMode::MultiLiteral => if c == '\'' && char_at(s, i + 1, '\'') && char_at(s, i + 2, '\'') {
            (triple_end(s, i, '\''), ScanState { mode: ScanMode::Plain, ..st })
        } else {
            (i + 1, st)
        },
    }
}

fn triple_end(s: &Vec<char>, i: usize, q: char) -> (r: usize)
    requires
        s@.len() <= MAX_MANIFEST_CHARS,
        i < s@.len(),
    ensures
        r as int == after_triple(s@, i as int, q),
{
    if char_at(s, i + 3, q) {
        if char_at(s, i + 4, q) {
            i + 5
        } else {
            i + 4
        }
    } else {
        i + 3
    }
}

fn chars_of(text: &str) -> (r: Vec<char>)
    ensures
        r@ == text@,
{
    broadcast use vstd::string::axiom_spec_iter, vstd::string::next_postcondition;

    let mut it = text.chars();
    let ghost n = text@.len() as int;
    let mut r: Vec<char> = Vec::new();
    loop
        invariant
            r@.len() <= n,
            n == text@.len(),
            IteratorSpec::remaining(&it) == text@.subrange(r@.len() as int, n),
            r@ == text@.subrange(0, r@.len() as int),
        decreases n - r@.len(),
    {
        match it.next() {
            None => {
                assert(r@ =~= text@);
                return r;
            },
            Some(c) => {
                let ghost k = r@.len() as int;
                r.push(c);
                assert(r@ =~= text@.subrange(0, k + 1));
                assert(IteratorSpec::remaining(&it) =~= text@.subrange(k + 1, n));
            },
        }
    }
}

/// Scans the manifest text as the toml tokenizer reads it and tells whether
/// its nesting stays within the bounds.
pub fn within_nesting_bounds(text: &str) -> (r: bool)
    ensures
        r == manifest_within_bounds(text@),
{
    let s = chars_of(text);
    if s.len() > MAX_MANIFEST_CHARS {
        return false;
    }
    let mut i: usize = 0;
    let mut st = ScanState { mode: ScanMode::Plain, depth: 0, dots: 0 };
    while i < s.len()
        invariant
            s@ == text@,
            s@.len() <= MAX_MANIFEST_CHARS,
            in_bounds(st),
            i <= s@.len(),
            text@.len() <= MAX_MANIFEST_CHARS,
            scan_from(s@, i as int, st) == manifest_within_bounds(text@),
        decreases s@.len() - i,
    {
        let (j, next) = step(&s, i, st);
        if !(next.depth <= MAX_NESTING && next.dots <= MAX_LINE_DOTS) {
            return false;
        }
        i = if j < s.len() { j } else { s.len() };
        st = next;
    }
    true
}

} // verus!
