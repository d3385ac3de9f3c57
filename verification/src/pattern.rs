//! The forbidden-pattern scanner.
//!
//! Each pattern group is compiled into one combined matcher: substrings
//! are escaped and alternated, tokens are escaped and wrapped so they
//! only match when bounded by non-alphanumeric characters or string
//! edges, and raw fragments are inserted unescaped.  Matches are located
//! through a precomputed monotonic table of line-start byte offsets, and
//! every match yields one positioned diagnostic whose source window is
//! the match's lines expanded by one line of context on either side.

use vstd::prelude::*;
use vstd::slice::slice_index_get;

use crate::errors::TestError;
use crate::plan::{ForbiddenPatterns, ForbiddenPatternsGroup};
use crate::strutil::spec_join;

verus! {

// ---------------------------------------------------------------------
// Escaping literals for use inside a pattern.
// ---------------------------------------------------------------------
/// True for the characters that carry significance in a pattern and must
/// be escaped to match literally.
pub open spec fn is_meta_char(c: char) -> bool {
    c == '\\' || c == '.' || c == '+' || c == '*' || c == '?' || c == '(' || c == ')' || c == '|'
        || c == '[' || c == ']' || c == '{' || c == '}' || c == '^' || c == '$' || c == '#'
        || c == '&' || c == '-' || c == '~'
}

/// The escaped form of one character: a backslash is put before each
/// meta character, every other character is kept as it is.
pub open spec fn spec_escape_char(c: char) -> Seq<char> {
    if is_meta_char(c) {
        seq!['\\', c]
    } else {
        seq![c]
    }
}

/// The literal `s` with every meta character escaped.
pub open spec fn spec_escape(s: Seq<char>) -> Seq<char>
    decreases s.len(),
{
    if s.len() == 0 {
        Seq::empty()
    } else {
        spec_escape(s.drop_last()) + spec_escape_char(s.last())
    }
}

fn is_meta(c: char) -> (r: bool)
    ensures
        r == is_meta_char(c),
{
    c == '\\' || c == '.' || c == '+' || c == '*' || c == '?' || c == '(' || c == ')' || c == '|'
        || c == '[' || c == ']' || c == '{' || c == '}' || c == '^' || c == '$' || c == '#'
        || c == '&' || c == '-' || c == '~'
}

/// Escapes a literal so that it matches itself inside a pattern.
pub fn escape_literal(s: &str) -> (r: String)
    ensures
        r@ == spec_escape(s@),
{
    let n = s.unicode_len();
    let mut out = String::new();
    for i in 0..n
        invariant
            n == s@.len(),
            out@ == spec_escape(s@.take(i as int)),
    {
        let c = s.get_char(i);
        if is_meta(c) {
            out.append("\\");
        }
        let piece = s.substring_char(i, i + 1);
        out.append(piece);
        proof {
            reveal_strlit("\\");
            assert(s@.take(i + 1).drop_last() =~= s@.take(i as int));
            assert(s@.take(i + 1).last() == s@[i as int]);
            assert(piece@ =~= seq![s@[i as int]]);
            assert(out@ =~= spec_escape(s@.take(i + 1)));
        }
    }
    proof {
        assert(s@.take(n as int) =~= s@);
    }
    out
}

// ---------------------------------------------------------------------
// Building the combined pattern of one group.
// ---------------------------------------------------------------------
/// The alternative contributed by one substring literal: the escaped
/// literal in a capturing group.
pub open spec fn spec_substring_alt(lit: Seq<char>) -> Seq<char> {
    "("@ + spec_escape(lit) + ")"@
}

/// The alternative contributed by one token literal: the escaped literal
/// in a capturing group, bounded by non-alphanumeric characters or
/// string edges.
pub open spec fn spec_token_alt(lit: Seq<char>) -> Seq<char> {
    "(?:^|[^[:alnum:]])("@ + spec_escape(lit) + ")(?:[^[:alnum:]]|$)"@
}

/// The alternation parts of a group, in order: substrings, then tokens,
/// then raw fragments.
pub open spec fn spec_group_parts(g: ForbiddenPatternsGroup) -> Seq<Seq<char>> {
    g.substring@.map_values(|lit: String| spec_substring_alt(lit@)) + g.token@.map_values(
        |lit: String| spec_token_alt(lit@),
    ) + g.regex@.map_values(|lit: String| lit@)
}

/// The combined pattern of a group: all alternatives joined by `|`, with
/// multi-line and dot-matches-newline semantics enabled.
pub open spec fn spec_group_pattern(g: ForbiddenPatternsGroup) -> Seq<char> {
    "(?ms)"@ + spec_join(spec_group_parts(g), "|"@)
}

impl ForbiddenPatternsGroup {
    /// Builds the combined pattern text of this group.
    pub fn build_regex(&self) -> (r: String)
        ensures
            r@ == spec_group_pattern(*self),
    {
        let ghost parts_spec = spec_group_parts(*self);
        let mut parts: Vec<String> = Vec::new();
        let ns = self.substring.len();
        for i in 0..ns
            invariant
                ns == self.substring@.len(),
                parts@.map_values(|p: String| p@) =~= self.substring@.take(i as int).map_values(
                    |lit: String| spec_substring_alt(lit@),
                ),
        {
            let mut alt = String::from_str("(");
            let esc = escape_literal(self.substring[i].as_str());
            alt.append(esc.as_str());
            alt.append(")");
            proof {
                reveal_strlit("(");
                reveal_strlit(")");
                assert(alt@ =~= spec_substring_alt(self.substring@[i as int]@));
            }
            let ghost parts_before = parts@;
            parts.push(alt);
            proof {
                let f = |lit: String| spec_substring_alt(lit@);
                assert(parts@ =~= parts_before.push(alt));
                assert(parts@.map_values(|p: String| p@) =~= parts_before.map_values(
                    |p: String| p@,
                ).push(alt@));
                assert(self.substring@.take(i + 1) =~= self.substring@.take(i as int).push(
                    self.substring@[i as int],
                ));
                assert(self.substring@.take(i + 1).map_values(f) =~= self.substring@.take(
                    i as int,
                ).map_values(f).push(f(self.substring@[i as int])));
                assert(parts@.map_values(|p: String| p@) =~= self.substring@.take(
                    i + 1,
                ).map_values(f));
            }
        }
        proof {
            assert(self.substring@.take(ns as int) =~= self.substring@);
        }
        let nt = self.token.len();
        for i in 0..nt
            invariant
                nt == self.token@.len(),
                parts@.map_values(|p: String| p@) =~= self.substring@.map_values(
                    |lit: String| spec_substring_alt(lit@),
                ) + self.token@.take(i as int).map_values(|lit: String| spec_token_alt(lit@)),
        {
            let mut alt = String::from_str("(?:^|[^[:alnum:]])(");
            let esc = escape_literal(self.token[i].as_str());
            alt.append(esc.as_str());
            alt.append(")(?:[^[:alnum:]]|$)");
            proof {
                reveal_strlit("(?:^|[^[:alnum:]])(");
                reveal_strlit(")(?:[^[:alnum:]]|$)");
                assert(alt@ =~= spec_token_alt(self.token@[i as int]@));
            }
            let ghost parts_before = parts@;
            parts.push(alt);
            proof {
                let f = |lit: String| spec_token_alt(lit@);
                assert(parts@ =~= parts_before.push(alt));
                assert(parts@.map_values(|p: String| p@) =~= parts_before.map_values(
                    |p: String| p@,
                ).push(alt@));
                assert(self.token@.take(i + 1) =~= self.token@.take(i as int).push(
                    self.token@[i as int],
                ));
                assert(self.token@.take(i + 1).map_values(f) =~= self.token@.take(
                    i as int,
                ).map_values(f).push(f(self.token@[i as int])));
                assert(parts@.map_values(|p: String| p@) =~= self.substring@.map_values(
                    |lit: String| spec_substring_alt(lit@),
                ) + self.token@.take(i + 1).map_values(f));
            }
        }
        proof {
            assert(self.token@.take(nt as int) =~= self.token@);
        }
        let nr = self.regex.len();
        for i in 0..nr
            invariant
                nr == self.regex@.len(),
                parts@.map_values(|p: String| p@) =~= self.substring@.map_values(
                    |lit: String| spec_substring_alt(lit@),
                ) + self.token@.map_values(|lit: String| spec_token_alt(lit@))
                    + self.regex@.take(i as int).map_values(|lit: String| lit@),
        {
            let frag = String::from_str(self.regex[i].as_str());
            let ghost parts_before = parts@;
            parts.push(frag);
            proof {
                let f = |lit: String| lit@;
                assert(parts@ =~= parts_before.push(frag));
                assert(parts@.map_values(|p: String| p@) =~= parts_before.map_values(
                    |p: String| p@,
                ).push(frag@));
                assert(self.regex@.take(i + 1) =~= self.regex@.take(i as int).push(
                    self.regex@[i as int],
                ));
                assert(self.regex@.take(i + 1).map_values(f) =~= self.regex@.take(
                    i as int,
                ).map_values(f).push(f(self.regex@[i as int])));
                assert(parts@.map_values(|p: String| p@) =~= self.substring@.map_values(
                    |lit: String| spec_substring_alt(lit@),
                ) + self.token@.map_values(|lit: String| spec_token_alt(lit@))
                    + self.regex@.take(i + 1).map_values(f));
            }
        }
        proof {
            assert(self.regex@.take(nr as int) =~= self.regex@);
            assert(parts@.map_values(|p: String| p@) =~= parts_spec);
        }
        let joined = crate::strutil::join_strings(&parts, "|");
        let mut pattern = String::from_str("(?ms)");
        pattern.append(joined.as_str());
        pattern
    }
}

// ---------------------------------------------------------------------
// The table of line-start byte offsets.
// ---------------------------------------------------------------------
/// The line-start offsets that the newlines of `t` contribute: offset 0,
/// then one entry just past each newline byte.
pub open spec fn spec_raw_line_starts(t: Seq<u8>) -> Seq<usize>
    decreases t.len(),
{
    if t.len() == 0 {
        seq![0usize]
    } else if t.last() == 10 {
        spec_raw_line_starts(t.drop_last()).push(t.len() as usize)
    } else {
        spec_raw_line_starts(t.drop_last())
    }
}

/// The full line-start table of `t`: the raw table, closed with the text
/// length when the text does not end in a newline, so that the last
/// entry is always the text length.
pub open spec fn spec_line_starts(t: Seq<u8>) -> Seq<usize> {
    if t.len() > 0 && t.last() != 10 {
        spec_raw_line_starts(t).push(t.len() as usize)
    } else {
        spec_raw_line_starts(t)
    }
}

/// A well-formed line-start table for a text of `text_len` bytes: it
/// begins with 0, is strictly increasing, and ends with the text length.
pub open spec fn wf_line_table(starts: Seq<usize>, text_len: int) -> bool {
    &&& starts.len() >= 1
    &&& starts[0] == 0
    &&& starts.last() == text_len
    &&& forall|i: int, j: int| 0 <= i < j < starts.len() ==> starts[i] < starts[j]
}

proof fn lemma_raw_line_starts_props(t: Seq<u8>)
    requires
        t.len() <= usize::MAX,
    ensures
        spec_raw_line_starts(t).len() >= 1,
        spec_raw_line_starts(t)[0] == 0,
        forall|i: int, j: int|
            0 <= i < j < spec_raw_line_starts(t).len() ==> spec_raw_line_starts(t)[i]
                < spec_raw_line_starts(t)[j],
        forall|k: int|
            0 <= k < spec_raw_line_starts(t).len() ==> #[trigger] spec_raw_line_starts(t)[k]
                <= t.len(),
        forall|k: int|
            0 <= k < spec_raw_line_starts(t).len() ==> (#[trigger] spec_raw_line_starts(t)[k] == 0
                || t[spec_raw_line_starts(t)[k] - 1] == 10),
        t.len() > 0 && t.last() == 10 ==> spec_raw_line_starts(t).last() == t.len(),
    decreases t.len(),
{
    if t.len() == 0 {
    } else {
        lemma_raw_line_starts_props(t.drop_last());
        let prev = spec_raw_line_starts(t.drop_last());
        assert(forall|k: int| 0 <= k < prev.len() ==> #[trigger] prev[k] <= t.len() - 1);
        assert(forall|k: int|
            0 <= k < prev.len() && prev[k] != 0 ==> t.drop_last()[prev[k] - 1] == t[prev[k] - 1]);
        if t.last() == 10 {
            let cur = spec_raw_line_starts(t);
            assert(cur =~= prev.push(t.len() as usize));
            assert(forall|k: int|
                0 <= k < prev.len() && prev[k] != 0 ==> t[#[trigger] prev[k] - 1] == 10);
            assert(t[t.len() - 1] == 10);
        }
    }
}

/// The full table is well formed.
pub proof fn lemma_line_table_wf(t: Seq<u8>)
    requires
        t.len() <= usize::MAX,
    ensures
        wf_line_table(spec_line_starts(t), t.len() as int),
{
    lemma_raw_line_starts_props(t);
    let raw = spec_raw_line_starts(t);
    if t.len() == 0 {
    } else if t.last() == 10 {
    } else {
        assert(forall|k: int| 0 <= k < raw.len() ==> #[trigger] raw[k] < t.len()) by {
            assert(forall|k: int|
                0 <= k < raw.len() && #[trigger] raw[k] == t.len() ==> t[t.len() - 1] == 10);
        }
    }
}

/// Computes the monotonic table of line-start byte offsets of `text`:
/// offset 0, then the offset just past each newline, closed with the
/// text length.
pub fn line_starts(text: &[u8]) -> (r: Vec<usize>)
    ensures
        r@ == spec_line_starts(text@),
        wf_line_table(r@, text@.len() as int),
{
    let n = text.len();
    let mut starts: Vec<usize> = Vec::new();
    starts.push(0);
    proof {
        assert(starts@ =~= spec_raw_line_starts(text@.take(0)));
    }
    for i in 0..n
        invariant
            n == text@.len(),
            starts@ == spec_raw_line_starts(text@.take(i as int)),
    {
        let ghost pre = text@.take(i as int);
        let b = *slice_index_get(text, i);
        proof {
            assert(text@.take(i + 1).drop_last() =~= pre);
            assert(text@.take(i + 1).last() == text@[i as int]);
        }
        if b == 10 {
            starts.push(i + 1);
            proof {
                assert(starts@ =~= spec_raw_line_starts(pre).push((i + 1) as usize));
            }
        }
    }
    proof {
        assert(text@.take(n as int) =~= text@);
    }
    if n > 0 && *slice_index_get(text, n - 1) != 10 {
        starts.push(n);
    }
    proof {
        lemma_line_table_wf(text@);
    }
    starts
}

// ---------------------------------------------------------------------
// Mapping byte offsets to line indices.
// ---------------------------------------------------------------------
/// The line index that contains byte offset `off`: the greatest index
/// whose start is at most `off`.
pub open spec fn spec_line_of(starts: Seq<usize>, off: int) -> int
    decreases starts.len(),
{
    if starts.len() <= 1 {
        0
    } else if starts.last() <= off {
        starts.len() - 1
    } else {
        spec_line_of(starts.drop_last(), off)
    }
}

/// In a table that starts at 0 and is strictly increasing,
/// `spec_line_of` picks exactly the greatest entry at most `off`.
pub proof fn lemma_line_of_props(starts: Seq<usize>, off: int)
    requires
        starts.len() >= 1,
        starts[0] == 0,
        off >= 0,
        forall|i: int, j: int| 0 <= i < j < starts.len() ==> starts[i] < starts[j],
    ensures
        0 <= spec_line_of(starts, off) < starts.len(),
        starts[spec_line_of(starts, off)] <= off,
        spec_line_of(starts, off) + 1 < starts.len() ==> off < starts[spec_line_of(starts, off)
            + 1],
    decreases starts.len(),
{
    if starts.len() <= 1 {
    } else if starts.last() <= off {
    } else {
        let prev = starts.drop_last();
        lemma_line_of_props(prev, off);
        let i = spec_line_of(prev, off);
        assert(starts[i] == prev[i]);
        if i + 1 < starts.len() {
            if i + 1 < prev.len() {
                assert(starts[i + 1] == prev[i + 1]);
            }
        }
    }
}

/// Finding a line is monotone in the offset.
pub proof fn lemma_line_of_monotone(starts: Seq<usize>, o1: int, o2: int)
    requires
        starts.len() >= 1,
        starts[0] == 0,
        0 <= o1 <= o2,
        forall|i: int, j: int| 0 <= i < j < starts.len() ==> starts[i] < starts[j],
    ensures
        spec_line_of(starts, o1) <= spec_line_of(starts, o2),
{
    lemma_line_of_props(starts, o1);
    lemma_line_of_props(starts, o2);
    let i1 = spec_line_of(starts, o1);
    let i2 = spec_line_of(starts, o2);
    if i1 > i2 {
        assert(starts[i2 + 1] <= starts[i1]);
    }
}

/// Maps a byte offset to the index of its containing line by binary
/// search over the monotonic offset table.
pub fn line_index_for_byte_offset(starts: &Vec<usize>, offset: usize) -> (r: usize)
    requires
        starts@.len() >= 1,
        starts@[0] == 0,
        forall|i: int, j: int| 0 <= i < j < starts@.len() ==> starts@[i] < starts@[j],
    ensures
        r == spec_line_of(starts@, offset as int),
        r < starts@.len(),
        starts@[r as int] <= offset,
        r + 1 < starts@.len() ==> offset < starts@[r + 1],
{
    let mut lo: usize = 0;
    let mut hi: usize = starts.len() - 1;
    while lo < hi
        invariant
            lo <= hi < starts@.len(),
            starts@[lo as int] <= offset,
            hi + 1 < starts@.len() ==> offset < starts@[hi + 1],
            starts@.len() >= 1,
            starts@[0] == 0,
            forall|i: int, j: int| 0 <= i < j < starts@.len() ==> starts@[i] < starts@[j],
        decreases hi - lo,
    {
        let mid = hi - (hi - lo) / 2;
        if starts[mid] <= offset {
            lo = mid;
        } else {
            hi = mid - 1;
        }
    }
    proof {
        lemma_line_of_props(starts@, offset as int);
        let s = spec_line_of(starts@, offset as int);
        if s < lo {
            assert(starts@[s + 1] <= starts@[lo as int]);
        }
        if s > lo {
            assert(starts@[lo + 1] <= starts@[s]);
        }
    }
    lo
}

// ---------------------------------------------------------------------
// Diagnostics.
// ---------------------------------------------------------------------
/// One positioned finding: the file it was found in, the byte window of
/// surrounding source lines, the 1-based number of the window's first
/// line, the match's absolute byte span, and the owning group's hint.
#[derive(Debug)]
pub struct Diagnostic {
    pub path: String,
    pub window_start: usize,
    pub window_end: usize,
    pub line_start: usize,
    pub span_start: usize,
    pub span_end: usize,
    pub hint: Option<String>,
}

/// The mathematical image of a diagnostic.
pub ghost struct DiagView {
    pub path: Seq<char>,
    pub window_start: int,
    pub window_end: int,
    pub line_start: int,
    pub span_start: int,
    pub span_end: int,
    pub hint: Option<Seq<char>>,
}

pub open spec fn spec_opt_view(h: Option<String>) -> Option<Seq<char>> {
    match h {
        Some(s) => Some(s@),
        None => None,
    }
}

impl View for Diagnostic {
    type V = DiagView;

    open spec fn view(&self) -> DiagView {
        DiagView {
            path: self.path@,
            window_start: self.window_start as int,
            window_end: self.window_end as int,
            line_start: self.line_start as int,
            span_start: self.span_start as int,
            span_end: self.span_end as int,
            hint: spec_opt_view(self.hint),
        }
    }
}

/// A diagnostic whose window and span lie inside a text of `text_len`
/// bytes, with the span inside the window: nothing it points at can be
/// read out of bounds.
pub open spec fn diag_in_bounds(d: DiagView, text_len: int) -> bool {
    &&& 0 <= d.window_start <= d.span_start <= d.span_end <= d.window_end <= text_len
    &&& d.line_start >= 1
}

/// The diagnostic for a match at byte span `[s, e)`, placed against the
/// line table: the window runs from one line before the match's first
/// line to one line after its last line, clamped to the file bounds.
pub open spec fn spec_diag(
    path: Seq<char>,
    hint: Option<Seq<char>>,
    starts: Seq<usize>,
    text_len: int,
    s: int,
    e: int,
) -> DiagView {
    let lc = starts.len() - 1;
    if text_len == 0 {
        DiagView {
            path,
            window_start: 0,
            window_end: 0,
            line_start: 1,
            span_start: s,
            span_end: e,
            hint,
        }
    } else {
        let s_probe = if s < text_len {
            s
        } else {
            text_len - 1
        };
        let e_probe = if e > s {
            e - 1
        } else {
            s_probe
        };
        let start_line = spec_line_of(starts, s_probe);
        let end_line = spec_line_of(starts, e_probe);
        let first_line = if start_line > 0 {
            start_line - 1
        } else {
            0
        };
        let last_line = if end_line + 2 <= lc {
            end_line + 2
        } else {
            lc
        };
        DiagView {
            path,
            window_start: starts[first_line] as int,
            window_end: starts[last_line] as int,
            line_start: first_line + 1,
            span_start: s,
            span_end: e,
            hint,
        }
    }
}

/// Places one match against the line table and builds its diagnostic.
/// The window never reads out of bounds: it contains the span and stays
/// within the text.
pub fn localize_match(
    path: &String,
    hint: &Option<String>,
    starts: &Vec<usize>,
    text_len: usize,
    span_start: usize,
    span_end: usize,
) -> (d: Diagnostic)
    requires
        wf_line_table(starts@, text_len as int),
        span_start <= span_end <= text_len,
    ensures
        d@ == spec_diag(
            path@,
            spec_opt_view(*hint),
            starts@,
            text_len as int,
            span_start as int,
            span_end as int,
        ),
        diag_in_bounds(d@, text_len as int),
{
    let path = path.clone();
    let hint = match hint {
        Some(h) => Some(h.clone()),
        None => None,
    };
    if text_len == 0 {
        Diagnostic {
            path,
            window_start: 0,
            window_end: 0,
            line_start: 1,
            span_start,
            span_end,
            hint,
        }
    } else {
        let line_count = starts.len() - 1;
        let s_probe = if span_start < text_len {
            span_start
        } else {
            text_len - 1
        };
        let e_probe = if span_end > span_start {
            span_end - 1
        } else {
            s_probe
        };
        let start_line = line_index_for_byte_offset(starts, s_probe);
        let end_line = line_index_for_byte_offset(starts, e_probe);
        let first_line = if start_line > 0 {
            start_line - 1
        } else {
            0
        };
        let last_line = if end_line + 2 <= line_count {
            end_line + 2
        } else {
            line_count
        };
        proof {
            lemma_line_of_props(starts@, s_probe as int);
            lemma_line_of_props(starts@, e_probe as int);
            lemma_line_of_monotone(starts@, s_probe as int, e_probe as int);
            // The match's last probed byte lies before the end of the text,
            // so its line is a real line, not the closing sentinel.
            assert(end_line < line_count) by {
                assert(starts@[line_count as int] == text_len);
                if end_line == line_count {
                    assert(starts@[end_line as int] <= e_probe);
                }
            }
            assert(first_line <= start_line);
            if first_line < start_line {
                assert(starts@[first_line as int] < starts@[start_line as int]);
            }
            assert(starts@[start_line as int] <= s_probe <= span_start);
            assert(end_line + 1 <= last_line);
            if end_line + 1 < last_line {
                assert(starts@[end_line + 1] < starts@[last_line as int]);
            }
            assert(e_probe < starts@[end_line + 1]);
            assert(span_end <= starts@[last_line as int]);
            if first_line < last_line {
                assert(starts@[first_line as int] < starts@[last_line as int]);
            }
            if last_line < line_count {
                assert(starts@[last_line as int] < starts@[line_count as int]);
            }
        }
        Diagnostic {
            path,
            window_start: starts[first_line],
            window_end: starts[last_line],
            line_start: first_line + 1,
            span_start,
            span_end,
            hint,
        }
    }
}

/// Extracts a diagnostic's source window from the file text.
pub fn window_text(text: &[u8], d: &Diagnostic) -> (r: Vec<u8>)
    requires
        d.window_start <= d.window_end <= text@.len(),
    ensures
        r@ == text@.subrange(d.window_start as int, d.window_end as int),
{
    let w = vstd::slice::slice_subrange(text, d.window_start, d.window_end);
    vstd::slice::slice_to_vec(w)
}

// ---------------------------------------------------------------------
// Running a pattern over a text.
// ---------------------------------------------------------------------
/// Whether the regex engine accepts `pattern`; a function of the
/// pattern alone.
pub uninterp spec fn regex_compiles(pattern: Seq<char>) -> bool;

/// The match spans that `pattern` produces on `text`, in order: for each
/// match, the byte span of its last participating capture group.  A
/// function of the pattern and the text alone.
pub uninterp spec fn regex_match_spans(pattern: Seq<char>, text: Seq<u8>) -> Seq<(usize, usize)>;

/// Relies on `regex::bytes::Regex::new` and
/// `regex::bytes::Regex::captures_iter`: whether a pattern compiles
/// depends on the pattern alone, the matches depend on the pattern and
/// the haystack alone, and every reported span lies within the haystack.
/// Each reported span is the span of the last participating capture
/// group of one match, as `Captures::iter` orders them.
#[verifier::external_body]
fn regex_find_spans(pattern: &str, text: &[u8]) -> (r: Option<Vec<(usize, usize)>>)
    ensures
        r is Some <==> regex_compiles(pattern@),
        r matches Some(spans) ==> spans@ == regex_match_spans(pattern@, text@),
        r matches Some(spans) ==> forall|k: int|
            0 <= k < spans@.len() ==> (#[trigger] spans@[k]).0 <= spans@[k].1 <= text@.len(),
{
    let re = match regex::bytes::Regex::new(pattern) {
        Ok(re) => re,
        Err(_) => return None,
    };
    let mut spans = Vec::new();
    for caps in re.captures_iter(text) {
        let m = caps.iter().flatten().last().expect("group 0 always participates");
        spans.push((m.start(), m.end()));
    }
    Some(spans)
}

// ---------------------------------------------------------------------
// Scanning a file.
// ---------------------------------------------------------------------
/// The diagnostics that one non-empty group contributes on `text`.
pub open spec fn spec_group_diags(
    path: Seq<char>,
    g: ForbiddenPatternsGroup,
    text: Seq<u8>,
) -> Seq<DiagView> {
    regex_match_spans(spec_group_pattern(g), text).map_values(
        |sp: (usize, usize)|
            spec_diag(
                path,
                spec_opt_view(g.hint),
                spec_line_starts(text),
                text.len() as int,
                sp.0 as int,
                sp.1 as int,
            ),
    )
}

/// What one group contributes on one file: nothing when it is empty,
/// its positioned matches otherwise.
pub open spec fn spec_group_contrib(
    path: Seq<char>,
    g: ForbiddenPatternsGroup,
    text: Seq<u8>,
) -> Seq<DiagView> {
    if g.spec_is_empty() {
        Seq::<DiagView>::empty()
    } else {
        spec_group_diags(path, g, text)
    }
}

/// The diagnostics of all groups on one file, in group order; empty
/// groups contribute nothing.
pub open spec fn spec_file_diags(
    groups: Seq<ForbiddenPatternsGroup>,
    path: Seq<char>,
    text: Seq<u8>,
) -> Seq<DiagView>
    decreases groups.len(),
{
    if groups.len() == 0 {
        Seq::empty()
    } else {
        spec_file_diags(groups.drop_last(), path, text) + spec_group_contrib(
            path,
            groups.last(),
            text,
        )
    }
}

/// A literal carried as a substring entry and the same literal carried
/// as a raw fragment in its escaped, parenthesised form compile to the
/// same combined pattern, so the scanner reports the same diagnostics
/// for the two encodings on every input.
pub proof fn lemma_substring_equals_escaped_raw(
    g1: ForbiddenPatternsGroup,
    g2: ForbiddenPatternsGroup,
    lit: String,
    raw: String,
    path: Seq<char>,
    text: Seq<u8>,
)
    requires
        g1.substring@ == seq![lit],
        g1.token@.len() == 0,
        g1.regex@.len() == 0,
        g2.substring@.len() == 0,
        g2.token@.len() == 0,
        g2.regex@ == seq![raw],
        g1.hint == g2.hint,
        raw@ == spec_substring_alt(lit@),
    ensures
        spec_group_pattern(g1) == spec_group_pattern(g2),
        spec_group_diags(path, g1, text) == spec_group_diags(path, g2, text),
{
    assert(spec_group_parts(g1) =~= seq![spec_substring_alt(lit@)]);
    assert(spec_group_parts(g2) =~= seq![raw@]);
    assert(spec_group_pattern(g1) == spec_group_pattern(g2));
    let spans = regex_match_spans(spec_group_pattern(g1), text);
    let d1 = spec_group_diags(path, g1, text);
    let d2 = spec_group_diags(path, g2, text);
    assert forall|k: int| 0 <= k < spans.len() implies d1[k] == d2[k] by {
        assert(d1[k] == spec_diag(
            path,
            spec_opt_view(g1.hint),
            spec_line_starts(text),
            text.len() as int,
            spans[k].0 as int,
            spans[k].1 as int,
        ));
        assert(d2[k] == spec_diag(
            path,
            spec_opt_view(g2.hint),
            spec_line_starts(text),
            text.len() as int,
            spans[k].0 as int,
            spans[k].1 as int,
        ));
    }
    assert(d1 =~= d2);
}

/// Every non-empty group's combined pattern compiles.
pub open spec fn spec_groups_compile(groups: Seq<ForbiddenPatternsGroup>) -> bool {
    forall|i: int|
        0 <= i < groups.len() && !(#[trigger] groups[i].spec_is_empty()) ==> regex_compiles(
            spec_group_pattern(groups[i]),
        )
}

/// Scans one file's text with every group and returns the positioned
/// diagnostics, or the pattern that failed to compile.
pub fn check_forbidden_patterns_file(
    groups: &Vec<ForbiddenPatternsGroup>,
    path: &String,
    text: &[u8],
) -> (r: Result<Vec<Diagnostic>, TestError>)
    ensures
        r is Ok <==> spec_groups_compile(groups@),
        r matches Ok(ds) ==> ds@.map_values(|d: Diagnostic| d@) == spec_file_diags(
            groups@,
            path@,
            text@,
        ),
        r matches Ok(ds) ==> forall|k: int|
            0 <= k < ds@.len() ==> diag_in_bounds(#[trigger] ds@[k]@, text@.len() as int),
        r matches Err(e) ==> e matches TestError::RegexCompile { pattern } && !regex_compiles(
            pattern@,
        ) && exists|i: int|
            0 <= i < groups@.len() && !(#[trigger] groups@[i].spec_is_empty()) && pattern@
                == spec_group_pattern(groups@[i]),
{
    let text_len = text.len();
    let starts = line_starts(text);
    let mut diags: Vec<Diagnostic> = Vec::new();
    let n = groups.len();
    for gi in 0..n
        invariant
            n == groups@.len(),
            text_len == text@.len(),
            starts@ == spec_line_starts(text@),
            wf_line_table(starts@, text@.len() as int),
            spec_groups_compile(groups@.take(gi as int)),
            diags@.map_values(|d: Diagnostic| d@) == spec_file_diags(
                groups@.take(gi as int),
                path@,
                text@,
            ),
            forall|k: int|
                0 <= k < diags@.len() ==> diag_in_bounds(#[trigger] diags@[k]@, text@.len() as int),
    {
        let g = &groups[gi];
        proof {
            assert(*g == groups@[gi as int]);
        }
        let ghost head = spec_group_contrib(path@, groups@[gi as int], text@);
        if !g.is_empty() {
            let pattern = g.build_regex();
            match regex_find_spans(pattern.as_str(), text) {
                None => {
                    proof {
                        assert(!groups@[gi as int].spec_is_empty() && pattern@
                            == spec_group_pattern(groups@[gi as int]));
                    }
                    return Err(TestError::RegexCompile { pattern });
                },
                Some(spans) => {
                    let ghost spans_spec = regex_match_spans(spec_group_pattern(*g), text@);
                    let m = spans.len();
                    for si in 0..m
                        invariant
                            m == spans@.len(),
                            spans@ == spans_spec,
                            text_len == text@.len(),
                            starts@ == spec_line_starts(text@),
                            wf_line_table(starts@, text@.len() as int),
                            forall|k: int|
                                0 <= k < spans@.len() ==> (#[trigger] spans@[k]).0 <= spans@[k].1
                                    <= text@.len(),
                            gi < groups@.len(),
                            *g == groups@[gi as int],
                            !groups@[gi as int].spec_is_empty(),
                            spans_spec == regex_match_spans(
                                spec_group_pattern(groups@[gi as int]),
                                text@,
                            ),
                            head == spec_group_diags(path@, groups@[gi as int], text@),
                            diags@.map_values(|d: Diagnostic| d@) == spec_file_diags(
                                groups@.take(gi as int),
                                path@,
                                text@,
                            ) + head.take(si as int),
                            forall|k: int|
                                0 <= k < diags@.len() ==> diag_in_bounds(
                                    #[trigger] diags@[k]@,
                                    text@.len() as int,
                                ),
                    {
                        let (s, e) = spans[si];
                        let d = localize_match(path, &g.hint, &starts, text_len, s, e);
                        let ghost diags_before = diags@;
                        diags.push(d);
                        proof {
                            assert(diags@ =~= diags_before.push(d));
                            assert(diags@.map_values(|d: Diagnostic| d@) =~= diags_before.map_values(
                                |d: Diagnostic| d@,
                            ).push(d@));
                            assert(spans_spec == regex_match_spans(
                                spec_group_pattern(groups@[gi as int]),
                                text@,
                            ));
                            assert(head == spans_spec.map_values(
                                |sp: (usize, usize)|
                                    spec_diag(
                                        path@,
                                        spec_opt_view(groups@[gi as int].hint),
                                        spec_line_starts(text@),
                                        text@.len() as int,
                                        sp.0 as int,
                                        sp.1 as int,
                                    ),
                            ));
                            assert(head.len() == spans_spec.len());
                            assert(head[si as int] == spec_diag(
                                path@,
                                spec_opt_view(groups@[gi as int].hint),
                                spec_line_starts(text@),
                                text@.len() as int,
                                spans_spec[si as int].0 as int,
                                spans_spec[si as int].1 as int,
                            ));
                            assert(head.take(si + 1) =~= head.take(si as int).push(
                                head[si as int],
                            ));
                            assert(diags@.map_values(|d: Diagnostic| d@) =~= spec_file_diags(
                                groups@.take(gi as int),
                                path@,
                                text@,
                            ) + head.take(si + 1));
                        }
                    }
                    proof {
                        assert(head.take(m as int) =~= head);
                    }
                },
            }
        }
        proof {
            assert(groups@.take(gi + 1).drop_last() =~= groups@.take(gi as int));
            assert(groups@.take(gi + 1).last() == groups@[gi as int]);
            assert(head == spec_group_contrib(path@, groups@[gi as int], text@));
            assert(diags@.map_values(|d: Diagnostic| d@) =~= spec_file_diags(
                groups@.take(gi + 1),
                path@,
                text@,
            ));
            assert(forall|j: int|
                0 <= j < gi + 1 ==> groups@.take(gi + 1)[j] == groups@.take(gi as int).push(
                    groups@[gi as int],
                )[j]);
            assert(spec_groups_compile(groups@.take(gi + 1)));
        }
    }
    proof {
        assert(groups@.take(n as int) =~= groups@);
    }
    Ok(diags)
}

// ---------------------------------------------------------------------
// Scanning the whole editable set.
// ---------------------------------------------------------------------
/// The diagnostics of all groups over all files, in file order.
pub open spec fn spec_files_diags(
    groups: Seq<ForbiddenPatternsGroup>,
    files: Seq<(String, Vec<u8>)>,
) -> Seq<DiagView>
    decreases files.len(),
{
    if files.len() == 0 {
        Seq::empty()
    } else {
        spec_files_diags(groups, files.drop_last()) + spec_file_diags(
            groups,
            files.last().0@,
            files.last().1@,
        )
    }
}

/// Scans every editable file and concatenates the diagnostics, or
/// reports the pattern that failed to compile.
pub fn scan_files(cfg: &ForbiddenPatterns, files: &Vec<(String, Vec<u8>)>) -> (r: Result<
    Vec<Diagnostic>,
    TestError,
>)
    ensures
        r is Ok <==> (files@.len() == 0 || spec_groups_compile(cfg.groups@)),
        r matches Ok(ds) ==> ds@.map_values(|d: Diagnostic| d@) == spec_files_diags(
            cfg.groups@,
            files@,
        ),
        r matches Err(e) ==> e matches TestError::RegexCompile { pattern } && !regex_compiles(
            pattern@,
        ) && exists|i: int|
            0 <= i < cfg.groups@.len() && !(#[trigger] cfg.groups@[i].spec_is_empty()) && pattern@
                == spec_group_pattern(cfg.groups@[i]),
{
    let mut diags: Vec<Diagnostic> = Vec::new();
    let n = files.len();
    for fi in 0..n
        invariant
            n == files@.len(),
            fi > 0 ==> spec_groups_compile(cfg.groups@),
            diags@.map_values(|d: Diagnostic| d@) == spec_files_diags(
                cfg.groups@,
                files@.take(fi as int),
            ),
    {
        let path = &files[fi].0;
        let content = &files[fi].1;
        let ghost diags_before = diags@;
        match check_forbidden_patterns_file(&cfg.groups, path, content.as_slice()) {
            Ok(mut ds) => {
                let ghost ds_view = ds@;
                diags.append(&mut ds);
                proof {
                    assert(diags@ =~= diags_before + ds_view);
                    assert(diags@.map_values(|d: Diagnostic| d@) =~= diags_before.map_values(
                        |d: Diagnostic| d@,
                    ) + ds_view.map_values(|d: Diagnostic| d@));
                    assert(files@.take(fi + 1).drop_last() =~= files@.take(fi as int));
                    assert(files@.take(fi + 1).last() == files@[fi as int]);
                    assert(diags@.map_values(|d: Diagnostic| d@) =~= spec_files_diags(
                        cfg.groups@,
                        files@.take(fi + 1),
                    ));
                }
            },
            Err(e) => {
                return Err(e);
            },
        }
    }
    proof {
        assert(files@.take(n as int) =~= files@);
    }
    Ok(diags)
}

/// At most this many diagnostics are rendered; the rest are only
/// counted.
pub const MAX_MESSAGES: usize = 20;

/// How many of `total` diagnostics to render and how many are omitted.
pub fn rendering_counts(total: usize) -> (r: (usize, usize))
    ensures
        r.0 == if total < MAX_MESSAGES as int {
            total as int
        } else {
            MAX_MESSAGES as int
        },
        r.0 + r.1 == total,
{
    if total < MAX_MESSAGES {
        (total, 0)
    } else {
        (MAX_MESSAGES, total - MAX_MESSAGES)
    }
}

/// Scans every editable file and turns the findings into the step's
/// result: success exactly when the scan finds nothing, otherwise the
/// failure carrying the total count.
pub fn check_forbidden_patterns(cfg: &ForbiddenPatterns, files: &Vec<(String, Vec<u8>)>) -> (r:
    Result<(), TestError>)
    ensures
        r is Ok <==> ((files@.len() == 0 || spec_groups_compile(cfg.groups@)) && spec_files_diags(
            cfg.groups@,
            files@,
        ).len() == 0),
        r matches Err(e) ==> match e {
            TestError::RegexCompile { pattern } => !regex_compiles(pattern@) && exists|i: int|
                0 <= i < cfg.groups@.len() && !(#[trigger] cfg.groups@[i].spec_is_empty())
                    && pattern@ == spec_group_pattern(cfg.groups@[i]),
            TestError::ForbiddenPatternsFound { count } => count == spec_files_diags(
                cfg.groups@,
                files@,
            ).len() && count > 0,
            _ => false,
        },
{
    let diags = match scan_files(cfg, files) {
        Ok(ds) => ds,
        Err(e) => {
            return Err(e);
        },
    };
    if diags.len() == 0 {
        proof {
            assert(diags@.map_values(|d: Diagnostic| d@).len() == 0);
        }
        Ok(())
    } else {
        let count = diags.len();
        proof {
            assert(diags@.map_values(|d: Diagnostic| d@).len() == count);
        }
        Err(TestError::ForbiddenPatternsFound { count })
    }
}

} // verus!
