//! The scanner: runs the lexer automaton over the input with longest
//! match, skips comments and white space, and recovers from bad symbols.
use crate::err::lex_error::LexError;
use crate::lex::dfa::DFA;
use crate::lex::types::{ClassID, StateID};
use crate::types::token::{Token, TokenValue};
use crate::utils::str_util::string_push;
use vstd::prelude::*;

verus! {

/// What the scanner is doing.
#[derive(Debug, Clone, Copy, PartialEq, Eq, Structural)]
pub enum LexMode {
    /// Running the automaton.
    Normal,
    /// Kept for string scanning; falls back to `Normal` at once.
    String,
    /// Skipping to the end of the line.
    LineComment,
    /// Skipping to the closing `*/`.
    BlockComment,
    /// Skipping white space.
    WhileSpace,
}

/// What entering a state of the automaton does: the token the state
/// accepts, if any, and the mode it switches the scanner to, if any.
#[derive(Debug, Clone, Copy)]
pub struct StateAction {
    pub token: Option<usize>,
    pub mode: Option<LexMode>,
}

/// The lexer automaton: transitions on character classes, the class of
/// each character code below `classes.len()` (other characters have no
/// transition), the action of each state, and the start state.
pub struct LexTable {
    pub dfa: DFA,
    pub classes: Vec<ClassID>,
    pub actions: Vec<StateAction>,
    pub init_state: StateID,
}

/// Whether `c` is white space as `char::is_whitespace` has it (the
/// Unicode `White_Space` property).
pub open spec fn spec_is_white_space(c: char) -> bool {
    let n = c as u32;
    ||| 0x09 <= n <= 0x0D
    ||| n == 0x20
    ||| n == 0x85
    ||| n == 0xA0
    ||| n == 0x1680
    ||| 0x2000 <= n <= 0x200A
    ||| n == 0x2028
    ||| n == 0x2029
    ||| n == 0x202F
    ||| n == 0x205F
    ||| n == 0x3000
}

/// Whether `c` is ASCII white space as `char::is_ascii_whitespace` has it:
/// space, tab, line feed, form feed or carriage return.
pub open spec fn spec_is_ascii_white_space(c: char) -> bool {
    c == ' ' || c == '\t' || c == '\n' || c == '\x0C' || c == '\r'
}

/// `char::is_whitespace`.
pub fn is_white_space(c: char) -> (r: bool)
    ensures
        r == spec_is_white_space(c),
{
    let n = c as u32;
    (0x09 <= n && n <= 0x0D) || n == 0x20 || n == 0x85 || n == 0xA0 || n == 0x1680 || (0x2000 <= n && n <= 0x200A)
        || n == 0x2028 || n == 0x2029 || n == 0x202F || n == 0x205F || n == 0x3000
}

/// `char::is_ascii_whitespace`.
pub fn is_ascii_white_space(c: char) -> (r: bool)
    ensures
        r == spec_is_ascii_white_space(c),
{
    c == ' ' || c == '\t' || c == '\n' || c == '\x0C' || c == '\r'
}

impl LexTable {
    /// The table is usable: a well formed automaton with one action per
    /// state, transitions that lead to states, classes the automaton has,
    /// and a start state that moves on every ASCII white-space character
    /// (so that a white-space character never stops the scanner where it
    /// stands).
    pub open spec fn wf(&self) -> bool {
        &&& self.dfa.wf()
        &&& self.actions.len() == self.dfa.num_states()
        &&& self.init_state < self.dfa.num_states()
        &&& forall|i: int| 0 <= i < self.classes.len() ==> #[trigger] self.classes@[i] < self.dfa.spec_stride()
        &&& forall|s: int, c: int|
            0 <= s < self.dfa.num_states() && 0 <= c < self.dfa.spec_stride() && #[trigger] self.dfa.trans(s, c)
                is Some ==> self.dfa.trans(s, c).unwrap() < self.dfa.num_states()
        &&& forall|c: char| spec_is_ascii_white_space(c) ==> #[trigger] self.step(self.init_state, c) is Some
    }

    /// The state `state` goes to on `chr`, if any.
    pub open spec fn step(&self, state: StateID, chr: char) -> Option<StateID> {
        let n = chr as int;
        if n < self.classes.len() {
            self.dfa.trans(state as int, self.classes@[n] as int)
        } else {
            None
        }
    }

    /// Whether the table is usable.
    pub fn is_wf(&self) -> (r: bool)
        ensures
            r == self.wf(),
    {
        if !self.dfa.is_wf() {
            return false;
        }
        let states = self.dfa.size();
        let stride = self.dfa.get_stride();
        if self.actions.len() != states || self.init_state >= states {
            return false;
        }
        let mut i: usize = 0;
        while i < self.classes.len()
            invariant
                i <= self.classes.len(),
                stride == self.dfa.spec_stride(),
                forall|k: int| 0 <= k < i ==> #[trigger] self.classes@[k] < self.dfa.spec_stride(),
            decreases self.classes.len() - i,
        {
            if self.classes[i] >= stride {
                return false;
            }
            i = i + 1;
        }
        let mut s: usize = 0;
        while s < states
            invariant
                s <= states,
                states == self.dfa.num_states(),
                stride == self.dfa.spec_stride(),
                self.dfa.wf(),
                forall|t: int, c: int|
                    0 <= t < s && 0 <= c < self.dfa.spec_stride() && #[trigger] self.dfa.trans(t, c) is Some
                        ==> self.dfa.trans(t, c).unwrap() < self.dfa.num_states(),
            decreases states - s,
        {
            let mut c: usize = 0;
            while c < stride
                invariant
                    c <= stride,
                    s < states,
                    states == self.dfa.num_states(),
                    stride == self.dfa.spec_stride(),
                    self.dfa.wf(),
                    forall|t: int, d: int|
                        0 <= t < s && 0 <= d < self.dfa.spec_stride() && #[trigger] self.dfa.trans(t, d) is Some
                            ==> self.dfa.trans(t, d).unwrap() < self.dfa.num_states(),
                    forall|d: int|
                        0 <= d < c && #[trigger] self.dfa.trans(s as int, d) is Some ==> self.dfa.trans(
                            s as int,
                            d,
                        ).unwrap() < self.dfa.num_states(),
                decreases stride - c,
            {
                if let Some(x) = self.dfa.find_next(s, c) {
                    if x >= states {
                        return false;
                    }
                }
                c = c + 1;
            }
            s = s + 1;
        }
        let white: [char; 5] = [' ', '\t', '\n', '\x0C', '\r'];
        let mut w: usize = 0;
        while w < 5
            invariant
                w <= 5,
                white@ == seq![' ', '\t', '\n', '\x0C', '\r'],
                self.dfa.wf(),
                self.init_state < self.dfa.num_states(),
                forall|k: int| 0 <= k < self.classes.len() ==> #[trigger] self.classes@[k] < self.dfa.spec_stride(),
                forall|k: int| 0 <= k < w ==> #[trigger] self.step(self.init_state, white@[k]) is Some,
            decreases 5 - w,
        {
            let n = white[w] as usize;
            let moves = if n < self.classes.len() {
                self.dfa.find_next(self.init_state, self.classes[n]).is_some()
            } else {
                false
            };
            if !moves {
                assert(spec_is_ascii_white_space(white@[w as int]));
                assert(self.step(self.init_state, white@[w as int]) is None);
                return false;
            }
            w = w + 1;
        }
        assert forall|c: char| spec_is_ascii_white_space(c) implies #[trigger] self.step(self.init_state, c) is Some by {
            if c == ' ' {
                assert(white@[0] == c);
            } else if c == '\t' {
                assert(white@[1] == c);
            } else if c == '\n' {
                assert(white@[2] == c);
            } else if c == '\x0C' {
                assert(white@[3] == c);
            } else {
                assert(white@[4] == c);
            }
        }
        true
    }

    /// The state `state` goes to on `chr`, if any.
    pub fn find_next(&self, state: StateID, chr: char) -> (r: Option<StateID>)
        requires
            self.wf(),
            state < self.dfa.num_states(),
        ensures
            r == self.step(state, chr),
            r matches Some(x) ==> x < self.dfa.num_states(),
    {
        let n = chr as usize;
        if n < self.classes.len() {
            self.dfa.find_next(state, self.classes[n])
        } else {
            None
        }
    }
}

/// The text of `v` as a string.
fn chars_to_string(v: &Vec<char>) -> (r: String)
    ensures
        r@ == v@,
{
    let mut s = String::new();
    let mut i: usize = 0;
    while i < v.len()
        invariant
            i <= v.len(),
            s@ == v@.take(i as int),
        decreases v.len() - i,
    {
        string_push(&mut s, v[i]);
        assert(v@.take(i + 1) =~= v@.take(i as int).push(v@[i as int]));
        i = i + 1;
    }
    assert(v@.take(v.len() as int) =~= v@);
    s
}

/// The end of the line that starts at `p`: just past the first `\n`,
/// `\r\n` or lone `\r` from `p` on, or the end of the input.
pub open spec fn line_end(s: Seq<char>, p: int) -> int
    decreases s.len() - p,
{
    if p >= s.len() || p < 0 {
        s.len() as int
    } else if s[p] == '\n' {
        p + 1
    } else if s[p] == '\r' {
        if p + 1 < s.len() && s[p + 1] == '\n' {
            p + 2
        } else {
            p + 1
        }
    } else {
        line_end(s, p + 1)
    }
}

/// The end of a block comment whose text starts at `p`: just past the
/// first `*/` from `p` on, or the end of the input.
pub open spec fn block_end(s: Seq<char>, p: int) -> int
    decreases s.len() - p,
{
    if p + 1 >= s.len() || p < 0 {
        s.len() as int
    } else if s[p] == '*' && s[p + 1] == '/' {
        p + 2
    } else {
        block_end(s, p + 1)
    }
}

/// The first position from `p` on whose character is not white space, or
/// the end of the input.
pub open spec fn white_end(s: Seq<char>, p: int) -> int
    decreases s.len() - p,
{
    if p >= s.len() || p < 0 {
        s.len() as int
    } else if !spec_is_white_space(s[p]) {
        p
    } else {
        white_end(s, p + 1)
    }
}

/// The first position from `p` on whose character is ASCII white space,
/// or the end of the input.
pub open spec fn word_end(s: Seq<char>, p: int) -> int
    decreases s.len() - p,
{
    if p >= s.len() || p < 0 {
        s.len() as int
    } else if spec_is_ascii_white_space(s[p]) {
        p
    } else {
        word_end(s, p + 1)
    }
}

/// A line comment that starts inside the input ends past its start and
/// within the input.
pub proof fn lemma_line_end_bounds(s: Seq<char>, p: int)
    requires
        0 <= p < s.len(),
    ensures
        p < line_end(s, p) <= s.len(),
    decreases s.len() - p,
{
    if p + 1 < s.len() {
        lemma_line_end_bounds(s, p + 1);
    } else {
        assert(line_end(s, p + 1) == s.len());
    }
}

/// A block comment that starts inside the input ends past its start and
/// within the input.
pub proof fn lemma_block_end_bounds(s: Seq<char>, p: int)
    requires
        0 <= p < s.len(),
    ensures
        p < block_end(s, p) <= s.len(),
    decreases s.len() - p,
{
    if p + 1 < s.len() {
        lemma_block_end_bounds(s, p + 1);
    }
}

/// A run of white space from `p` ends at or after `p`, within the input.
pub proof fn lemma_white_end_bounds(s: Seq<char>, p: int)
    requires
        0 <= p <= s.len(),
    ensures
        p <= white_end(s, p) <= s.len(),
    decreases s.len() - p,
{
    if p < s.len() {
        lemma_white_end_bounds(s, p + 1);
    }
}

/// A word from `p` ends at or after `p`, within the input.
pub proof fn lemma_word_end_bounds(s: Seq<char>, p: int)
    requires
        0 <= p <= s.len(),
    ensures
        p <= word_end(s, p) <= s.len(),
    decreases s.len() - p,
{
    if p < s.len() {
        lemma_word_end_bounds(s, p + 1);
    }
}

/// A `*/` starts at index `i` of `s`.
pub open spec fn closes_at(s: Seq<char>, i: int) -> bool {
    0 <= i && i + 1 < s.len() && s[i] == '*' && s[i + 1] == '/'
}

/// A line break (`\n` or `\r`) stands at index `i` of `s`.
pub open spec fn breaks_at(s: Seq<char>, i: int) -> bool {
    0 <= i < s.len() && (s[i] == '\n' || s[i] == '\r')
}

/// A block comment whose text starts at `p` ends just past the first `*/`
/// from `p` on, and runs to the end of the input when there is none: the
/// returned `i` is where that `*/` starts (the length of the input when
/// there is none), and no `*/` starts between `p` and `i`; nothing but a
/// `*/` ends the comment.
pub proof fn lemma_block_end_is_first_close(s: Seq<char>, p: int) -> (i: int)
    requires
        0 <= p <= s.len(),
    ensures
        p <= i <= s.len(),
        forall|j: int| p <= j < i ==> !#[trigger] closes_at(s, j),
        i < s.len() ==> closes_at(s, i) && block_end(s, p) == i + 2,
        i == s.len() ==> block_end(s, p) == s.len(),
        i == s.len() ==> forall|j: int| p <= j ==> !#[trigger] closes_at(s, j),
    decreases s.len() - p,
{
    if p + 1 >= s.len() {
        s.len() as int
    } else if s[p] == '*' && s[p + 1] == '/' {
        p
    } else {
        lemma_block_end_is_first_close(s, p + 1)
    }
}

/// A line comment whose text starts at `p` ends just past the first line
/// break from `p` on (both characters of a `\r\n`), or at the end of the
/// input when there is none: the returned `i` is where that break stands
/// (the length of the input when there is none), and no break stands
/// between `p` and `i`.
pub proof fn lemma_line_end_is_first_break(s: Seq<char>, p: int) -> (i: int)
    requires
        0 <= p <= s.len(),
    ensures
        p <= i <= s.len(),
        forall|j: int| p <= j < i ==> !#[trigger] breaks_at(s, j),
        i < s.len() ==> breaks_at(s, i) && line_end(s, p) == (if s[i] == '\r' && i + 1 < s.len() && s[i + 1] == '\n' {
            i + 2
        } else {
            i + 1
        }),
        i == s.len() ==> line_end(s, p) == s.len(),
    decreases s.len() - p,
{
    if p >= s.len() {
        s.len() as int
    } else if s[p] == '\n' || s[p] == '\r' {
        p
    } else {
        lemma_line_end_is_first_break(s, p + 1)
    }
}

/// A run of white space from `p` ends at the first character from `p` on
/// that is not white space, or at the end of the input: everything before
/// it is white space.
pub proof fn lemma_white_end_is_first_other(s: Seq<char>, p: int)
    requires
        0 <= p <= s.len(),
    ensures
        p <= white_end(s, p) <= s.len(),
        forall|j: int| p <= j < white_end(s, p) ==> spec_is_white_space(#[trigger] s[j]),
        white_end(s, p) < s.len() ==> !spec_is_white_space(s[white_end(s, p)]),
    decreases s.len() - p,
{
    if p < s.len() && spec_is_white_space(s[p]) {
        lemma_white_end_is_first_other(s, p + 1);
    }
}

/// A word from `p` ends at the first ASCII white-space character from `p`
/// on, or at the end of the input: nothing before it is ASCII white space.
pub proof fn lemma_word_end_is_first_space(s: Seq<char>, p: int)
    requires
        0 <= p <= s.len(),
    ensures
        p <= word_end(s, p) <= s.len(),
        forall|j: int| p <= j < word_end(s, p) ==> !spec_is_ascii_white_space(#[trigger] s[j]),
        word_end(s, p) < s.len() ==> spec_is_ascii_white_space(s[word_end(s, p)]),
    decreases s.len() - p,
{
    if p < s.len() && !spec_is_ascii_white_space(s[p]) {
        lemma_word_end_is_first_space(s, p + 1);
    }
}

/// `t` is the token `typ` whose text is `input` from `beg` up to `end`.
pub open spec fn is_token_of(t: Token, beg: int, end: int, typ: usize, input: Seq<char>) -> bool {
    &&& t.beg == beg
    &&& t.end == end
    &&& t.typ == typ
    &&& match t.value {
        TokenValue::String(text) => text@ == input.subrange(beg, end),
        _ => false,
    }
}

/// `e` reports the bad text `symbol` found at `pos`.
pub open spec fn is_invalid_token(e: LexError, pos: int, symbol: Seq<char>) -> bool {
    match e {
        LexError::InvalidToken { pos: p, symbol: s } => p == pos && s@ == symbol,
        _ => false,
    }
}

/// Whether some state of the table accepts token `tok`.
pub open spec fn accepts(table: &LexTable, tok: usize) -> bool {
    exists|x: int| 0 <= x < table.actions.len() && #[trigger] table.actions@[x].token == Some(tok)
}

/// What one call of `next_token` does, from scanner `before` to scanner
/// `after` with result `r`: the input and table stay, the buffer only
/// moves forward, errors are only added, a `None` comes at the end of the
/// input only, and a token is the nonempty text from somewhere in the old
/// buffer up to the new start of the buffer, of a kind the table accepts.
pub open spec fn scans(before: Lex, after: Lex, r: Option<Token>) -> bool {
    &&& after.wf()
    &&& after.input() == before.input()
    &&& *after.table() == *before.table()
    &&& before.start() <= after.start()
    &&& before.errors().is_prefix_of(after.errors())
    &&& r is None ==> after.start() == after.input().len() && after.pos() == after.input().len()
    &&& r matches Some(t) ==> {
        &&& before.start() <= t.beg < t.end
        &&& t.end == after.start()
        &&& is_token_of(t, t.beg as int, t.end as int, t.typ, after.input())
        &&& accepts(after.table(), t.typ)
    }
}

/// Tokens come out in order: a token that a later call hands out starts
/// at or after the (exclusive) end of one that an earlier call handed out,
/// and the input does not change.
pub proof fn lemma_tokens_in_order(l0: Lex, l1: Lex, l2: Lex, t1: Token, t2: Token)
    requires
        scans(l0, l1, Some(t1)),
        scans(l1, l2, Some(t2)),
    ensures
        t1.end <= t2.beg,
        l2.input() == l0.input(),
{
}

/// Once `next_token` has said `None`, every later call says `None` too:
/// the input is used up.
pub proof fn lemma_none_is_final(l0: Lex, l1: Lex, l2: Lex, r: Option<Token>)
    requires
        scans(l0, l1, None),
        scans(l1, l2, r),
    ensures
        r is None,
{
}

/// The part of the scanner a scan moves, apart from its errors: the mode,
/// the start of the buffer, where the automaton stands, and the last
/// accepting point.
pub struct Scan {
    pub mode: LexMode,
    pub start: usize,
    pub pos: usize,
    pub state: usize,
    pub last_pos: Option<usize>,
    pub last_state: Option<usize>,
    pub last_tok: Option<usize>,
}

/// A problem the scanner reports, by position: bad text from `from` up to
/// `to` met at `pos`, a block comment never closed, or a missing closing
/// quote (double or single) at the end of the input.
pub enum Report {
    Invalid { pos: usize, from: usize, to: usize },
    Unterminated { pos: usize },
    MissingQuote { pos: usize, double: bool },
}

/// The error `e` is the report `r` on `input`.
pub open spec fn reports(e: LexError, r: Report, input: Seq<char>) -> bool {
    match r {
        Report::Invalid { pos, from, to } => e matches LexError::InvalidToken { pos: p, symbol } && p == pos
            && symbol@ == input.subrange(from as int, to as int),
        Report::Unterminated { pos } => e matches LexError::UnterminatedComment { pos: p } && p == pos,
        Report::MissingQuote { pos, double } => e matches LexError::MissingTerminating { pos: p, content } && p == pos
            && content@ == (if double {
            "\""@
        } else {
            "'"@
        }),
    }
}

/// The scan state is consistent with `table` and `input`, as `Lex::wf`
/// has it.
pub open spec fn scan_ok(table: LexTable, input: Seq<char>, s: Scan) -> bool {
    &&& table.wf()
    &&& input.len() <= usize::MAX
    &&& s.start <= s.pos <= input.len()
    &&& s.state < table.dfa.num_states()
    &&& (s.last_pos is Some) == (s.last_state is Some)
    &&& (s.last_state is Some) == (s.last_tok is Some)
    &&& s.last_pos matches Some(p) ==> s.start < p <= s.pos
    &&& s.last_state matches Some(x) ==> x < table.dfa.num_states()
    &&& s.last_tok matches Some(t) ==> accepts(&table, t)
}

/// The end of a scan, at the end of the input: nothing when the buffer is
/// empty; the last match when there is one; otherwise the leftover text is
/// dropped and reported by how it starts (`/*`, a double or single quote,
/// or anything else).
pub open spec fn finish(input: Seq<char>, s: Scan, acc: Seq<Report>) -> (Scan, Option<(usize, usize, usize)>, Seq<Report>) {
    if s.start == input.len() {
        (s, None, acc)
    } else if !(s.last_state is Some && s.last_pos is Some) {
        let content = input.subrange(s.start as int, s.pos as int);
        let rep = if content.len() >= 2 && content[0] == '/' && content[1] == '*' {
            Report::Unterminated { pos: s.pos }
        } else if content.len() >= 1 && content[0] == '"' {
            Report::MissingQuote { pos: s.pos, double: true }
        } else if content.len() >= 1 && content[0] == '\'' {
            Report::MissingQuote { pos: s.pos, double: false }
        } else {
            Report::Invalid { pos: s.pos, from: s.start, to: s.pos }
        };
        (Scan { start: s.pos, ..s }, None, acc.push(rep))
    } else {
        (
            Scan {
                state: s.last_state->0,
                pos: s.last_pos->0,
                start: s.last_pos->0,
                last_pos: None,
                last_state: None,
                last_tok: None,
                ..s
            },
            Some((s.start, s.last_pos->0, s.last_tok->0)),
            acc,
        )
    }
}

/// What scanning for the next token does from scan state `s`, with the
/// reports `acc` made so far: the scan state it ends in, the token it
/// hands out, if any, as its start, end and kind, and the reports.
///
/// In normal mode the automaton runs on the next character, recording
/// each accepting point; where it has no move, the last match is handed
/// out, or, with none, the text up to the next ASCII white space is
/// skipped and reported. Comments and white space are skipped through
/// their end, and the scan starts afresh. At the end of the input the scan
/// finishes (see `finish`).
pub open spec fn run(table: LexTable, input: Seq<char>, s: Scan, acc: Seq<Report>) -> (Scan, Option<
    (usize, usize, usize),
>, Seq<Report>)
    decreases
        input.len() - s.start,
        input.len() - s.pos,
        if s.mode == LexMode::Normal {
            0int
        } else {
            1int
        },
        if s.state == table.init_state {
            0int
        } else {
            1int
        },
    when scan_ok(table, input, s)
{
    if s.pos >= input.len() {
        finish(input, s, acc)
    } else {
        let chr = input[s.pos as int];
        match s.mode {
            LexMode::Normal => match table.step(s.state, chr) {
                Some(x) => {
                    let a = table.actions@[x as int];
                    run(
                        table,
                        input,
                        Scan {
                            pos: (s.pos + 1) as usize,
                            state: x,
                            mode: match a.mode {
                                Some(m) => m,
                                None => s.mode,
                            },
                            last_state: if a.token is Some {
                                Some(s.state)
                            } else {
                                s.last_state
                            },
                            last_pos: if a.token is Some {
                                Some((s.pos + 1) as usize)
                            } else {
                                s.last_pos
                            },
                            last_tok: if a.token is Some {
                                a.token
                            } else {
                                s.last_tok
                            },
                            ..s
                        },
                        acc,
                    )
                },
                None => if s.last_state is Some && s.last_pos is Some {
                    (
                        Scan {
                            state: table.init_state,
                            mode: LexMode::Normal,
                            pos: s.last_pos->0,
                            start: s.last_pos->0,
                            last_pos: None,
                            last_state: None,
                            last_tok: None,
                            ..s
                        },
                        Some((s.start, s.last_pos->0, s.last_tok->0)),
                        acc,
                    )
                } else {
                    let q = word_end(input, s.pos as int);
                    proof {
                        lemma_word_end_bounds(input, s.pos as int);
                        lemma_word_end_bounds(input, s.pos + 1);
                        if spec_is_ascii_white_space(chr) {
                            assert(table.step(table.init_state, chr) is Some);
                            assert(s.state != table.init_state);
                        } else {
                            assert(q > s.pos);
                        }
                    }
                    run(
                        table,
                        input,
                        Scan { pos: q as usize, start: q as usize, mode: LexMode::Normal, state: table.init_state, ..s },
                        acc.push(Report::Invalid { pos: s.pos, from: s.start, to: q as usize }),
                    )
                },
            },
            LexMode::LineComment => {
                let q = line_end(input, s.pos as int);
                proof {
                    lemma_line_end_bounds(input, s.pos as int);
                }
                run(table, input, fresh_at(table, s, q as usize), acc)
            },
            LexMode::BlockComment => {
                let q = block_end(input, s.pos as int);
                proof {
                    lemma_block_end_bounds(input, s.pos as int);
                }
                run(table, input, fresh_at(table, s, q as usize), acc)
            },
            LexMode::String => run(table, input, Scan { mode: LexMode::Normal, state: table.init_state, ..s }, acc),
            LexMode::WhileSpace => {
                let q = white_end(input, s.pos as int);
                proof {
                    lemma_white_end_bounds(input, s.pos as int);
                }
                run(table, input, fresh_at(table, s, q as usize), acc)
            },
        }
    }
}

/// The scan state after skipping to `q`: the buffer starts there, the last
/// accepting point is forgotten, and the automaton starts afresh.
pub open spec fn fresh_at(table: LexTable, s: Scan, q: usize) -> Scan {
    Scan {
        pos: q,
        start: q,
        last_pos: None,
        last_state: None,
        last_tok: None,
        mode: LexMode::Normal,
        state: table.init_state,
        ..s
    }
}

/// One call of `next_token` from scanner `before` to scanner `after`
/// with result `r` does what `run` says from `before`'s scan state: it
/// ends in `run`'s scan state, appends one error for each report, and
/// hands out `run`'s token.
pub open spec fn runs(before: Lex, after: Lex, r: Option<Token>) -> bool {
    let res = run(*before.table(), before.input(), before.scan(), Seq::empty());
    &&& after.scan() == res.0
    &&& after.errors().len() == before.errors().len() + res.2.len()
    &&& forall|i: int|
        0 <= i < res.2.len() ==> reports(#[trigger] after.errors()[before.errors().len() + i], res.2[i], before.input())
    &&& match res.1 {
        None => r is None,
        Some(t) => r matches Some(tk) && is_token_of(tk, t.0 as int, t.1 as int, t.2, before.input()),
    }
}

/// The scanner over a whole input.
///
/// Positions count characters from the start of the input. The buffer is
/// the input from `start` on: what lies before was handed out or skipped.
/// - `mode`: what the scanner is doing
/// - `curr_pos`, `curr_state`: where the automaton stands
/// - `last_pos`, `last_state`, `last_tok`: the last accepting point of the
///   current match, if any (position after it, state before it, token)
/// - `errors`: the errors recovered from so far
pub struct Lex {
    mode: LexMode,
    buff: Vec<char>,
    start: usize,
    curr_pos: usize,
    curr_state: usize,
    last_pos: Option<usize>,
    last_state: Option<usize>,
    last_tok: Option<usize>,
    errors: Vec<LexError>,
    table: LexTable,
}

impl Lex {
    /// The whole input.
    pub closed spec fn input(&self) -> Seq<char> {
        self.buff@
    }

    /// Where the buffer starts: everything before was handed out or
    /// skipped.
    pub closed spec fn start(&self) -> int {
        self.start as int
    }

    /// Where the automaton stands.
    pub closed spec fn pos(&self) -> int {
        self.curr_pos as int
    }

    /// The errors recovered from so far, oldest first.
    pub closed spec fn errors(&self) -> Seq<LexError> {
        self.errors@
    }

    /// The mode the scanner is in.
    pub closed spec fn mode(&self) -> LexMode {
        self.mode
    }

    /// The scan state: mode, buffer start, automaton position and state,
    /// and last accepting point.
    pub closed spec fn scan(&self) -> Scan {
        Scan {
            mode: self.mode,
            start: self.start,
            pos: self.curr_pos,
            state: self.curr_state,
            last_pos: self.last_pos,
            last_state: self.last_state,
            last_tok: self.last_tok,
        }
    }

    /// The automaton the scanner runs.
    pub closed spec fn table(&self) -> &LexTable {
        &self.table
    }

    /// The scanner is consistent: a usable table, `start <= curr_pos <=`
    /// the input's length, a state of the automaton, and a last accepting
    /// point that is all there or all absent, lies in the current match and
    /// names a token the table accepts.
    pub closed spec fn wf(&self) -> bool {
        &&& self.table.wf()
        &&& self.start <= self.curr_pos <= self.buff.len()
        &&& self.curr_state < self.table.dfa.num_states()
        &&& (self.last_pos is Some) == (self.last_state is Some)
        &&& (self.last_state is Some) == (self.last_tok is Some)
        &&& self.last_pos matches Some(p) ==> self.start < p <= self.curr_pos
        &&& self.last_state matches Some(s) ==> s < self.table.dfa.num_states()
        &&& self.last_tok matches Some(t) ==> accepts(&self.table, t)
    }

    /// A consistent scanner has a consistent scan state, so `run` is
    /// defined from it: what `next_token` does is then the first step of
    /// `run` (see `runs`).
    pub proof fn lemma_scan_ok(&self)
        requires
            self.wf(),
        ensures
            scan_ok(*self.table(), self.input(), self.scan()),
    {
        assert(self.buff@.len() == self.buff.len());
    }

    /// A scanner at the start of `input`, in normal mode.
    pub fn new(input: Vec<char>, table: LexTable) -> (r: Lex)
        requires
            table.wf(),
        ensures
            r.wf(),
            r.input() == input@,
            r.start() == 0,
            r.pos() == 0,
            r.errors() == Seq::<LexError>::empty(),
            r.mode() == LexMode::Normal,
            *r.table() == table,
    {
        let init = table.init_state;
        Lex {
            mode: LexMode::Normal,
            buff: input,
            start: 0,
            curr_pos: 0,
            curr_state: init,
            last_pos: None,
            last_state: None,
            last_tok: None,
            errors: Vec::new(),
            table,
        }
    }

    /// Switches the mode.
    fn set_mode(&mut self, mode: LexMode)
        ensures
            *final(self) == (Lex { mode, ..*old(self) }),
    {
        self.mode = mode;
    }

    /// The errors recovered from so far, oldest first.
    pub fn get_errors(&self) -> (r: &[LexError])
        ensures
            r@ == self.errors(),
    {
        self.errors.as_slice()
    }

    /// The character at the current position, if the input goes on.
    fn peek(&self) -> (r: Option<char>)
        ensures
            r == (if self.curr_pos < self.buff.len() {
                Some(self.buff@[self.curr_pos as int])
            } else {
                None
            }),
    {
        if self.curr_pos < self.buff.len() {
            Some(self.buff[self.curr_pos])
        } else {
            None
        }
    }

    /// Takes the character at the current position and moves past it.
    fn next(&mut self) -> (r: Option<char>)
        requires
            old(self).curr_pos < old(self).buff.len(),
        ensures
            r == Some(old(self).buff@[old(self).curr_pos as int]),
            *final(self) == (Lex { curr_pos: (old(self).curr_pos + 1) as usize, ..*old(self) }),
    {
        let chr = self.peek();
        if self.curr_pos <= self.buff.len() {
            self.curr_pos = self.curr_pos + 1;
        }
        chr
    }

    /// The index in the buffer of the current position.
    fn buff_pos(&self, cursor: usize) -> (r: usize)
        requires
            self.start <= self.curr_pos,
            cursor <= self.buff.len(),
        ensures
            r == self.curr_pos - self.start,
    {
        self.curr_pos - self.start
    }

    /// Hands out the buffer up to the current position and drops it from
    /// the buffer.
    fn pop_buff(&mut self, pos: usize) -> (r: Vec<char>)
        requires
            old(self).start <= old(self).curr_pos <= old(self).buff.len(),
            pos <= old(self).buff.len(),
        ensures
            r@ == old(self).buff@.subrange(old(self).start as int, old(self).curr_pos as int),
            *final(self) == (Lex { start: old(self).curr_pos, ..*old(self) }),
    {
        let n = self.buff_pos(pos);
        let mut out: Vec<char> = Vec::new();
        let mut i: usize = 0;
        while i < n
            invariant
                i <= n,
                n == self.curr_pos - self.start,
                self.start + n <= self.buff.len(),
                out@ == self.buff@.subrange(self.start as int, self.start + i),
            decreases n - i,
        {
            out.push(self.buff[self.start + i]);
            assert(out@ =~= self.buff@.subrange(self.start as int, self.start + i + 1));
            i = i + 1;
        }
        self.start = self.start + n;
        out
    }

    /// Records the current point as the last accepting one, for token
    /// `tok`.
    fn save_state(&mut self, tok: usize)
        ensures
            *final(self) == (Lex {
                last_state: Some(old(self).curr_state),
                last_pos: Some(old(self).curr_pos),
                last_tok: Some(tok),
                ..*old(self)
            }),
    {
        self.last_state = Some(self.curr_state);
        self.last_pos = Some(self.curr_pos);
        self.last_tok = Some(tok);
    }

    /// Goes back to the last accepting point, forgets it, and returns its
    /// token.
    fn load_state(&mut self) -> (r: usize)
        requires
            old(self).last_state is Some,
            old(self).last_pos is Some,
            old(self).last_tok is Some,
        ensures
            r == old(self).last_tok.unwrap(),
            *final(self) == (Lex {
                curr_state: old(self).last_state.unwrap(),
                curr_pos: old(self).last_pos.unwrap(),
                last_state: None,
                last_pos: None,
                last_tok: None,
                ..*old(self)
            }),
    {
        self.curr_state = self.last_state.unwrap();
        self.curr_pos = self.last_pos.unwrap();
        self.last_state = None;
        self.last_pos = None;
        let tok = self.last_tok;
        self.last_tok = None;
        tok.unwrap()
    }

    /// Forgets the last accepting point.
    fn clear_save(&mut self)
        ensures
            *final(self) == (Lex { last_state: None, last_pos: None, last_tok: None, ..*old(self) }),
    {
        self.last_state = None;
        self.last_pos = None;
        self.last_tok = None;
    }

    /// Whether a last accepting point is recorded.
    fn has_last(&self) -> (r: bool)
        ensures
            r == (self.last_state is Some && self.last_pos is Some),
    {
        self.last_state.is_some() && self.last_pos.is_some()
    }

    /// Back to normal mode and the start state.
    fn reset_state(&mut self)
        ensures
            *final(self) == (Lex { mode: LexMode::Normal, curr_state: old(self).table.init_state, ..*old(self) }),
    {
        self.mode = LexMode::Normal;
        self.curr_state = self.table.init_state;
    }

    /// Runs the action of state `x`: switches mode if it says so, and
    /// returns the token it accepts.
    fn exec_action(&mut self, x: StateID) -> (r: Option<usize>)
        requires
            x < old(self).table.actions.len(),
        ensures
            r == old(self).table.actions@[x as int].token,
            *final(self) == (Lex {
                mode: match old(self).table.actions@[x as int].mode {
                    Some(m) => m,
                    None => old(self).mode,
                },
                ..*old(self)
            }),
    {
        let action = self.table.actions[x];
        if let Some(m) = action.mode {
            self.set_mode(m);
        }
        action.token
    }

    /// Builds the token of the last accepting point: goes back to it and
    /// hands out the buffer up to it as the token's text.
    fn make_token(&mut self) -> (r: Token)
        requires
            old(self).wf(),
            old(self).last_state is Some && old(self).last_pos is Some,
        ensures
            final(self).wf(),
            is_token_of(r, old(self).start as int, old(self).last_pos.unwrap() as int, old(self).last_tok.unwrap(), old(self).buff@),
            *final(self) == (Lex {
                curr_state: old(self).last_state.unwrap(),
                curr_pos: old(self).last_pos.unwrap(),
                start: old(self).last_pos.unwrap(),
                last_state: None,
                last_pos: None,
                last_tok: None,
                ..*old(self)
            }),
    {
        let kind = self.load_state();
        let content = self.pop_buff(self.curr_pos);
        let len = content.len();
        let text = chars_to_string(&content);
        let beg = self.curr_pos - len;
        let end = self.curr_pos;
        Token { beg, end, typ: kind, value: TokenValue::String(text) }
    }

    /// Skips a line comment through the end of its line, drops it from
    /// the buffer, forgets the last accepting point and starts afresh.
    fn handle_comment(&mut self)
        requires
            old(self).wf(),
        ensures
            final(self).wf(),
            *final(self) == (Lex {
                curr_pos: line_end(old(self).buff@, old(self).curr_pos as int) as usize,
                start: line_end(old(self).buff@, old(self).curr_pos as int) as usize,
                last_state: None,
                last_pos: None,
                last_tok: None,
                mode: LexMode::Normal,
                curr_state: old(self).table.init_state,
                ..*old(self)
            }),
    {
        let ghost s0 = *self;
        let ghost text = self.buff@;
        let ghost p0 = self.curr_pos as int;
        let mut prev: char;
        let mut curr: char = '\x00';
        loop
            invariant_except_break
                curr == (if self.curr_pos > p0 { text[self.curr_pos - 1] } else { '\x00' }),
                line_end(text, p0) == line_end(text, if self.curr_pos > p0 { self.curr_pos - 1 } else { p0 }),
            invariant
                *self == (Lex { curr_pos: self.curr_pos, ..s0 }),
                text == s0.buff@,
                p0 == s0.curr_pos,
                p0 <= self.curr_pos <= text.len(),
            ensures
                self.curr_pos == line_end(text, p0),
            decreases text.len() - self.curr_pos,
        {
            let ghost q = self.curr_pos as int;
            let chr = match self.peek() {
                None => {
                    proof {
                        if q > p0 {
                            assert(line_end(text, q) == text.len());
                        }
                    }
                    break;
                },
                Some(c) => c,
            };
            assert(chr == text[q]);
            prev = curr;
            curr = chr;
            assert(q > p0 ==> prev == text[q - 1]);
            if prev == '\r' && curr == '\n' {
                self.next();
                break;
            } else if prev == '\r' || prev == '\n' {
                break;
            } else {
                self.next();
                proof {
                    if q > p0 {
                        assert(prev != '\n' && prev != '\r');
                        assert(0 <= q - 1 < text.len());
                        assert(text[q - 1] != '\n' && text[q - 1] != '\r');
                        assert(line_end(text, q - 1) == line_end(text, q));
                    }
                }
            }
        }
        self.pop_buff(self.curr_pos);
        self.clear_save();
        self.reset_state();
    }

    /// Skips a block comment through its closing `*/`, drops it from the
    /// buffer, forgets the last accepting point and starts afresh.
    fn handle_block_comment(&mut self)
        requires
            old(self).wf(),
        ensures
            final(self).wf(),
            *final(self) == (Lex {
                curr_pos: block_end(old(self).buff@, old(self).curr_pos as int) as usize,
                start: block_end(old(self).buff@, old(self).curr_pos as int) as usize,
                last_state: None,
                last_pos: None,
                last_tok: None,
                mode: LexMode::Normal,
                curr_state: old(self).table.init_state,
                ..*old(self)
            }),
    {
        let ghost s0 = *self;
        let ghost text = self.buff@;
        let ghost p0 = self.curr_pos as int;
        let mut prev: char;
        let mut curr: char = '\x00';
        loop
            invariant_except_break
                curr == (if self.curr_pos > p0 { text[self.curr_pos - 1] } else { '\x00' }),
                block_end(text, p0) == block_end(text, if self.curr_pos > p0 { self.curr_pos - 1 } else { p0 }),
            invariant
                *self == (Lex { curr_pos: self.curr_pos, ..s0 }),
                text == s0.buff@,
                p0 == s0.curr_pos,
                p0 <= self.curr_pos <= text.len(),
            ensures
                self.curr_pos == block_end(text, p0),
            decreases text.len() - self.curr_pos,
        {
            let ghost q = self.curr_pos as int;
            let chr = match self.peek() {
                None => break,
                Some(c) => c,
            };
            prev = curr;
            curr = chr;
            self.next();
            if prev == '*' && curr == '/' {
                break;
            }
            proof {
                if q > p0 {
                    assert(block_end(text, q - 1) == block_end(text, q));
                }
            }
        }
        self.pop_buff(self.curr_pos);
        self.clear_save();
        self.reset_state();
    }

    /// Skips white space, drops it from the buffer, forgets the last
    /// accepting point and starts afresh.
    fn handle_white_space(&mut self)
        requires
            old(self).wf(),
        ensures
            final(self).wf(),
            *final(self) == (Lex {
                curr_pos: white_end(old(self).buff@, old(self).curr_pos as int) as usize,
                start: white_end(old(self).buff@, old(self).curr_pos as int) as usize,
                last_state: None,
                last_pos: None,
                last_tok: None,
                mode: LexMode::Normal,
                curr_state: old(self).table.init_state,
                ..*old(self)
            }),
    {
        let ghost s0 = *self;
        let ghost text = self.buff@;
        let ghost p0 = self.curr_pos as int;
        loop
            invariant
                *self == (Lex { curr_pos: self.curr_pos, ..s0 }),
                text == s0.buff@,
                p0 == s0.curr_pos,
                p0 <= self.curr_pos <= text.len(),
                white_end(text, p0) == white_end(text, self.curr_pos as int),
            ensures
                *self == (Lex { curr_pos: self.curr_pos, ..s0 }),
                self.curr_pos == white_end(text, p0),
            decreases text.len() - self.curr_pos,
        {
            let chr = match self.peek() {
                None => break,
                Some(c) => c,
            };
            if !is_white_space(chr) {
                break;
            } else {
                self.next();
            }
        }
        self.pop_buff(self.curr_pos);
        self.clear_save();
        self.reset_state();
    }

    /// Scans the next token: runs the automaton with longest match, skipping
    /// comments and white space and recovering from bad symbols (each one
    /// is added to the errors). At the end of the input, hands out the
    /// last match if there is one; otherwise the leftover text is dropped
    /// and reported, as an unterminated comment, a missing closing quote or
    /// an invalid token, and `None` is returned. `run` states the whole of
    /// it; `scans` states the facts the ordering laws rest on.
    pub fn next_token(&mut self) -> (r: Option<Token>)
        requires
            old(self).wf(),
        ensures
            scan_ok(*old(self).table(), old(self).input(), old(self).scan()),
            scans(*old(self), *final(self), r),
            runs(*old(self), *final(self), r),
    {
        let ghost s0 = *self;
        let ghost mut reps: Seq<Report> = Seq::empty();
        proof {
            s0.lemma_scan_ok();
        }
        loop
            invariant
                s0 == *old(self),
                scan_ok(*s0.table(), s0.input(), s0.scan()),
                self.wf(),
                self.buff == s0.buff,
                self.table == s0.table,
                s0.start <= self.start,
                s0.errors@.is_prefix_of(self.errors@),
                run(s0.table, s0.buff@, s0.scan(), Seq::empty()) == run(self.table, self.buff@, self.scan(), reps),
                self.errors@.len() == s0.errors@.len() + reps.len(),
                forall|i: int|
                    0 <= i < reps.len() ==> reports(#[trigger] self.errors@[s0.errors@.len() + i], reps[i], s0.buff@),
            ensures
                self.wf(),
                self.buff == s0.buff,
                self.table == s0.table,
                s0.start <= self.start,
                s0.errors@.is_prefix_of(self.errors@),
                self.curr_pos == self.buff.len(),
                run(s0.table, s0.buff@, s0.scan(), Seq::empty()) == run(self.table, self.buff@, self.scan(), reps),
                self.errors@.len() == s0.errors@.len() + reps.len(),
                forall|i: int|
                    0 <= i < reps.len() ==> reports(#[trigger] self.errors@[s0.errors@.len() + i], reps[i], s0.buff@),
            decreases
                self.buff.len() - self.start,
                self.buff.len() - self.curr_pos,
                if self.mode == LexMode::Normal { 0int } else { 1int },
                if self.curr_state == self.table.init_state { 0int } else { 1int },
        {
            let ghost before = *self;
            proof {
                before.lemma_scan_ok();
            }
            let chr = match self.peek() {
                None => break,
                Some(c) => c,
            };
            match self.mode {
                LexMode::Normal => match self.handle_normal(chr) {
                    Ok(Some(token)) => {
                        proof {
                            assert(accepts(&self.table, token.typ));
                            assert(self.scan() == run(before.table, before.buff@, before.scan(), reps).0);
                        }
                        return Some(token);
                    },
                    Ok(None) => {
                        proof {
                            assert(self.scan() == (Scan {
                                pos: (before.curr_pos + 1) as usize,
                                state: self.curr_state,
                                mode: self.mode,
                                last_state: self.last_state,
                                last_pos: self.last_pos,
                                last_tok: self.last_tok,
                                ..before.scan()
                            }));
                        }
                    },
                    Err(err) => {
                        proof {
                            lemma_word_end_bounds(before.buff@, before.curr_pos as int);
                            lemma_word_end_bounds(before.buff@, before.curr_pos + 1);
                            if spec_is_ascii_white_space(chr) {
                                assert(self.table.step(self.table.init_state, chr) is Some);
                                assert(before.curr_state != before.table.init_state);
                            } else {
                                assert(self.start > before.curr_pos);
                            }
                        }
                        let ghost e0 = self.errors@;
                        let ghost rep = Report::Invalid {
                            pos: before.curr_pos,
                            from: before.start,
                            to: word_end(before.buff@, before.curr_pos as int) as usize,
                        };
                        proof {
                            assert(reports(err, rep, s0.buff@));
                        }
                        self.errors.push(err);
                        proof {
                            assert(s0.errors@.is_prefix_of(self.errors@)) by {
                                assert(self.errors@.subrange(0, s0.errors@.len() as int) =~= e0.subrange(0, s0.errors@.len() as int));
                            }
                            assert(run(before.table, before.buff@, before.scan(), reps) == run(
                                self.table,
                                self.buff@,
                                self.scan(),
                                reps.push(rep),
                            ));
                            reps = reps.push(rep);
                        }
                    },
                },
                LexMode::LineComment => {
                    proof {
                        lemma_line_end_bounds(self.buff@, self.curr_pos as int);
                    }
                    self.handle_comment();
                    proof {
                        assert(self.scan() == fresh_at(before.table, before.scan(), self.curr_pos));
                    }
                },
                LexMode::BlockComment => {
                    proof {
                        lemma_block_end_bounds(self.buff@, self.curr_pos as int);
                    }
                    self.handle_block_comment();
                    proof {
                        assert(self.scan() == fresh_at(before.table, before.scan(), self.curr_pos));
                    }
                },
                LexMode::String => self.reset_state(),
                LexMode::WhileSpace => {
                    proof {
                        lemma_white_end_bounds(self.buff@, self.curr_pos as int);
                    }
                    self.handle_white_space();
                    proof {
                        assert(self.scan() == fresh_at(before.table, before.scan(), self.curr_pos));
                    }
                },
            }
        }
        proof {
            self.lemma_scan_ok();
        }
        if self.start == self.buff.len() {
            return None;
        }
        if !self.has_last() {
            let ghost at_end = *self;
            let content = self.pop_buff(self.curr_pos);
            let pos = self.curr_pos;
            let err = if content.len() >= 2 && content[0] == '/' && content[1] == '*' {
                LexError::UnterminatedComment { pos }
            } else if content.len() >= 1 && content[0] == '"' {
                LexError::MissingTerminating { pos, content: "\"" }
            } else if content.len() >= 1 && content[0] == '\'' {
                LexError::MissingTerminating { pos, content: "'" }
            } else {
                LexError::InvalidToken { pos, symbol: chars_to_string(&content) }
            };
            let ghost e0 = self.errors@;
            proof {
                assert(reports(err, finish(at_end.buff@, at_end.scan(), reps).2.last(), s0.buff@));
            }
            self.errors.push(err);
            proof {
                assert(s0.errors@.is_prefix_of(self.errors@)) by {
                    assert(self.errors@.subrange(0, s0.errors@.len() as int) =~= e0.subrange(0, s0.errors@.len() as int));
                }
                reps = reps.push(finish(at_end.buff@, at_end.scan(), reps).2.last());
            }
            return None;
        }
        let token = self.make_token();
        Some(token)
    }

    /// One step of the automaton on `chr`, the character at the current
    /// position.
    ///
    /// - On a transition: moves past `chr`, runs the new state's action and,
    ///   if it accepts a token, records the point after `chr` as the last
    ///   accepting one (with the state before the step).
    /// - Without a transition but with a last accepting point: goes back to
    ///   it, hands out the token up to it and starts afresh.
    /// - Without either: skips the bad text and reports it.
    fn handle_normal(&mut self, chr: char) -> (r: Result<Option<Token>, LexError>)
        requires
            old(self).wf(),
            old(self).curr_pos < old(self).buff.len(),
            chr == old(self).buff@[old(self).curr_pos as int],
        ensures
            final(self).wf(),
            final(self).buff == old(self).buff,
            final(self).table == old(self).table,
            final(self).errors == old(self).errors,
            old(self).start <= final(self).start,
            match old(self).table.step(old(self).curr_state, chr) {
                Some(x) => {
                    &&& r == Ok::<Option<Token>, LexError>(None)
                    &&& *final(self) == (Lex {
                        curr_pos: (old(self).curr_pos + 1) as usize,
                        curr_state: x,
                        mode: match old(self).table.actions@[x as int].mode {
                            Some(m) => m,
                            None => old(self).mode,
                        },
                        last_state: if old(self).table.actions@[x as int].token is Some {
                            Some(old(self).curr_state)
                        } else {
                            old(self).last_state
                        },
                        last_pos: if old(self).table.actions@[x as int].token is Some {
                            Some((old(self).curr_pos + 1) as usize)
                        } else {
                            old(self).last_pos
                        },
                        last_tok: if old(self).table.actions@[x as int].token is Some {
                            old(self).table.actions@[x as int].token
                        } else {
                            old(self).last_tok
                        },
                        ..*old(self)
                    })
                },
                None => if old(self).last_state is Some && old(self).last_pos is Some {
                    &&& r is Ok && r->Ok_0 is Some
                    &&& is_token_of(
                        r->Ok_0->Some_0,
                        old(self).start as int,
                        old(self).last_pos.unwrap() as int,
                        old(self).last_tok.unwrap(),
                        old(self).buff@,
                    )
                    &&& *final(self) == (Lex {
                        curr_state: old(self).table.init_state,
                        mode: LexMode::Normal,
                        curr_pos: old(self).last_pos.unwrap(),
                        start: old(self).last_pos.unwrap(),
                        last_state: None,
                        last_pos: None,
                        last_tok: None,
                        ..*old(self)
                    })
                } else {
                    let q = word_end(old(self).buff@, old(self).curr_pos as int);
                    &&& r is Err
                    &&& is_invalid_token(r->Err_0, old(self).curr_pos as int, old(self).buff@.subrange(old(self).start as int, q))
                    &&& *final(self) == (Lex {
                        curr_pos: q as usize,
                        start: q as usize,
                        mode: LexMode::Normal,
                        curr_state: old(self).table.init_state,
                        ..*old(self)
                    })
                },
            },
    {
        let mut token = None;
        if let Some(x) = self.table.find_next(self.curr_state, chr) {
            let tok = self.exec_action(x);
            self.next();
            if let Some(tok) = tok {
                proof {
                    assert(accepts(&self.table, tok)) by {
                        assert(self.table.actions@[x as int].token == Some(tok));
                    }
                }
                self.save_state(tok);
            }
            self.curr_state = x;
        } else {
            if !self.has_last() {
                let err_pos = self.curr_pos;
                proof {
                    lemma_word_end_bounds(self.buff@, self.curr_pos as int);
                }
                let symbol = self.recover();
                return Err(LexError::InvalidToken { pos: err_pos, symbol });
            }
            token = Some(self.make_token());
            self.reset_state();
        }
        Ok(token)
    }

    /// Skips the bad text: moves up to the next ASCII white space or the
    /// end of the input, drops what lies before from the buffer, starts
    /// afresh, and hands out the skipped text, from the start of the buffer
    /// on.
    fn recover(&mut self) -> (r: String)
        requires
            old(self).wf(),
        ensures
            r@ == old(self).buff@.subrange(
                old(self).start as int,
                word_end(old(self).buff@, old(self).curr_pos as int),
            ),
            *final(self) == (Lex {
                curr_pos: word_end(old(self).buff@, old(self).curr_pos as int) as usize,
                start: word_end(old(self).buff@, old(self).curr_pos as int) as usize,
                mode: LexMode::Normal,
                curr_state: old(self).table.init_state,
                ..*old(self)
            }),
    {
        let ghost s0 = *self;
        let ghost text = self.buff@;
        let ghost p0 = self.curr_pos as int;
        loop
            invariant
                *self == (Lex { curr_pos: self.curr_pos, ..s0 }),
                text == s0.buff@,
                p0 == s0.curr_pos,
                p0 <= self.curr_pos <= text.len(),
                word_end(text, p0) == word_end(text, self.curr_pos as int),
            ensures
                *self == (Lex { curr_pos: self.curr_pos, ..s0 }),
                self.curr_pos == word_end(text, p0),
            decreases text.len() - self.curr_pos,
        {
            let chr = match self.peek() {
                None => break,
                Some(c) => c,
            };
            if is_ascii_white_space(chr) {
                break;
            }
            self.next();
        }
        self.reset_state();
        let symbol = self.pop_buff(self.curr_pos);
        chars_to_string(&symbol)
    }
}

} // verus!
