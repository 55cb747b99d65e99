//! Printing of tables as Rust source text.

use crate::types::lex::token::{digit_value, digits_value, read_as_usize, reads_as_isize};
use vstd::prelude::*;

verus! {

/// The indentation of one level: four spaces.
pub const IDENT_STR: &'static str = "    ";

/// The widest a line of printed items may grow before a break.
pub const MAX_WIDTH: usize = 100;

/// Appends `c` to `s`.
#[verifier::external_body]
pub(crate) fn string_push(s: &mut String, c: char)
    ensures
        final(s)@ == old(s)@.push(c),
{
    s.push(c);
}

/// The four spaces of one indentation level.
pub open spec fn indent() -> Seq<char> {
    seq![' ', ' ', ' ', ' ']
}

/// Appends `origin` to `dest` and returns the number of characters appended.
pub fn push_count(dest: &mut String, origin: String) -> (r: usize)
    ensures
        final(dest)@ == old(dest)@ + origin@,
        r == origin@.len(),
{
    let count = origin.as_str().unicode_len();
    dest.append(origin.as_str());
    count
}

/// The text of `items` printed after a line already `width` characters
/// wide: each item is followed by `", "`, and a line break with indentation
/// comes before any item that would take a line holding other items past
/// `MAX_WIDTH`.
pub open spec fn spec_layout(items: Seq<Seq<char>>, width: nat) -> Seq<char>
    decreases items.len(),
{
    if items.len() == 0 {
        Seq::empty()
    } else {
        let head = items[0] + seq![',', ' '];
        if width > 4 && width + items[0].len() + 2 > MAX_WIDTH {
            seq!['\n'] + indent() + head + spec_layout(items.drop_first(), 4 + items[0].len() + 2)
        } else {
            head + spec_layout(items.drop_first(), width + items[0].len() + 2)
        }
    }
}

/// The Rust array literal that lists `items`: an opening bracket, the items
/// laid out from an indented line, and a closing bracket on its own line.
pub open spec fn spec_vec_to_code(items: Seq<Seq<char>>) -> Seq<char> {
    seq!['[', '\n'] + indent() + spec_layout(items, 4) + seq!['\n', ']']
}

/// Every line of `s` is at most `MAX_WIDTH` characters wide, the first
/// one counted from a line already `width` wide.
pub open spec fn fits_width(s: Seq<char>, width: int) -> bool
    decreases s.len(),
{
    if s.len() == 0 {
        width <= MAX_WIDTH
    } else if s[0] == '\n' {
        width <= MAX_WIDTH && fits_width(s.drop_first(), 0)
    } else {
        fits_width(s.drop_first(), width + 1)
    }
}

/// A line that is at most `MAX_WIDTH` wide stays so when it is narrower.
proof fn lemma_fits_narrower(s: Seq<char>, w1: int, w2: int)
    requires
        fits_width(s, w1),
        w2 <= w1,
    ensures
        fits_width(s, w2),
    decreases s.len(),
{
    if s.len() > 0 && s[0] != '\n' {
        lemma_fits_narrower(s.drop_first(), w1 + 1, w2 + 1);
    }
}

/// Text `a` put on a line `width` wide: if the line with all of `a` on it
/// is at most `MAX_WIDTH` wide, and the rest fits after it, the whole
/// fits; a line break inside `a` only narrows what follows.
proof fn lemma_fits_after(a: Seq<char>, b: Seq<char>, width: int)
    requires
        0 <= width,
        width + a.len() <= MAX_WIDTH,
        fits_width(b, width + a.len()),
    ensures
        fits_width(a + b, width),
    decreases a.len(),
{
    if a.len() == 0 {
        assert(a + b =~= b);
    } else {
        assert((a + b)[0] == a[0]);
        assert((a + b).drop_first() =~= a.drop_first() + b);
        if a[0] == '\n' {
            lemma_fits_narrower(b, width + a.len(), a.len() - 1);
            lemma_fits_after(a.drop_first(), b, 0);
        } else {
            lemma_fits_after(a.drop_first(), b, width + 1);
        }
    }
}

/// Laid out from a line `width` wide, items that each fit a fresh line
/// give lines of at most `MAX_WIDTH` characters, up to the closing line.
proof fn lemma_layout_fits(items: Seq<Seq<char>>, width: int)
    requires
        4 <= width <= MAX_WIDTH,
        forall|i: int| 0 <= i < items.len() ==> (#[trigger] items[i]).len() + 6 <= MAX_WIDTH,
    ensures
        fits_width(spec_layout(items, width as nat) + seq!['\n', ']'], width),
    decreases items.len(),
{
    let tail = seq!['\n', ']'];
    if items.len() == 0 {
        assert(spec_layout(items, width as nat) + tail =~= tail);
        assert(tail.drop_first() =~= seq![']']);
        assert(seq![']'].drop_first() =~= Seq::<char>::empty());
        assert(fits_width(seq![']'].drop_first(), 1));
        assert(fits_width(seq![']'], 0));
        assert(fits_width(tail, width));
    } else {
        let head = items[0] + seq![',', ' '];
        let rest = items.drop_first();
        assert forall|i: int| 0 <= i < rest.len() implies (#[trigger] rest[i]).len() + 6 <= MAX_WIDTH by {
            assert(rest[i] == items[i + 1]);
        }
        if width > 4 && width + items[0].len() + 2 > MAX_WIDTH {
            let w2: int = 4 + items[0].len() as int + 2;
            lemma_layout_fits(rest, w2);
            let body = indent() + head;
            let s = seq!['\n'] + body + spec_layout(rest, w2 as nat) + tail;
            assert(spec_layout(items, width as nat) + tail =~= s);
            assert(s[0] == '\n');
            assert(s.drop_first() =~= body + (spec_layout(rest, w2 as nat) + tail));
            lemma_fits_after(body, spec_layout(rest, w2 as nat) + tail, 0);
            assert(body.len() == w2);
            assert(fits_width(s, width));
        } else {
            let w2: int = width + items[0].len() + 2;
            lemma_layout_fits(rest, w2);
            assert(spec_layout(items, width as nat) + tail =~= head + (spec_layout(rest, w2 as nat) + tail));
            lemma_fits_after(head, spec_layout(rest, w2 as nat) + tail, width);
        }
    }
}

/// With items that each fit a fresh line, every line of the printed array
/// is at most `MAX_WIDTH` characters wide.
proof fn lemma_vec_to_code_fits(items: Seq<Seq<char>>)
    requires
        forall|i: int| 0 <= i < items.len() ==> (#[trigger] items[i]).len() + 6 <= MAX_WIDTH,
    ensures
        fits_width(spec_vec_to_code(items), 0),
{
    lemma_layout_fits(items, 4);
    let open = seq!['[', '\n'];
    let rest = indent() + (spec_layout(items, 4) + seq!['\n', ']']);
    assert(spec_vec_to_code(items) =~= open + rest);
    assert((open + rest).drop_first() =~= seq!['\n'] + rest);
    assert((seq!['\n'] + rest).drop_first() =~= rest);
    lemma_fits_after(indent(), spec_layout(items, 4) + seq!['\n', ']'], 0);
    assert(fits_width(rest, 0));
    assert((seq!['\n'] + rest)[0] == '\n');
    assert(fits_width(seq!['\n'] + rest, 1));
    assert((open + rest)[0] == '[');
    assert(fits_width(open + rest, 0));
}

/// The views of a list of strings.
pub open spec fn strings_view(v: Seq<String>) -> Seq<Seq<char>> {
    Seq::new(v.len(), |i: int| v[i]@)
}

/// Prints already converted items as a Rust array literal whose lines are
/// at most `MAX_WIDTH` characters wide (unless one item alone is wider);
/// returns the text and the number of items.
#[verifier::spinoff_prover]
pub fn vec_to_code(vec: Vec<String>) -> (r: (String, usize))
    requires
        forall|i: int| 0 <= i < vec.len() ==> (#[trigger] vec[i])@.len() + MAX_WIDTH + 3 <= usize::MAX,
    ensures
        r.0@ == spec_vec_to_code(strings_view(vec@)),
        r.1 == vec.len(),
        (forall|i: int| 0 <= i < vec.len() ==> (#[trigger] vec[i])@.len() + 6 <= MAX_WIDTH) ==> fits_width(r.0@, 0),
{
    let ghost items = strings_view(vec@);
    let mut sz: usize = 0;
    let mut code = String::new();
    let mut line_width: usize = 4;
    proof {
        reveal_strlit("[\n");
        reveal_strlit("    ");
        reveal_strlit(", ");
        reveal_strlit("\n]");
    }
    code.append("[\n");
    code.append(IDENT_STR);
    let mut i: usize = 0;
    assert(items.skip(0) =~= items);
    while i < vec.len()
        invariant
            i <= vec.len(),
            sz == i,
            items == strings_view(vec@),
            4 <= line_width,
            forall|k: int| 0 <= k < vec.len() ==> (#[trigger] vec[k])@.len() + MAX_WIDTH + 3 <= usize::MAX,
            code@ + spec_layout(items.skip(i as int), line_width as nat) == seq!['[', '\n'] + indent() + spec_layout(
                items,
                4,
            ),
        decreases vec.len() - i,
    {
        proof {
            reveal_strlit("    ");
            reveal_strlit(", ");
        }
        let ghost before = code@;
        let ghost w0 = line_width;
        let ghost rest = items.skip(i as int);
        assert(rest[0] == vec[i as int]@);
        assert(rest.drop_first() =~= items.skip(i + 1));
        let item = vec[i].clone();
        sz = sz + 1;
        let count = item.as_str().unicode_len();
        if line_width > 4 && (line_width > MAX_WIDTH || count + 2 > MAX_WIDTH - line_width) {
            string_push(&mut code, '\n');
            code.append(IDENT_STR);
            let ghost mid = code@;
            push_count(&mut code, item);
            code.append(", ");
            line_width = 4 + count + 2;
            let ghost head = rest[0] + seq![',', ' '];
            assert(code@ =~= before + seq!['\n'] + indent() + head);
            assert(spec_layout(rest, w0 as nat) == seq!['\n'] + indent() + head + spec_layout(
                rest.drop_first(),
                line_width as nat,
            ));
            assert(code@ + spec_layout(rest.drop_first(), line_width as nat) =~= before + spec_layout(rest, w0 as nat));
        } else {
            push_count(&mut code, item);
            code.append(", ");
            line_width = line_width + count + 2;
            let ghost head = rest[0] + seq![',', ' '];
            assert(code@ =~= before + head);
            assert(spec_layout(rest, w0 as nat) == head + spec_layout(rest.drop_first(), line_width as nat));
            assert(code@ + spec_layout(rest.drop_first(), line_width as nat) =~= before + spec_layout(rest, w0 as nat));
        }
        i = i + 1;
    }
    assert(items.skip(i as int) =~= Seq::<Seq<char>>::empty());
    proof {
        reveal_strlit("\n]");
    }
    code.append("\n]");
    proof {
        if forall|i: int| 0 <= i < vec.len() ==> (#[trigger] vec[i])@.len() + 6 <= MAX_WIDTH {
            assert forall|i: int| 0 <= i < items.len() implies (#[trigger] items[i]).len() + 6 <= MAX_WIDTH by {
                assert(items[i] == vec[i]@);
            }
            lemma_vec_to_code_fits(items);
        }
    }
    (code, sz)
}

/// The decimal digit of `d`, for `d < 10`.
pub open spec fn digit_char(d: nat) -> char {
    if d == 0 { '0' }
    else if d == 1 { '1' }
    else if d == 2 { '2' }
    else if d == 3 { '3' }
    else if d == 4 { '4' }
    else if d == 5 { '5' }
    else if d == 6 { '6' }
    else if d == 7 { '7' }
    else if d == 8 { '8' }
    else { '9' }
}

/// The decimal text of `n`, without leading zeros.
pub open spec fn spec_decimal(n: nat) -> Seq<char>
    decreases n,
{
    if n < 10 {
        seq![digit_char(n)]
    } else {
        spec_decimal(n / 10).push(digit_char(n % 10))
    }
}

/// A decimal digit written and read back is the same digit.
proof fn lemma_digit_round_trip(d: nat)
    requires
        d < 10,
    ensures
        digit_value(digit_char(d)) == d,
        '0' <= digit_char(d) <= '9',
{
}

/// The decimal text of `n` is all digits, starts with a digit, and its
/// digits write `n`.
pub proof fn lemma_decimal_digits(n: nat)
    ensures
        spec_decimal(n).len() > 0,
        '0' <= spec_decimal(n)[0] <= '9',
        forall|i: int| 0 <= i < spec_decimal(n).len() ==> #[trigger] digit_value(spec_decimal(n)[i]) < 10,
        digits_value(spec_decimal(n), 10) == n,
    decreases n,
{
    if n < 10 {
        lemma_digit_round_trip(n);
        assert(spec_decimal(n) == seq![digit_char(n)]);
        assert(seq![digit_char(n)].drop_last() =~= Seq::<char>::empty());
        assert(digits_value(Seq::<char>::empty(), 10) == 0);
        assert(digits_value(seq![digit_char(n)], 10) == digits_value(Seq::<char>::empty(), 10) * 10 + digit_value(
            digit_char(n),
        ));
    } else {
        lemma_decimal_digits(n / 10);
        lemma_digit_round_trip(n % 10);
        let s = spec_decimal(n / 10);
        assert(spec_decimal(n).drop_last() =~= s);
        assert(spec_decimal(n).last() == digit_char(n % 10));
        assert(digits_value(spec_decimal(n), 10) == digits_value(s, 10) * 10 + digit_value(digit_char(n % 10)));
        assert((n / 10) * 10 + n % 10 == n);
        assert(spec_decimal(n)[0] == s[0]);
        assert forall|i: int| 0 <= i < spec_decimal(n).len() implies #[trigger] digit_value(spec_decimal(n)[i]) < 10 by {
            if i < s.len() {
                assert(spec_decimal(n)[i] == s[i]);
            }
        }
    }
}

/// Printing a number in decimal (`default_cvt`) and reading the text back
/// as a decimal number (`str2int`, as `Token::new` does for an `Int`)
/// gives the number again, for every number an `isize` holds.
pub proof fn lemma_decimal_reads_back(n: nat)
    requires
        n <= isize::MAX,
    ensures
        reads_as_isize(spec_decimal(n), 10),
        read_as_usize(spec_decimal(n), 10) == n,
{
    lemma_decimal_digits(n);
}

/// The character of a decimal digit.
fn digit(d: usize) -> (c: char)
    requires
        d < 10,
    ensures
        c == digit_char(d as nat),
{
    if d == 0 { '0' }
    else if d == 1 { '1' }
    else if d == 2 { '2' }
    else if d == 3 { '3' }
    else if d == 4 { '4' }
    else if d == 5 { '5' }
    else if d == 6 { '6' }
    else if d == 7 { '7' }
    else if d == 8 { '8' }
    else { '9' }
}

/// Appends the decimal text of `n` to `out`.
fn push_decimal(out: &mut String, n: usize)
    ensures
        final(out)@ == old(out)@ + spec_decimal(n as nat),
    decreases n,
{
    if n < 10 {
        string_push(out, digit(n));
        assert(spec_decimal(n as nat) == seq![digit_char(n as nat)]);
    } else {
        push_decimal(out, n / 10);
        string_push(out, digit(n % 10));
    }
}

/// The text `None`, or `Some(` and the decimal value and `)`.
pub open spec fn spec_option_cvt(value: Option<usize>) -> Seq<char> {
    match value {
        None => seq!['N', 'o', 'n', 'e'],
        Some(x) => seq!['S', 'o', 'm', 'e', '('] + spec_decimal(x as nat) + seq![')'],
    }
}

/// Prints an optional number as Rust code: `None` or `Some(..)`.
pub fn option_cvt(value: Option<usize>) -> (r: String)
    ensures
        r@ == spec_option_cvt(value),
{
    match value {
        None => {
            proof {
                reveal_strlit("None");
            }
            String::from_str("None")
        },
        Some(x) => {
            proof {
                reveal_strlit("Some(");
                reveal_strlit(")");
            }
            let mut s = String::from_str("Some(");
            push_decimal(&mut s, x);
            s.append(")");
            s
        },
    }
}

/// Prints a string as a Rust string literal: the text between double quotes.
pub fn string_cvt(value: String) -> (r: String)
    ensures
        r@ == seq!['"'] + value@ + seq!['"'],
{
    let mut s = String::new();
    string_push(&mut s, '"');
    s.append(value.as_str());
    string_push(&mut s, '"');
    s
}

/// Prints a number in decimal.
pub fn default_cvt(value: usize) -> (r: String)
    ensures
        r@ == spec_decimal(value as nat),
{
    let mut s = String::new();
    push_decimal(&mut s, value);
    s
}

/// A line break followed by one indentation when `cond` holds, else nothing.
pub fn new_line_ident(cond: bool) -> (r: &'static str)
    ensures
        cond ==> r@ == seq!['\n'] + indent(),
        !cond ==> r@ == Seq::<char>::empty(),
{
    proof {
        reveal_strlit("\n    ");
        reveal_strlit("");
    }
    match cond {
        true => "\n    ",
        false => "",
    }
}

} // verus!
