//! Tokens as the parser takes them: a kind, a span and the value read from
//! the token's text.
use crate::types::span::Span;
use vstd::prelude::*;

verus! {

/// The kinds of token.
#[derive(Debug, Clone, Copy, PartialEq, Eq, Structural, PartialOrd, Ord, Hash)]
pub enum TokenKind {
    KeywordAuto,
    KeywordBreak,
    KeywordCase,
    KeywordChar,
    KeywordConst,
    KeywordContinue,
    KeywordDefault,
    KeywordDo,
    KeywordDouble,
    KeywordElse,
    KeywordEnum,
    KeywordExtern,
    KeywordFloat,
    KeywordFor,
    KeywordGoto,
    KeywordIf,
    KeywordInt,
    KeywordLong,
    KeywordRegister,
    KeywordReturn,
    KeywordShort,
    KeywordSigned,
    KeywordSizeof,
    KeywordStatic,
    KeywordStruct,
    KeywordSwitch,
    KeywordTypedef,
    KeywordUnion,
    KeywordUnsigned,
    KeywordVoid,
    KeywordVolatile,
    KeywordWhile,
    OpEllipsis,
    OpArrow,
    OpInc,
    OpDec,
    OpAddAssign,
    OpSubAssign,
    OpMulAssign,
    OpDivAssign,
    OpModAssign,
    OpLShiftAssign,
    OpRShiftAssign,
    OpAndAssign,
    OpXorAssign,
    OpOrAssign,
    OpEq,
    OpNe,
    OpGe,
    OpLe,
    OpAnd,
    OpOr,
    OpLShift,
    OpRShift,
    OpPlus,
    OpMinus,
    OpTimes,
    OpDivide,
    OpMod,
    OpNot,
    OpBitand,
    OpBitor,
    OpXor,
    OpBitNot,
    OpAssign,
    OpGt,
    OpLt,
    Lparen,
    Rparen,
    Lbrace,
    Rbrace,
    Lbracket,
    Rbracket,
    Semicolon,
    Comma,
    Dot,
    Question,
    Colon,
    ID,
    Hex,
    Oct,
    Int,
    Float,
    StringLiteral,
    CharacterConstant,
    TypeName,
    EOF,
}

/// The value a token carries.
///
/// A floating constant is held as the bit pattern of its IEEE-754 double.
#[derive(Debug, Clone)]
pub enum TokenValue {
    Number { value: usize, signed: bool },
    Float(u64),
    String(String),
    Char(u8),
    Other,
}

/// A token the parser takes: what it is, where it is, what it carries.
#[derive(Debug, Clone)]
pub struct Token {
    pub span: Span,
    pub kind: TokenKind,
    pub value: TokenValue,
}

/// The text a token carries, for a token whose value is text.
pub open spec fn text_of(t: Token) -> Seq<char> {
    match t.value {
        TokenValue::String(s) => s@,
        _ => Seq::empty(),
    }
}

/// The text a token carries; the token must carry text.
pub fn into_text(t: Token) -> (r: String)
    requires
        t.value is String,
    ensures
        r@ == text_of(t),
{
    match t.value {
        TokenValue::String(s) => s,
        _ => String::new(),
    }
}

/// The value of `c` as a digit, as `char::to_digit` reads it: `0`-`9`,
/// then `a`-`z` and `A`-`Z` from ten on; 36 for any other character.
pub open spec fn digit_value(c: char) -> nat {
    if '0' <= c <= '9' {
        (c as u32 - '0' as u32) as nat
    } else if 'a' <= c <= 'z' {
        (c as u32 - 'a' as u32 + 10) as nat
    } else if 'A' <= c <= 'Z' {
        (c as u32 - 'A' as u32 + 10) as nat
    } else {
        36
    }
}

/// The number that the digits `s` write in base `radix`.
pub open spec fn digits_value(s: Seq<char>, radix: nat) -> nat
    decreases s.len(),
{
    if s.len() == 0 {
        0
    } else {
        digits_value(s.drop_last(), radix) * radix + digit_value(s.last())
    }
}

/// The digits read in order: `0` to `9` are worth zero to nine, and the
/// letters `a` to `z`, in either case, ten to thirty-five; every other
/// character is worth thirty-six, more than any digit of any base.
pub proof fn lemma_digit_value_table()
    ensures
        digit_value('0') == 0,
        digit_value('1') == 1,
        digit_value('2') == 2,
        digit_value('3') == 3,
        digit_value('4') == 4,
        digit_value('5') == 5,
        digit_value('6') == 6,
        digit_value('7') == 7,
        digit_value('8') == 8,
        digit_value('9') == 9,
        digit_value('a') == 10,
        digit_value('A') == 10,
        digit_value('b') == 11,
        digit_value('B') == 11,
        digit_value('c') == 12,
        digit_value('C') == 12,
        digit_value('d') == 13,
        digit_value('D') == 13,
        digit_value('e') == 14,
        digit_value('E') == 14,
        digit_value('f') == 15,
        digit_value('F') == 15,
        digit_value('g') == 16,
        digit_value('G') == 16,
        digit_value('h') == 17,
        digit_value('H') == 17,
        digit_value('i') == 18,
        digit_value('I') == 18,
        digit_value('j') == 19,
        digit_value('J') == 19,
        digit_value('k') == 20,
        digit_value('K') == 20,
        digit_value('l') == 21,
        digit_value('L') == 21,
        digit_value('m') == 22,
        digit_value('M') == 22,
        digit_value('n') == 23,
        digit_value('N') == 23,
        digit_value('o') == 24,
        digit_value('O') == 24,
        digit_value('p') == 25,
        digit_value('P') == 25,
        digit_value('q') == 26,
        digit_value('Q') == 26,
        digit_value('r') == 27,
        digit_value('R') == 27,
        digit_value('s') == 28,
        digit_value('S') == 28,
        digit_value('t') == 29,
        digit_value('T') == 29,
        digit_value('u') == 30,
        digit_value('U') == 30,
        digit_value('v') == 31,
        digit_value('V') == 31,
        digit_value('w') == 32,
        digit_value('W') == 32,
        digit_value('x') == 33,
        digit_value('X') == 33,
        digit_value('y') == 34,
        digit_value('Y') == 34,
        digit_value('z') == 35,
        digit_value('Z') == 35,
        forall|c: char|
            !(('0' <= c && c <= '9') || ('a' <= c && c <= 'z') || ('A' <= c && c <= 'Z'))
                ==> #[trigger] digit_value(c) == 36,
{
}

/// The digits of `s`: `s` without its leading sign, if it has one.
pub open spec fn unsigned_part(s: Seq<char>) -> Seq<char> {
    if s.len() > 0 && (s[0] == '-' || s[0] == '+') {
        s.drop_first()
    } else {
        s
    }
}

/// Whether `s` starts with a minus sign.
pub open spec fn is_negative(s: Seq<char>) -> bool {
    s.len() > 0 && s[0] == '-'
}

/// Whether `isize::from_str_radix(s, radix)` reads `s`: an optional sign,
/// then at least one digit of the base, with a value an `isize` holds.
pub open spec fn reads_as_isize(s: Seq<char>, radix: nat) -> bool {
    let d = unsigned_part(s);
    &&& d.len() > 0
    &&& forall|i: int| 0 <= i < d.len() ==> #[trigger] digit_value(d[i]) < radix
    &&& if is_negative(s) {
        digits_value(d, radix) <= isize::MAX + 1
    } else {
        digits_value(d, radix) <= isize::MAX
    }
}

/// What `isize::from_str_radix(s, radix)` reads, cast to `usize`: a
/// negative value wraps around.
pub open spec fn read_as_usize(s: Seq<char>, radix: nat) -> int {
    let v = digits_value(unsigned_part(s), radix);
    if is_negative(s) && v > 0 {
        usize::MAX + 1 - v
    } else {
        v as int
    }
}

/// The characters of `s`.
fn chars_of(s: &String) -> (r: Vec<char>)
    ensures
        r@ == s@,
{
    let t = s.as_str();
    let n = t.unicode_len();
    let mut out: Vec<char> = Vec::new();
    let mut i: usize = 0;
    while i < n
        invariant
            i <= n,
            n == t@.len(),
            t@ == s@,
            out@ == t@.take(i as int),
        decreases n - i,
    {
        out.push(t.get_char(i));
        assert(out@ =~= t@.take(i + 1));
        i = i + 1;
    }
    assert(out@ =~= t@);
    out
}

/// The value of `c` as a digit (see `digit_value`).
fn digit_of(c: char) -> (r: u32)
    ensures
        r == digit_value(c),
{
    if '0' <= c && c <= '9' {
        (c as u32) - ('0' as u32)
    } else if 'a' <= c && c <= 'z' {
        (c as u32) - ('a' as u32) + 10
    } else if 'A' <= c && c <= 'Z' {
        (c as u32) - ('A' as u32) + 10
    } else {
        36
    }
}

/// Reading more digits never gives a smaller number.
proof fn lemma_digits_grow(s: Seq<char>, radix: nat, i: int)
    requires
        radix >= 1,
        0 <= i <= s.len(),
    ensures
        digits_value(s.take(i), radix) <= digits_value(s, radix),
    decreases s.len() - i,
{
    if i < s.len() {
        lemma_digits_grow(s, radix, i + 1);
        let t = s.take(i + 1);
        assert(t.drop_last() =~= s.take(i));
        let v = digits_value(s.take(i), radix);
        assert(v * radix >= v) by (nonlinear_arith)
            requires
                radix >= 1,
        ;
    } else {
        assert(s.take(i) =~= s);
    }
}

/// `isize::from_str_radix(s, radix)` cast to `usize`.
fn read_radix(s: &Vec<char>, radix: u32) -> (r: usize)
    requires
        2 <= radix <= 36,
        reads_as_isize(s@, radix as nat),
    ensures
        r == read_as_usize(s@, radix as nat),
{
    let neg = s.len() > 0 && s[0] == '-';
    let first: usize = if s.len() > 0 && (s[0] == '-' || s[0] == '+') {
        1
    } else {
        0
    };
    let ghost d = unsigned_part(s@);
    proof {
        assert(d =~= s@.skip(first as int));
    }
    let mut v: usize = 0;
    let mut i: usize = first;
    while i < s.len()
        invariant
            first <= i <= s.len(),
            d == s@.skip(first as int),
            2 <= radix <= 36,
            forall|k: int| 0 <= k < d.len() ==> #[trigger] digit_value(d[k]) < radix,
            digits_value(d, radix as nat) <= isize::MAX + 1,
            v == digits_value(d.take(i - first), radix as nat),
        decreases s.len() - i,
    {
        let c = s[i];
        let dv = digit_of(c);
        proof {
            let t = d.take(i - first + 1);
            assert(t.drop_last() =~= d.take(i - first));
            assert(t.last() == c);
            lemma_digits_grow(d, radix as nat, i - first + 1);
            assert(digits_value(t, radix as nat) == v * radix + dv);
        }
        v = v * (radix as usize) + (dv as usize);
        i = i + 1;
    }
    proof {
        assert(d.take(s.len() - first) =~= d);
    }
    if neg && v > 0 {
        usize::MAX - (v - 1)
    } else {
        v
    }
}

/// An octal constant: its value and whether it is signed.
fn oct2int(num: String) -> (r: (usize, bool))
    requires
        reads_as_isize(num@, 8),
    ensures
        r.0 == read_as_usize(num@, 8),
        r.1,
{
    let digits = chars_of(&num);
    (read_radix(&digits, 8), true)
}

/// A hexadecimal constant, read after its two-character prefix: its value
/// and whether it is signed.
fn hex2int(num: String) -> (r: (usize, bool))
    requires
        num@.len() >= 2,
        (num@[0] as u32) < 0x80,
        (num@[1] as u32) < 0x80,
        reads_as_isize(num@.skip(2), 16),
    ensures
        r.0 == read_as_usize(num@.skip(2), 16),
        r.1,
{
    let chars = chars_of(&num);
    let mut digits: Vec<char> = Vec::new();
    let mut i: usize = 2;
    while i < chars.len()
        invariant
            2 <= i <= chars.len(),
            digits@ == chars@.subrange(2, i as int),
        decreases chars.len() - i,
    {
        digits.push(chars[i]);
        assert(digits@ =~= chars@.subrange(2, i + 1));
        i = i + 1;
    }
    assert(digits@ =~= num@.skip(2));
    (read_radix(&digits, 16), true)
}

/// A decimal constant: its value and whether it is signed.
fn str2int(num: String) -> (r: (usize, bool))
    requires
        reads_as_isize(num@, 10),
    ensures
        r.0 == read_as_usize(num@, 10),
        r.1,
{
    let digits = chars_of(&num);
    (read_radix(&digits, 10), true)
}

/// A string literal's text, as it stands.
fn format_str(str: String) -> (r: String)
    ensures
        r@ == str@,
{
    str
}

/// A character constant: the first byte of its text.
fn format_char(str: String) -> (r: u8)
    requires
        str@.len() > 0,
    ensures
        r == vstd::utf8::encode_utf8(str@)[0],
{
    let bytes = str.as_str().as_bytes();
    proof {
        assert(vstd::utf8::encode_utf8(str@) == vstd::utf8::encode_scalar(str@[0] as u32) + vstd::utf8::encode_utf8(
            str@.drop_first(),
        ));
    }
    bytes[0]
}

/// Whether `Token::new` can read a token of kind `kind` with text `value`:
/// a number kind needs a number of its base (a hexadecimal one after a
/// two-character ASCII prefix), a character constant needs some text, and
/// a floating constant is read elsewhere.
pub open spec fn readable(kind: TokenKind, value: Seq<char>) -> bool {
    match kind {
        TokenKind::Hex => value.len() >= 2 && (value[0] as u32) < 0x80 && (value[1] as u32) < 0x80 && reads_as_isize(
            value.skip(2),
            16,
        ),
        TokenKind::Oct => reads_as_isize(value, 8),
        TokenKind::Int => reads_as_isize(value, 10),
        TokenKind::CharacterConstant => value.len() > 0,
        TokenKind::Float => false,
        _ => true,
    }
}

impl Token {
    /// The token of kind `kind` from `beg` to `end` whose text is `value`.
    /// Numbers are read in their base and become `Int`; identifiers and
    /// string literals keep their text; a character constant keeps its
    /// first byte; other kinds carry nothing.
    pub fn new(beg: usize, end: usize, kind: TokenKind, value: String) -> (r: Token)
        requires
            beg <= end,
            readable(kind, value@),
        ensures
            r.span == (Span { start: beg, end }),
            r.kind == (if kind == TokenKind::Hex || kind == TokenKind::Oct {
                TokenKind::Int
            } else {
                kind
            }),
            match kind {
                TokenKind::ID | TokenKind::StringLiteral => r.value matches TokenValue::String(s) && s@ == value@,
                TokenKind::Hex => r.value == (TokenValue::Number {
                    value: read_as_usize(value@.skip(2), 16) as usize,
                    signed: true,
                }),
                TokenKind::Oct => r.value == (TokenValue::Number {
                    value: read_as_usize(value@, 8) as usize,
                    signed: true,
                }),
                TokenKind::Int => r.value == (TokenValue::Number {
                    value: read_as_usize(value@, 10) as usize,
                    signed: true,
                }),
                TokenKind::CharacterConstant => r.value == TokenValue::Char(vstd::utf8::encode_utf8(value@)[0]),
                _ => r.value is Other,
            },
    {
        let text = value;
        let value = match kind {
            TokenKind::ID => TokenValue::String(text),
            TokenKind::Hex => {
                let (value, signed) = hex2int(text);
                TokenValue::Number { value, signed }
            },
            TokenKind::Oct => {
                let (value, signed) = oct2int(text);
                TokenValue::Number { value, signed }
            },
            TokenKind::Int => {
                let (value, signed) = str2int(text);
                TokenValue::Number { value, signed }
            },
            TokenKind::StringLiteral => TokenValue::String(format_str(text)),
            TokenKind::CharacterConstant => TokenValue::Char(format_char(text)),
            _ => TokenValue::Other,
        };
        let kind = match kind {
            TokenKind::Hex | TokenKind::Oct => TokenKind::Int,
            _ => kind,
        };
        Token { span: Span::new(beg, end), kind, value }
    }
}

} // verus!
