//! Tokens and the tokenizer.

use vstd::prelude::*;
use vstd::std_specs::cmp::PartialEqSpecImpl;
use crate::geometry::{clamp, Px};
use crate::text::{bool_text, decimal_text, push_bool, push_decimal, push_text, string_of};

verus! {

/// One piece of an interpolated string.
#[derive(Debug)]
pub enum StringPart {
    /// Literal text.
    String(String),
    /// The tokens of one `{`...`}` region.
    Formatted(Vec<Token>),
}

/// A lexical token.
#[derive(Debug)]
pub enum Token {
    Ident(String),
    FormattedString(Vec<StringPart>),
    String(String),
    /// A decimal literal with a fraction, kept as written: an optional `-`,
    /// digits, `.`, digits.
    Float(String),
    Integer(i64),
    Boolean(bool),
    BracketOpen,
    BracketClose,
    BraceOpen,
    BraceClose,
    ParenOpen,
    ParenClose,
    Colon,
    Minus,
    Plus,
    Slash,
    Star,
    Pound,
    Percent,
    Comma,
    Dot,
    Unknown(char),
}

/// The mathematical value of a [`StringPart`].
pub enum StringPartView {
    String(Seq<char>),
    Formatted(Seq<TokenView>),
}

/// The mathematical value of a [`Token`].
pub enum TokenView {
    Ident(Seq<char>),
    FormattedString(Seq<StringPartView>),
    String(Seq<char>),
    Float(Seq<char>),
    Integer(i64),
    Boolean(bool),
    BracketOpen,
    BracketClose,
    BraceOpen,
    BraceClose,
    ParenOpen,
    ParenClose,
    Colon,
    Minus,
    Plus,
    Slash,
    Star,
    Pound,
    Percent,
    Comma,
    Dot,
    Unknown(char),
}

impl View for StringPart {
    type V = StringPartView;

    open spec fn view(&self) -> StringPartView
        decreases self,
    {
        match self {
            StringPart::String(text) => StringPartView::String(text@),
            StringPart::Formatted(tokens) => StringPartView::Formatted(
                Seq::new(
                    tokens@.len(),
                    |i: int|
                        if 0 <= i < tokens@.len() {
                            tokens@[i].view()
                        } else {
                            arbitrary()
                        },
                ),
            ),
        }
    }
}

impl View for Token {
    type V = TokenView;

    open spec fn view(&self) -> TokenView
        decreases self,
    {
        match self {
            Token::Ident(text) => TokenView::Ident(text@),
            Token::FormattedString(parts) => TokenView::FormattedString(
                Seq::new(
                    parts@.len(),
                    |i: int|
                        if 0 <= i < parts@.len() {
                            parts@[i].view()
                        } else {
                            arbitrary()
                        },
                ),
            ),
            Token::String(text) => TokenView::String(text@),
            Token::Float(text) => TokenView::Float(text@),
            Token::Integer(value) => TokenView::Integer(*value),
            Token::Boolean(value) => TokenView::Boolean(*value),
            Token::BracketOpen => TokenView::BracketOpen,
            Token::BracketClose => TokenView::BracketClose,
            Token::BraceOpen => TokenView::BraceOpen,
            Token::BraceClose => TokenView::BraceClose,
            Token::ParenOpen => TokenView::ParenOpen,
            Token::ParenClose => TokenView::ParenClose,
            Token::Colon => TokenView::Colon,
            Token::Minus => TokenView::Minus,
            Token::Plus => TokenView::Plus,
            Token::Slash => TokenView::Slash,
            Token::Star => TokenView::Star,
            Token::Pound => TokenView::Pound,
            Token::Percent => TokenView::Percent,
            Token::Comma => TokenView::Comma,
            Token::Dot => TokenView::Dot,
            Token::Unknown(c) => TokenView::Unknown(*c),
        }
    }
}

/// The values of a sequence of tokens.
pub open spec fn token_views(tokens: Seq<Token>) -> Seq<TokenView> {
    tokens.map_values(|t: Token| t@)
}

/// The values of a sequence of string parts.
pub open spec fn part_views(parts: Seq<StringPart>) -> Seq<StringPartView> {
    parts.map_values(|p: StringPart| p@)
}

pub proof fn lemma_formatted_view(tokens: Vec<Token>)
    ensures
        StringPart::Formatted(tokens)@ == StringPartView::Formatted(token_views(tokens@)),
{
    assert(StringPart::Formatted(tokens)@->Formatted_0 =~= token_views(tokens@));
}

pub proof fn lemma_formatted_string_view(parts: Vec<StringPart>)
    ensures
        Token::FormattedString(parts)@ == TokenView::FormattedString(part_views(parts@)),
{
    assert(Token::FormattedString(parts)@->FormattedString_0 =~= part_views(parts@));
}

/// The classes of character that the tokenizer scans runs of.
#[derive(Clone, Copy, Debug)]
pub enum CharClass {
    /// `0`-`9`.
    Digit,
    /// An ASCII letter or digit.
    Alnum,
    /// What may follow the first letter of an identifier.
    Word,
    /// What may stand inside an interpolated region: anything but a brace.
    Inside,
}

pub open spec fn is_space(c: char) -> bool {
    c == ' ' || c == '\t' || c == '\n' || c == '\x0C' || c == '\r'
}

pub open spec fn is_letter(c: char) -> bool {
    ('a' <= c && c <= 'z') || ('A' <= c && c <= 'Z')
}

pub open spec fn is_digit(c: char) -> bool {
    '0' <= c && c <= '9'
}

pub open spec fn in_class(class: CharClass, c: char) -> bool {
    match class {
        CharClass::Digit => is_digit(c),
        CharClass::Alnum => is_letter(c) || is_digit(c),
        CharClass::Word => is_letter(c) || is_digit(c) || c == '-' || c == '_',
        CharClass::Inside => c != '{' && c != '}',
    }
}

/// Where the longest run of `class` characters that starts at `i` ends.
pub open spec fn run_end(s: Seq<char>, i: int, class: CharClass) -> int
    decreases s.len() - i,
{
    if 0 <= i < s.len() && in_class(class, s[i]) {
        run_end(s, i + 1, class)
    } else {
        i
    }
}

pub proof fn lemma_run_end_bounds(s: Seq<char>, i: int, class: CharClass)
    requires
        0 <= i <= s.len(),
    ensures
        i <= run_end(s, i, class) <= s.len(),
    decreases s.len() - i,
{
    if i < s.len() && in_class(class, s[i]) {
        lemma_run_end_bounds(s, i + 1, class);
    }
}

/// The number that a run of digits writes.
pub open spec fn decimal(digits: Seq<char>) -> int
    decreases digits.len(),
{
    if digits.len() == 0 {
        0
    } else {
        decimal(digits.drop_last()) * 10 + (digits.last() as int - '0' as int)
    }
}

/// The value of an integer token: the number written, negated after a `-`,
/// held to the range of `i64`.
pub open spec fn integer_of(digits: Seq<char>, negative: bool) -> i64 {
    if negative {
        clamp(-decimal(digits))
    } else {
        clamp(decimal(digits))
    }
}

/// The token of one punctuation character; any other character passes
/// through as [`TokenView::Unknown`].
pub open spec fn punctuation(c: char) -> TokenView {
    if c == '[' {
        TokenView::BracketOpen
    } else if c == ']' {
        TokenView::BracketClose
    } else if c == '{' {
        TokenView::BraceOpen
    } else if c == '}' {
        TokenView::BraceClose
    } else if c == '(' {
        TokenView::ParenOpen
    } else if c == ')' {
        TokenView::ParenClose
    } else if c == ':' {
        TokenView::Colon
    } else if c == '+' {
        TokenView::Plus
    } else if c == '-' {
        TokenView::Minus
    } else if c == '*' {
        TokenView::Star
    } else if c == '/' {
        TokenView::Slash
    } else if c == '#' {
        TokenView::Pound
    } else if c == '%' {
        TokenView::Percent
    } else if c == '.' {
        TokenView::Dot
    } else if c == ',' {
        TokenView::Comma
    } else {
        TokenView::Unknown(c)
    }
}

/// The token of a word: the two boolean spellings, or an identifier.
pub open spec fn word(text: Seq<char>) -> TokenView {
    if text == seq!['t', 'r', 'u', 'e'] {
        TokenView::Boolean(true)
    } else if text == seq!['f', 'a', 'l', 's', 'e'] {
        TokenView::Boolean(false)
    } else {
        TokenView::Ident(text)
    }
}

/// The tokens of the numeric literal whose text starts at `start` and whose
/// first digit stands at `first`, and where the text after them starts.
///
/// A `.` with a digit behind it makes a float of the whole; a `.` without one
/// is a token of its own behind the integer.
pub open spec fn number(s: Seq<char>, start: int, first: int) -> (Seq<TokenView>, int) {
    let whole_end = run_end(s, first, CharClass::Digit);
    let value = integer_of(s.subrange(first, whole_end), start < first);
    if whole_end < s.len() && s[whole_end] == '.' {
        let fraction_end = run_end(s, whole_end + 1, CharClass::Digit);
        if fraction_end == whole_end + 1 {
            (seq![TokenView::Integer(value), TokenView::Dot], whole_end + 1)
        } else {
            (seq![TokenView::Float(s.subrange(start, fraction_end))], fraction_end)
        }
    } else {
        (seq![TokenView::Integer(value)], whole_end)
    }
}

/// The token that a quoted string ends in: a plain string where it held no
/// region, else the parts with the trailing text as the last of them.
pub open spec fn finish_string(text: Seq<char>, parts: Seq<StringPartView>) -> TokenView {
    if parts.len() == 0 {
        TokenView::String(text)
    } else {
        TokenView::FormattedString(parts.push(StringPartView::String(text)))
    }
}

/// Where the region that opens at `i - 1` hands back to the string: behind
/// the `}` that ends it, or at what else ended it.
pub open spec fn region_next(s: Seq<char>, i: int) -> int {
    let end = run_end(s, i, CharClass::Inside);
    if end < s.len() && s[end] == '}' {
        end + 1
    } else {
        end
    }
}

/// Where the text after a quoted string starts, for a string whose content
/// is scanned from `i`: behind the first quote that no backslash precedes
/// and no region holds, or at the end of input.
pub open spec fn quoted_end(s: Seq<char>, i: int) -> int
    decreases s.len() - i,
{
    if i < 0 || i >= s.len() {
        i
    } else if s[i] == '"' {
        i + 1
    } else if s[i] == '\\' && i + 1 < s.len() && s[i + 1] == '"' {
        quoted_end(s, i + 2)
    } else if s[i] == '{' {
        proof {
            lemma_run_end_bounds(s, i + 1, CharClass::Inside);
        }
        quoted_end(s, region_next(s, i + 1))
    } else {
        quoted_end(s, i + 1)
    }
}

/// The token of a quoted string whose content is scanned from `i`, with
/// `text` the literal text gathered since the last region and `parts` the
/// parts before it.
///
/// A backslash before a quote stands for the quote. A `{` closes the text
/// part and opens a region that runs to the next brace or the end of input;
/// the region is tokenized by itself, and a `}` that ends it is skipped.
pub open spec fn quoted(
    s: Seq<char>,
    i: int,
    text: Seq<char>,
    parts: Seq<StringPartView>,
) -> TokenView
    decreases s.len(), s.len() - i,
{
    if i < 0 || i >= s.len() {
        finish_string(text, parts)
    } else if s[i] == '"' {
        finish_string(text, parts)
    } else if s[i] == '\\' && i + 1 < s.len() && s[i + 1] == '"' {
        quoted(s, i + 2, text.push('"'), parts)
    } else if s[i] == '{' {
        let end = run_end(s, i + 1, CharClass::Inside);
        proof {
            lemma_run_end_bounds(s, i + 1, CharClass::Inside);
        }
        let inner = tokens_from(s.subrange(i + 1, end), 0);
        quoted(
            s,
            region_next(s, i + 1),
            Seq::empty(),
            parts.push(StringPartView::String(text)).push(StringPartView::Formatted(inner)),
        )
    } else {
        quoted(s, i + 1, text.push(s[i]), parts)
    }
}

/// The tokens of `s` from position `i` on.
pub open spec fn tokens_from(s: Seq<char>, i: int) -> Seq<TokenView>
    decreases s.len(), s.len() - i,
{
    if i < 0 || i >= s.len() {
        Seq::empty()
    } else if is_space(s[i]) {
        tokens_from(s, i + 1)
    } else if is_letter(s[i]) {
        let end = run_end(s, i + 1, CharClass::Word);
        proof {
            lemma_run_end_bounds(s, i + 1, CharClass::Word);
        }
        seq![word(s.subrange(i, end))] + tokens_from(s, end)
    } else if is_digit(s[i]) {
        proof {
            lemma_number_advances(s, i, i);
        }
        number(s, i, i).0 + tokens_from(s, number(s, i, i).1)
    } else if s[i] == '-' && i + 1 < s.len() && is_digit(s[i + 1]) {
        proof {
            lemma_number_advances(s, i, i + 1);
        }
        number(s, i, i + 1).0 + tokens_from(s, number(s, i, i + 1).1)
    } else if s[i] == '#' && i + 1 < s.len() && in_class(CharClass::Alnum, s[i + 1]) {
        let end = run_end(s, i + 1, CharClass::Alnum);
        proof {
            lemma_run_end_bounds(s, i + 1, CharClass::Alnum);
        }
        seq![TokenView::Pound, TokenView::Ident(s.subrange(i + 1, end))] + tokens_from(s, end)
    } else if s[i] == '"' {
        proof {
            lemma_quoted_end_bounds(s, i + 1);
        }
        seq![quoted(s, i + 1, Seq::empty(), Seq::empty())] + tokens_from(s, quoted_end(s, i + 1))
    } else {
        seq![punctuation(s[i])] + tokens_from(s, i + 1)
    }
}

/// The tokens of a whole text.
pub open spec fn tokens_of(s: Seq<char>) -> Seq<TokenView> {
    tokens_from(s, 0)
}

pub proof fn lemma_number_advances(s: Seq<char>, start: int, first: int)
    requires
        0 <= start <= first < s.len(),
    ensures
        first <= number(s, start, first).1 <= s.len(),
        is_digit(s[first]) ==> first < number(s, start, first).1,
{
    lemma_run_end_bounds(s, first, CharClass::Digit);
    let whole_end = run_end(s, first, CharClass::Digit);
    if whole_end < s.len() {
        lemma_run_end_bounds(s, whole_end + 1, CharClass::Digit);
    }
}

pub proof fn lemma_quoted_end_bounds(s: Seq<char>, i: int)
    requires
        0 <= i <= s.len(),
    ensures
        i <= quoted_end(s, i) <= s.len(),
    decreases s.len() - i,
{
    if i >= s.len() {
    } else if s[i] == '"' {
    } else if s[i] == '\\' && i + 1 < s.len() && s[i + 1] == '"' {
        lemma_quoted_end_bounds(s, i + 2);
    } else if s[i] == '{' {
        lemma_run_end_bounds(s, i + 1, CharClass::Inside);
        lemma_quoted_end_bounds(s, region_next(s, i + 1));
    } else {
        lemma_quoted_end_bounds(s, i + 1);
    }
}

pub proof fn lemma_run_members(s: Seq<char>, i: int, class: CharClass, k: int)
    requires
        0 <= i <= k < run_end(s, i, class),
    ensures
        k < s.len(),
        in_class(class, s[k]),
    decreases s.len() - i,
{
    if i < s.len() && in_class(class, s[i]) {
        if i < k {
            lemma_run_members(s, i + 1, class, k);
        }
    }
}

pub proof fn lemma_token_views_push(tokens: Seq<Token>, token: Token)
    ensures
        token_views(tokens.push(token)) == token_views(tokens).push(token@),
{
    assert(token_views(tokens.push(token)) =~= token_views(tokens).push(token@));
}

pub proof fn lemma_part_views_push(parts: Seq<StringPart>, part: StringPart)
    ensures
        part_views(parts.push(part)) == part_views(parts).push(part@),
{
    assert(part_views(parts.push(part)) =~= part_views(parts).push(part@));
}

fn space(c: char) -> (r: bool)
    ensures
        r == is_space(c),
{
    c == ' ' || c == '\t' || c == '\n' || c == '\x0C' || c == '\r'
}

fn letter(c: char) -> (r: bool)
    ensures
        r == is_letter(c),
{
    ('a' <= c && c <= 'z') || ('A' <= c && c <= 'Z')
}

fn digit(c: char) -> (r: bool)
    ensures
        r == is_digit(c),
{
    '0' <= c && c <= '9'
}

fn class_holds(class: CharClass, c: char) -> (r: bool)
    ensures
        r == in_class(class, c),
{
    match class {
        CharClass::Digit => digit(c),
        CharClass::Alnum => letter(c) || digit(c),
        CharClass::Word => letter(c) || digit(c) || c == '-' || c == '_',
        CharClass::Inside => c != '{' && c != '}',
    }
}

fn scan(chars: &Vec<char>, from: usize, class: CharClass) -> (end: usize)
    requires
        from <= chars.len(),
    ensures
        end == run_end(chars@, from as int, class),
        from <= end <= chars.len(),
{
    let mut end: usize = from;
    while end < chars.len() && class_holds(class, chars[end])
        invariant
            from <= end <= chars.len(),
            run_end(chars@, end as int, class) == run_end(chars@, from as int, class),
        decreases chars.len() - end,
    {
        end += 1;
    }
    end
}

fn copy_range(chars: &Vec<char>, from: usize, to: usize) -> (r: Vec<char>)
    requires
        from <= to <= chars.len(),
    ensures
        r@ == chars@.subrange(from as int, to as int),
{
    let mut out: Vec<char> = Vec::new();
    let mut i: usize = from;
    while i < to
        invariant
            from <= i <= to <= chars.len(),
            out@ == chars@.subrange(from as int, i as int),
        decreases to - i,
    {
        out.push(chars[i]);
        i += 1;
        assert(out@ =~= chars@.subrange(from as int, i as int));
    }
    out
}

proof fn lemma_decimal_step(s: Seq<char>, from: int, i: int)
    requires
        0 <= from <= i < s.len(),
    ensures
        decimal(s.subrange(from, i + 1)) == decimal(s.subrange(from, i)) * 10 + (s[i] as int
            - '0' as int),
{
    assert(s.subrange(from, i + 1).drop_last() =~= s.subrange(from, i));
}

fn integer_value(chars: &Vec<char>, from: usize, to: usize, negative: bool) -> (r: i64)
    requires
        from <= to <= chars.len(),
        forall|k: int| from <= k < to ==> is_digit(#[trigger] chars@[k]),
    ensures
        r == integer_of(chars@.subrange(from as int, to as int), negative),
{
    let limit: i128 = 0x8000_0000_0000_0000i128;
    let mut acc: i128 = 0;
    let mut i: usize = from;
    while i < to
        invariant
            from <= i <= to <= chars.len(),
            limit == 0x8000_0000_0000_0000i128,
            forall|k: int| from <= k < to ==> is_digit(#[trigger] chars@[k]),
            0 <= acc <= limit,
            decimal(chars@.subrange(from as int, i as int)) >= 0,
            acc == if decimal(chars@.subrange(from as int, i as int)) >= limit {
                limit as int
            } else {
                decimal(chars@.subrange(from as int, i as int))
            },
        decreases to - i,
    {
        proof {
            lemma_decimal_step(chars@, from as int, i as int);
        }
        let d: i128 = (chars[i] as u32 - '0' as u32) as i128;
        let next: i128 = acc * 10 + d;
        acc = if next > limit {
            limit
        } else {
            next
        };
        i += 1;
    }
    if negative {
        if acc >= limit {
            i64::MIN
        } else {
            (-acc) as i64
        }
    } else {
        if acc >= limit {
            i64::MAX
        } else {
            acc as i64
        }
    }
}

fn word_token(chars: &Vec<char>, from: usize, to: usize) -> (r: Token)
    requires
        from <= to <= chars.len(),
    ensures
        r@ == word(chars@.subrange(from as int, to as int)),
{
    let ghost text = chars@.subrange(from as int, to as int);
    if to - from == 4 && chars[from] == 't' && chars[from + 1] == 'r' && chars[from + 2] == 'u'
        && chars[from + 3] == 'e' {
        assert(text =~= seq!['t', 'r', 'u', 'e']);
        Token::Boolean(true)
    } else if to - from == 5 && chars[from] == 'f' && chars[from + 1] == 'a' && chars[from + 2]
        == 'l' && chars[from + 3] == 's' && chars[from + 4] == 'e' {
        assert(text =~= seq!['f', 'a', 'l', 's', 'e']);
        assert(text[0] != 't');
        Token::Boolean(false)
    } else {
        proof {
            let yes = seq!['t', 'r', 'u', 'e'];
            let no = seq!['f', 'a', 'l', 's', 'e'];
            if text == yes {
                assert(text.len() == 4);
                assert(text[0] == yes[0] && text[1] == yes[1] && text[2] == yes[2] && text[3]
                    == yes[3]);
            }
            if text == no {
                assert(text.len() == 5);
                assert(text[0] == no[0] && text[1] == no[1] && text[2] == no[2] && text[3]
                    == no[3] && text[4] == no[4]);
            }
        }
        Token::Ident(string_of(chars, from, to))
    }
}

fn punctuation_token(c: char) -> (r: Token)
    ensures
        r@ == punctuation(c),
{
    if c == '[' {
        Token::BracketOpen
    } else if c == ']' {
        Token::BracketClose
    } else if c == '{' {
        Token::BraceOpen
    } else if c == '}' {
        Token::BraceClose
    } else if c == '(' {
        Token::ParenOpen
    } else if c == ')' {
        Token::ParenClose
    } else if c == ':' {
        Token::Colon
    } else if c == '+' {
        Token::Plus
    } else if c == '-' {
        Token::Minus
    } else if c == '*' {
        Token::Star
    } else if c == '/' {
        Token::Slash
    } else if c == '#' {
        Token::Pound
    } else if c == '%' {
        Token::Percent
    } else if c == '.' {
        Token::Dot
    } else if c == ',' {
        Token::Comma
    } else {
        Token::Unknown(c)
    }
}

fn lex_number(chars: &Vec<char>, start: usize, first: usize, tokens: &mut Vec<Token>) -> (next:
    usize)
    requires
        start <= first < chars.len(),
        is_digit(chars@[first as int]),
    ensures
        token_views(final(tokens)@) == token_views(old(tokens)@) + number(
            chars@,
            start as int,
            first as int,
        ).0,
        next == number(chars@, start as int, first as int).1,
        first < next <= chars.len(),
{
    let whole_end = scan(chars, first, CharClass::Digit);
    proof {
        lemma_number_advances(chars@, start as int, first as int);
        assert forall|k: int| first <= k < whole_end implies is_digit(#[trigger] chars@[k]) by {
            lemma_run_members(chars@, first as int, CharClass::Digit, k);
        }
    }
    let value = integer_value(chars, first, whole_end, start < first);
    let ghost before = tokens@;
    if whole_end < chars.len() && chars[whole_end] == '.' {
        let fraction_end = scan(chars, whole_end + 1, CharClass::Digit);
        if fraction_end == whole_end + 1 {
            tokens.push(Token::Integer(value));
            tokens.push(Token::Dot);
            proof {
                lemma_token_views_push(before, Token::Integer(value));
                lemma_token_views_push(before.push(Token::Integer(value)), Token::Dot);
                assert(token_views(tokens@) =~= token_views(before) + seq![
                    TokenView::Integer(value),
                    TokenView::Dot,
                ]);
            }
            whole_end + 1
        } else {
            let text = string_of(chars, start, fraction_end);
            tokens.push(Token::Float(text));
            proof {
                lemma_token_views_push(before, Token::Float(text));
                assert(token_views(tokens@) =~= token_views(before) + seq![
                    TokenView::Float(text@),
                ]);
            }
            fraction_end
        }
    } else {
        tokens.push(Token::Integer(value));
        proof {
            lemma_token_views_push(before, Token::Integer(value));
            assert(token_views(tokens@) =~= token_views(before) + seq![TokenView::Integer(value)]);
        }
        whole_end
    }
}

fn lex_string(chars: &Vec<char>, from: usize) -> (r: (Token, usize))
    requires
        from <= chars.len(),
    ensures
        r.0@ == quoted(chars@, from as int, Seq::empty(), Seq::empty()),
        r.1 == quoted_end(chars@, from as int),
        from <= r.1 <= chars.len(),
    decreases chars.len(), 0nat,
{
    let ghost s = chars@;
    let ghost goal = quoted(s, from as int, Seq::empty(), Seq::empty());
    let mut i: usize = from;
    let mut next: usize = from;
    let mut text = String::new();
    let mut parts: Vec<StringPart> = Vec::new();
    assert(part_views(parts@) =~= Seq::empty());
    loop
        invariant_except_break
            from <= i <= chars.len(),
            s == chars@,
            quoted(s, i as int, text@, part_views(parts@)) == goal,
            quoted_end(s, i as int) == quoted_end(s, from as int),
        ensures
            finish_string(text@, part_views(parts@)) == goal,
            next == quoted_end(s, from as int),
            from <= next <= chars.len(),
        decreases chars.len() - i,
    {
        if i >= chars.len() {
            next = i;
            break ;
        }
        let c = chars[i];
        if c == '"' {
            next = i + 1;
            break ;
        } else if c == '\\' && i + 1 < chars.len() && chars[i + 1] == '"' {
            text.push('"');
            i += 2;
        } else if c == '{' {
            let end = scan(chars, i + 1, CharClass::Inside);
            let region = copy_range(chars, i + 1, end);
            let inner = lex_chars(&region);
            let ghost before = parts@;
            let ghost gathered = text;
            proof {
                lemma_formatted_view(inner);
                lemma_part_views_push(before, StringPart::String(gathered));
                lemma_part_views_push(
                    before.push(StringPart::String(gathered)),
                    StringPart::Formatted(inner),
                );
            }
            parts.push(StringPart::String(text));
            parts.push(StringPart::Formatted(inner));
            text = String::new();
            i = if end < chars.len() && chars[end] == '}' {
                end + 1
            } else {
                end
            };
        } else {
            text.push(c);
            i += 1;
        }
    }
    if parts.len() == 0 {
        (Token::String(text), next)
    } else {
        proof {
            lemma_part_views_push(parts@, StringPart::String(text));
        }
        parts.push(StringPart::String(text));
        proof {
            lemma_formatted_string_view(parts);
        }
        (Token::FormattedString(parts), next)
    }
}

fn lex_chars(chars: &Vec<char>) -> (tokens: Vec<Token>)
    ensures
        token_views(tokens@) == tokens_of(chars@),
    decreases chars.len(), 1nat,
{
    let ghost s = chars@;
    let mut tokens: Vec<Token> = Vec::new();
    let mut i: usize = 0;
    assert(token_views(tokens@) + tokens_from(s, 0) =~= tokens_of(s));
    while i < chars.len()
        invariant
            i <= chars.len(),
            s == chars@,
            token_views(tokens@) + tokens_from(s, i as int) == tokens_of(s),
        decreases chars.len() - i,
    {
        let c = chars[i];
        let ghost before = tokens@;
        let ghost rest = tokens_from(s, i as int);
        if space(c) {
            i += 1;
        } else if letter(c) {
            let end = scan(chars, i + 1, CharClass::Word);
            let token = word_token(chars, i, end);
            proof {
                lemma_token_views_push(before, token);
                assert(token_views(before.push(token)) + tokens_from(s, end as int) =~= token_views(
                    before,
                ) + rest);
            }
            tokens.push(token);
            i = end;
        } else if digit(c) {
            let next = lex_number(chars, i, i, &mut tokens);
            proof {
                assert(token_views(tokens@) + tokens_from(s, next as int) =~= token_views(before)
                    + rest);
            }
            i = next;
        } else if c == '-' && i + 1 < chars.len() && digit(chars[i + 1]) {
            let next = lex_number(chars, i, i + 1, &mut tokens);
            proof {
                assert(token_views(tokens@) + tokens_from(s, next as int) =~= token_views(before)
                    + rest);
            }
            i = next;
        } else if c == '#' && i + 1 < chars.len() && class_holds(CharClass::Alnum, chars[i + 1]) {
            let end = scan(chars, i + 1, CharClass::Alnum);
            let name = string_of(chars, i + 1, end);
            proof {
                lemma_token_views_push(before, Token::Pound);
                lemma_token_views_push(before.push(Token::Pound), Token::Ident(name));
                assert(token_views(before.push(Token::Pound).push(Token::Ident(name)))
                    + tokens_from(s, end as int) =~= token_views(before) + rest);
            }
            tokens.push(Token::Pound);
            tokens.push(Token::Ident(name));
            i = end;
        } else if c == '"' {
            let (token, next) = lex_string(chars, i + 1);
            proof {
                lemma_token_views_push(before, token);
                assert(token_views(before.push(token)) + tokens_from(s, next as int) =~= token_views(
                    before,
                ) + rest);
            }
            tokens.push(token);
            i = next;
        } else {
            let token = punctuation_token(c);
            proof {
                lemma_token_views_push(before, token);
                assert(token_views(before.push(token)) + tokens_from(s, i + 1) =~= token_views(
                    before,
                ) + rest);
            }
            tokens.push(token);
            i += 1;
        }
    }
    assert(token_views(tokens@) + tokens_from(s, i as int) =~= token_views(tokens@));
    tokens
}

/// The characters of a text, in order.
pub fn chars_of(text: &str) -> (r: Vec<char>)
    ensures
        r@ == text@,
{
    let mut out: Vec<char> = Vec::new();
    for c in it: text.chars()
        invariant
            out@ == it.seq().take(it.index()),
            it.seq() == text@,
    {
        out.push(c);
    }
    out
}

/// The tokenizer.
pub struct Lexer;

impl Lexer {
    /// Tokenizes `data`. Every text has tokens: a character that starts no
    /// token passes through as [`Token::Unknown`], and a digit run too long
    /// for `i64` gives the nearest end of its range.
    pub fn parse(data: &str) -> (tokens: Vec<Token>)
        ensures
            token_views(tokens@) == tokens_of(data@),
    {
        let chars = chars_of(data);
        lex_chars(&chars)
    }
}

/// The whole pixels that a numeric literal with a fraction stands for: its
/// part before the `.`, so rounded towards zero.
pub open spec fn float_whole(text: Seq<char>) -> Px {
    let negative = text.len() > 0 && text[0] == '-';
    let first = if negative {
        1int
    } else {
        0int
    };
    integer_of(text.subrange(first, run_end(text, first, CharClass::Digit)), negative)
}

/// The text that `"unknown token "` is.
pub open spec fn unknown_prefix() -> Seq<char> {
    seq!['u', 'n', 'k', 'n', 'o', 'w', 'n', ' ', 't', 'o', 'k', 'e', 'n', ' ']
}

/// How a token is written in a diagnostic.
pub open spec fn token_text(token: TokenView) -> Seq<char>
    decreases token, 0int,
{
    match token {
        TokenView::Ident(text) => text,
        TokenView::String(text) => text,
        TokenView::Float(text) => text,
        TokenView::Integer(value) => decimal_text(value as int),
        TokenView::Boolean(value) => bool_text(value),
        TokenView::BracketOpen => seq!['['],
        TokenView::BracketClose => seq![']'],
        TokenView::BraceOpen => seq!['{'],
        TokenView::BraceClose => seq!['}'],
        TokenView::ParenOpen => seq!['('],
        TokenView::ParenClose => seq![')'],
        TokenView::Colon => seq![':'],
        TokenView::Minus => seq!['-'],
        TokenView::Plus => seq!['+'],
        TokenView::Slash => seq!['/'],
        TokenView::Star => seq!['*'],
        TokenView::Pound => seq!['#'],
        TokenView::Percent => seq!['%'],
        TokenView::Comma => seq![','],
        TokenView::Dot => seq!['.'],
        TokenView::Unknown(c) => unknown_prefix().push(c),
        TokenView::FormattedString(parts) => parts_text(parts, parts.len() as int),
    }
}

/// The first `n` parts of an interpolated string, written one behind the
/// other.
pub open spec fn parts_text(parts: Seq<StringPartView>, n: int) -> Seq<char>
    decreases parts, n,
{
    if n <= 0 || n > parts.len() {
        Seq::empty()
    } else {
        parts_text(parts, n - 1) + match parts[n - 1] {
            StringPartView::String(text) => text,
            StringPartView::Formatted(tokens) => tokens_text(tokens, tokens.len() as int),
        }
    }
}

/// The first `n` tokens, written one behind the other.
pub open spec fn tokens_text(tokens: Seq<TokenView>, n: int) -> Seq<char>
    decreases tokens, n,
{
    if n <= 0 || n > tokens.len() {
        Seq::empty()
    } else {
        tokens_text(tokens, n - 1) + token_text(tokens[n - 1])
    }
}

fn write_tokens(out: &mut String, tokens: &Vec<Token>)
    ensures
        final(out)@ == old(out)@ + tokens_text(token_views(tokens@), tokens.len() as int),
    decreases tokens, 1int,
{
    let ghost start = out@;
    let ghost views = token_views(tokens@);
    let mut i: usize = 0;
    assert(out@ =~= start + tokens_text(views, 0));
    while i < tokens.len()
        invariant
            i <= tokens.len(),
            views == token_views(tokens@),
            out@ == start + tokens_text(views, i as int),
        decreases tokens.len() - i,
    {
        let ghost before = out@;
        write_token(out, &tokens[i]);
        i += 1;
        assert(out@ =~= start + tokens_text(views, i as int));
    }
}

fn write_parts(out: &mut String, parts: &Vec<StringPart>)
    ensures
        final(out)@ == old(out)@ + parts_text(part_views(parts@), parts.len() as int),
    decreases parts, 1int,
{
    let ghost start = out@;
    let ghost views = part_views(parts@);
    let mut i: usize = 0;
    assert(out@ =~= start + parts_text(views, 0));
    while i < parts.len()
        invariant
            i <= parts.len(),
            views == part_views(parts@),
            out@ == start + parts_text(views, i as int),
        decreases parts.len() - i,
    {
        match &parts[i] {
            StringPart::String(text) => {
                push_text(out, text.as_str());
            },
            StringPart::Formatted(tokens) => {
                proof {
                    lemma_formatted_view(*tokens);
                }
                write_tokens(out, tokens);
            },
        }
        i += 1;
        assert(out@ =~= start + parts_text(views, i as int));
    }
}

fn write_token(out: &mut String, token: &Token)
    ensures
        final(out)@ == old(out)@ + token_text(token@),
    decreases token, 0int,
{
    let ghost start = out@;
    match token {
        Token::Ident(text) => push_text(out, text.as_str()),
        Token::String(text) => push_text(out, text.as_str()),
        Token::Float(text) => push_text(out, text.as_str()),
        Token::Integer(value) => push_decimal(out, *value),
        Token::Boolean(value) => push_bool(out, *value),
        Token::FormattedString(parts) => {
            proof {
                lemma_formatted_string_view(*parts);
            }
            write_parts(out, parts);
        },
        Token::Unknown(c) => {
            push_text(out, "unknown token ");
            proof {
                reveal_strlit("unknown token ");
                assert("unknown token "@ =~= unknown_prefix());
            }
            out.push(*c);
            assert(out@ =~= start + unknown_prefix().push(*c));
        },
        _ => {
            let c = match token {
                Token::BracketOpen => '[',
                Token::BracketClose => ']',
                Token::BraceOpen => '{',
                Token::BraceClose => '}',
                Token::ParenOpen => '(',
                Token::ParenClose => ')',
                Token::Colon => ':',
                Token::Minus => '-',
                Token::Plus => '+',
                Token::Slash => '/',
                Token::Star => '*',
                Token::Pound => '#',
                Token::Percent => '%',
                Token::Comma => ',',
                _ => '.',
            };
            out.push(c);
            assert(out@ =~= start + seq![c]);
        },
    }
}

fn same_tokens(a: &Vec<Token>, b: &Vec<Token>) -> (r: bool)
    ensures
        r == (token_views(a@) == token_views(b@)),
    decreases a, 1int,
{
    if a.len() != b.len() {
        assert(token_views(a@).len() != token_views(b@).len());
        return false;
    }
    let mut i: usize = 0;
    while i < a.len()
        invariant
            i <= a.len(),
            a.len() == b.len(),
            forall|k: int| 0 <= k < i ==> (#[trigger] a@[k])@ == b@[k]@,
        decreases a.len() - i,
    {
        if !a[i].same(&b[i]) {
            assert(token_views(a@)[i as int] != token_views(b@)[i as int]);
            return false;
        }
        i += 1;
    }
    assert(token_views(a@) =~= token_views(b@));
    true
}

fn same_parts(a: &Vec<StringPart>, b: &Vec<StringPart>) -> (r: bool)
    ensures
        r == (part_views(a@) == part_views(b@)),
    decreases a, 1int,
{
    if a.len() != b.len() {
        assert(part_views(a@).len() != part_views(b@).len());
        return false;
    }
    let mut i: usize = 0;
    while i < a.len()
        invariant
            i <= a.len(),
            a.len() == b.len(),
            forall|k: int| 0 <= k < i ==> (#[trigger] a@[k])@ == b@[k]@,
        decreases a.len() - i,
    {
        let equal = match (&a[i], &b[i]) {
            (StringPart::String(x), StringPart::String(y)) => *x == *y,
            (StringPart::Formatted(x), StringPart::Formatted(y)) => {
                proof {
                    lemma_formatted_view(*x);
                    lemma_formatted_view(*y);
                }
                same_tokens(x, y)
            },
            _ => false,
        };
        if !equal {
            assert(part_views(a@)[i as int] != part_views(b@)[i as int]);
            return false;
        }
        i += 1;
    }
    assert(part_views(a@) =~= part_views(b@));
    true
}

/// A copy of the tokens.
pub fn copy_tokens(tokens: &Vec<Token>) -> (r: Vec<Token>)
    ensures
        token_views(r@) == token_views(tokens@),
    decreases tokens, 1int,
{
    let mut out: Vec<Token> = Vec::new();
    let mut i: usize = 0;
    while i < tokens.len()
        invariant
            i <= tokens.len(),
            out.len() == i,
            forall|k: int| 0 <= k < i ==> (#[trigger] out@[k])@ == tokens@[k]@,
        decreases tokens.len() - i,
    {
        out.push(tokens[i].duplicate());
        i += 1;
    }
    assert(token_views(out@) =~= token_views(tokens@));
    out
}

/// A copy of the parts.
pub fn copy_parts(parts: &Vec<StringPart>) -> (r: Vec<StringPart>)
    ensures
        part_views(r@) == part_views(parts@),
    decreases parts, 1int,
{
    let mut out: Vec<StringPart> = Vec::new();
    let mut i: usize = 0;
    while i < parts.len()
        invariant
            i <= parts.len(),
            out.len() == i,
            forall|k: int| 0 <= k < i ==> (#[trigger] out@[k])@ == parts@[k]@,
        decreases parts.len() - i,
    {
        let part = match &parts[i] {
            StringPart::String(text) => StringPart::String(text.clone()),
            StringPart::Formatted(tokens) => {
                let inner = copy_tokens(tokens);
                proof {
                    lemma_formatted_view(*tokens);
                    lemma_formatted_view(inner);
                }
                StringPart::Formatted(inner)
            },
        };
        out.push(part);
        i += 1;
    }
    assert(part_views(out@) =~= part_views(parts@));
    out
}

impl StringPart {
    /// A copy with the same value.
    pub fn duplicate(&self) -> (r: Self)
        ensures
            r@ == self@,
    {
        match self {
            StringPart::String(text) => StringPart::String(text.clone()),
            StringPart::Formatted(tokens) => {
                let inner = copy_tokens(tokens);
                proof {
                    lemma_formatted_view(*tokens);
                    lemma_formatted_view(inner);
                }
                StringPart::Formatted(inner)
            },
        }
    }

    /// Whether the two parts have the same value.
    pub fn same(&self, other: &Self) -> (r: bool)
        ensures
            r == (self@ == other@),
    {
        match (self, other) {
            (StringPart::String(x), StringPart::String(y)) => *x == *y,
            (StringPart::Formatted(x), StringPart::Formatted(y)) => {
                proof {
                    lemma_formatted_view(*x);
                    lemma_formatted_view(*y);
                }
                same_tokens(x, y)
            },
            _ => false,
        }
    }
}

impl Clone for StringPart {
    fn clone(&self) -> (r: Self)
        ensures
            r@ == self@,
    {
        self.duplicate()
    }
}

impl PartialEq for StringPart {
    fn eq(&self, other: &Self) -> (r: bool) {
        self.same(other)
    }
}

impl PartialEqSpecImpl for StringPart {
    open spec fn obeys_eq_spec() -> bool {
        true
    }

    open spec fn eq_spec(&self, other: &Self) -> bool {
        self@ == other@
    }
}

impl Token {
    /// An identifier token.
    pub fn ident(value: &str) -> (r: Self)
        ensures
            r@ == TokenView::Ident(value@),
    {
        Token::Ident(value.to_owned())
    }

    /// A copy with the same value.
    pub fn duplicate(&self) -> (r: Self)
        ensures
            r@ == self@,
        decreases self, 0int,
    {
        match self {
            Token::Ident(text) => Token::Ident(text.clone()),
            Token::FormattedString(parts) => {
                let inner = copy_parts(parts);
                proof {
                    lemma_formatted_string_view(*parts);
                    lemma_formatted_string_view(inner);
                }
                Token::FormattedString(inner)
            },
            Token::String(text) => Token::String(text.clone()),
            Token::Float(text) => Token::Float(text.clone()),
            Token::Integer(value) => Token::Integer(*value),
            Token::Boolean(value) => Token::Boolean(*value),
            Token::BracketOpen => Token::BracketOpen,
            Token::BracketClose => Token::BracketClose,
            Token::BraceOpen => Token::BraceOpen,
            Token::BraceClose => Token::BraceClose,
            Token::ParenOpen => Token::ParenOpen,
            Token::ParenClose => Token::ParenClose,
            Token::Colon => Token::Colon,
            Token::Minus => Token::Minus,
            Token::Plus => Token::Plus,
            Token::Slash => Token::Slash,
            Token::Star => Token::Star,
            Token::Pound => Token::Pound,
            Token::Percent => Token::Percent,
            Token::Comma => Token::Comma,
            Token::Dot => Token::Dot,
            Token::Unknown(c) => Token::Unknown(*c),
        }
    }

    /// Whether the two tokens have the same value.
    pub fn same(&self, other: &Self) -> (r: bool)
        ensures
            r == (self@ == other@),
        decreases self, 0int,
    {
        match (self, other) {
            (Token::Ident(x), Token::Ident(y)) => *x == *y,
            (Token::FormattedString(x), Token::FormattedString(y)) => {
                proof {
                    lemma_formatted_string_view(*x);
                    lemma_formatted_string_view(*y);
                }
                same_parts(x, y)
            },
            (Token::String(x), Token::String(y)) => *x == *y,
            (Token::Float(x), Token::Float(y)) => *x == *y,
            (Token::Integer(x), Token::Integer(y)) => *x == *y,
            (Token::Boolean(x), Token::Boolean(y)) => *x == *y,
            (Token::BracketOpen, Token::BracketOpen) => true,
            (Token::BracketClose, Token::BracketClose) => true,
            (Token::BraceOpen, Token::BraceOpen) => true,
            (Token::BraceClose, Token::BraceClose) => true,
            (Token::ParenOpen, Token::ParenOpen) => true,
            (Token::ParenClose, Token::ParenClose) => true,
            (Token::Colon, Token::Colon) => true,
            (Token::Minus, Token::Minus) => true,
            (Token::Plus, Token::Plus) => true,
            (Token::Slash, Token::Slash) => true,
            (Token::Star, Token::Star) => true,
            (Token::Pound, Token::Pound) => true,
            (Token::Percent, Token::Percent) => true,
            (Token::Comma, Token::Comma) => true,
            (Token::Dot, Token::Dot) => true,
            (Token::Unknown(x), Token::Unknown(y)) => *x == *y,
            _ => false,
        }
    }

    /// The token as a diagnostic writes it.
    pub fn to_string(&self) -> (r: String)
        ensures
            r@ == token_text(self@),
    {
        let mut out = String::new();
        write_token(&mut out, self);
        assert(out@ =~= token_text(self@));
        out
    }

    #[must_use]
    pub fn is_ident(&self) -> (r: bool)
        ensures
            r == (self@ is Ident),
    {
        matches!(self, Token::Ident(_))
    }

    /// Whether the token is a number with a fraction.
    #[must_use]
    pub fn is_f32(&self) -> (r: bool)
        ensures
            r == (self@ is Float),
    {
        matches!(self, Token::Float(_))
    }

    #[must_use]
    pub fn is_i64(&self) -> (r: bool)
        ensures
            r == (self@ is Integer),
    {
        matches!(self, Token::Integer(_))
    }

    /// Whether the token is a number of either kind.
    #[must_use]
    pub fn is_i64_or_f32(&self) -> (r: bool)
        ensures
            r == (self@ is Integer || self@ is Float),
    {
        matches!(self, Token::Integer(_) | Token::Float(_))
    }

    /// Returns `true` if the token is [`String`].
    ///
    /// [`String`]: Token::String
    #[must_use]
    pub fn is_string(&self) -> (r: bool)
        ensures
            r == (self@ is String),
    {
        matches!(self, Token::String(_))
    }

    /// Returns `true` if the token is [`Boolean`].
    ///
    /// [`Boolean`]: Token::Boolean
    #[must_use]
    pub fn is_bool(&self) -> (r: bool)
        ensures
            r == (self@ is Boolean),
    {
        matches!(self, Token::Boolean(_))
    }

    /// Returns `true` if the token is [`FormattedString`].
    ///
    /// [`FormattedString`]: Token::FormattedString
    #[must_use]
    pub fn is_formatted_string(&self) -> (r: bool)
        ensures
            r == (self@ is FormattedString),
    {
        matches!(self, Token::FormattedString(_))
    }

    #[must_use]
    pub fn into_string(self) -> (r: String)
        requires
            self@ is String,
        ensures
            r@ == self@->String_0,
    {
        match self {
            Token::String(value) => value,
            _ => String::new(),
        }
    }

    #[must_use]
    pub fn into_ident(self) -> (r: String)
        requires
            self@ is Ident,
        ensures
            r@ == self@->Ident_0,
    {
        match self {
            Token::Ident(value) => value,
            _ => String::new(),
        }
    }

    /// The whole pixels of a numeric token of either kind.
    #[must_use]
    pub fn into_f32(self) -> (r: Px)
        requires
            self@ is Integer || self@ is Float,
        ensures
            r == numeric_value(self@)->0,
    {
        match self.try_as_f32() {
            Some(value) => value,
            None => 0,
        }
    }

    #[must_use]
    pub fn into_i64(self) -> (r: i64)
        requires
            self@ is Integer,
        ensures
            r == self@->Integer_0,
    {
        match self {
            Token::Integer(value) => value,
            _ => 0,
        }
    }

    #[must_use]
    pub fn into_bool(self) -> (r: bool)
        requires
            self@ is Boolean,
        ensures
            r == self@->Boolean_0,
    {
        match self {
            Token::Boolean(value) => value,
            _ => false,
        }
    }

    #[must_use]
    pub fn into_formatted_string(self) -> (r: Vec<StringPart>)
        requires
            self@ is FormattedString,
        ensures
            part_views(r@) == self@->FormattedString_0,
    {
        match self {
            Token::FormattedString(parts) => {
                proof {
                    lemma_formatted_string_view(parts);
                }
                parts
            },
            _ => Vec::new(),
        }
    }

    #[must_use]
    pub fn as_str(&self) -> (r: &str)
        requires
            self@ is String,
        ensures
            r@ == self@->String_0,
    {
        match self {
            Token::String(value) => value.as_str(),
            _ => "",
        }
    }

    #[must_use]
    pub fn try_as_bool(&self) -> (r: Option<bool>)
        ensures
            r == match self@ {
                TokenView::Boolean(value) => Some(value),
                _ => None,
            },
    {
        match self {
            Token::Boolean(value) => Some(*value),
            _ => None,
        }
    }

    #[must_use]
    pub fn try_as_str(&self) -> (r: Option<&str>)
        ensures
            self@ is String <==> r is Some,
            r matches Some(text) ==> text@ == self@->String_0,
    {
        match self {
            Token::String(value) => Some(value.as_str()),
            _ => None,
        }
    }

    #[must_use]
    pub fn try_as_ident(&self) -> (r: Option<&str>)
        ensures
            self@ is Ident <==> r is Some,
            r matches Some(text) ==> text@ == self@->Ident_0,
    {
        match self {
            Token::Ident(value) => Some(value.as_str()),
            _ => None,
        }
    }

    /// The whole pixels of a numeric token of either kind, and nothing of
    /// another token.
    #[must_use]
    pub fn try_as_f32(&self) -> (r: Option<Px>)
        ensures
            r == numeric_value(self@),
    {
        match self {
            Token::Float(text) => {
                let chars = chars_of(text.as_str());
                let negative = chars.len() > 0 && chars[0] == '-';
                let first: usize = if negative {
                    1
                } else {
                    0
                };
                let end = scan(&chars, first, CharClass::Digit);
                proof {
                    assert forall|k: int| first <= k < end implies is_digit(
                        #[trigger] chars@[k],
                    ) by {
                        lemma_run_members(chars@, first as int, CharClass::Digit, k);
                    }
                }
                Some(integer_value(&chars, first, end, negative))
            },
            Token::Integer(value) => Some(*value),
            _ => None,
        }
    }

    #[must_use]
    pub fn try_as_i64(&self) -> (r: Option<i64>)
        ensures
            r == match self@ {
                TokenView::Integer(value) => Some(value),
                _ => None,
            },
    {
        match self {
            Token::Integer(value) => Some(*value),
            _ => None,
        }
    }

    /// The value of an integer token that fits in eight bits.
    #[must_use]
    pub fn try_as_u8(&self) -> (r: Option<u8>)
        ensures
            r == match self@ {
                TokenView::Integer(value) if 0 <= value <= 255 => Some(value as u8),
                _ => None,
            },
    {
        match self {
            Token::Integer(value) => {
                if 0 <= *value && *value <= 255 {
                    Some(*value as u8)
                } else {
                    None
                }
            },
            _ => None,
        }
    }
}

/// The whole pixels of a numeric token, and nothing of another token.
pub open spec fn numeric_value(token: TokenView) -> Option<Px> {
    match token {
        TokenView::Float(text) => Some(float_whole(text)),
        TokenView::Integer(value) => Some(value),
        _ => None,
    }
}

impl Clone for Token {
    fn clone(&self) -> (r: Self)
        ensures
            r@ == self@,
    {
        self.duplicate()
    }
}

impl PartialEq for Token {
    fn eq(&self, other: &Self) -> (r: bool) {
        self.same(other)
    }
}

impl PartialEqSpecImpl for Token {
    open spec fn obeys_eq_spec() -> bool {
        true
    }

    open spec fn eq_spec(&self, other: &Self) -> bool {
        self@ == other@
    }
}

} // verus!
