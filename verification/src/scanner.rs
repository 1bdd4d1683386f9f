//! The scanner: a cursor over the source text, the tokenizer that reads one
//! lexeme at a time, and the driver that collects the tokens.
use crate::convert::MaybeFrom;
use crate::number::{number_read, read_ready, reads, NumberReader};
use crate::token::{
    characters, classify, is_alpha_char, is_digit_char, keyword_of, push_char, text_of,
    DelimiterType, KeywordType, LiteralType, LiteralValue, LiteralView, NullableLiteral,
    StringValue, Token, TokenCharacter, TokenType, TokenView,
};
use vstd::prelude::*;
use vstd::string::*;

verus! {

pub fn add(left: u64, right: u64) -> (r: u64)
    requires
        left + right <= u64::MAX,
    ensures
        r == left + right,
{
    left + right
}

/// Where a scanner stands: the first character of the current lexeme, the
/// next character to read, and the current line. A scan starts on line 1.
#[derive(Debug)]
pub struct Indices {
    pub start: usize,
    pub current: usize,
    pub line: usize,
}

impl Default for Indices {
    fn default() -> (r: Indices)
        ensures
            r.start == 0,
            r.current == 0,
            r.line == 0,
    {
        Indices { start: 0, current: 0, line: 0 }
    }
}

/// What went wrong with a lexeme.
#[derive(Clone, Copy, Debug, PartialEq, Eq, Structural)]
pub enum LexicalError {
    /// The input ended inside a string literal.
    UnterminatedString,
    /// No lexeme begins with this character.
    UnexpectedCharacter(char),
}

/// A lexical error and the line on which it was found. The scan goes on
/// after each of them.
#[derive(Clone, Copy, Debug, PartialEq, Eq, Structural)]
pub struct Diagnostic {
    pub line: usize,
    pub error: LexicalError,
}

/// The decimal digit of a number below ten.
pub open spec fn digit_char(d: nat) -> char {
    if d == 0 {
        '0'
    } else if d == 1 {
        '1'
    } else if d == 2 {
        '2'
    } else if d == 3 {
        '3'
    } else if d == 4 {
        '4'
    } else if d == 5 {
        '5'
    } else if d == 6 {
        '6'
    } else if d == 7 {
        '7'
    } else if d == 8 {
        '8'
    } else {
        '9'
    }
}

/// A number in decimal digits, without leading zeros.
pub open spec fn decimal(n: nat) -> Seq<char>
    decreases n,
{
    if n < 10 {
        seq![digit_char(n)]
    } else {
        decimal(n / 10).push(digit_char(n % 10))
    }
}

fn digit_of(d: usize) -> (r: char)
    requires
        d < 10,
    ensures
        r == digit_char(d as nat),
{
    if d == 0 {
        '0'
    } else if d == 1 {
        '1'
    } else if d == 2 {
        '2'
    } else if d == 3 {
        '3'
    } else if d == 4 {
        '4'
    } else if d == 5 {
        '5'
    } else if d == 6 {
        '6'
    } else if d == 7 {
        '7'
    } else if d == 8 {
        '8'
    } else {
        '9'
    }
}

/// Writes a number in decimal digits.
pub fn decimal_text(n: usize) -> (r: String)
    ensures
        r@ == decimal(n as nat),
    decreases n,
{
    if n < 10 {
        let mut text = String::new();
        push_char(&mut text, digit_of(n));
        assert(text@ =~= seq![digit_char(n as nat)]);
        text
    } else {
        let mut text = decimal_text(n / 10);
        push_char(&mut text, digit_of(n % 10));
        text
    }
}

impl LexicalError {
    /// What the error says.
    pub open spec fn message(self) -> Seq<char> {
        match self {
            LexicalError::UnterminatedString => "Unterminated string"@,
            LexicalError::UnexpectedCharacter(c) => "Unexpected character: "@.push(c),
        }
    }

    pub fn to_string(&self) -> (r: String)
        ensures
            r@ == self.message(),
    {
        match self {
            LexicalError::UnterminatedString => "Unterminated string".to_owned(),
            LexicalError::UnexpectedCharacter(c) => {
                let mut text = "Unexpected character: ".to_owned();
                push_char(&mut text, *c);
                text
            },
        }
    }
}

impl Diagnostic {
    /// The diagnostic on one line: the line number, a blank, the message.
    pub open spec fn shown(self) -> Seq<char> {
        decimal(self.line as nat) + " "@ + self.error.message()
    }

    pub fn to_string(&self) -> (r: String)
        ensures
            r@ == self.shown(),
    {
        let mut text = decimal_text(self.line);
        let message = self.error.to_string();
        text.append(" ");
        text.append(message.as_str());
        text
    }
}

pub fn is_digit(c: &char) -> (r: bool)
    ensures
        r == is_digit_char(*c),
{
    '0' <= *c && *c <= '9'
}

pub fn is_alpha(c: &char) -> (r: bool)
    ensures
        r == is_alpha_char(*c),
{
    ('a' <= *c && *c <= 'z') || ('A' <= *c && *c <= 'Z') || *c == '_'
}

pub fn is_alpha_numeric(c: &char) -> (r: bool)
    ensures
        r == (is_digit_char(*c) || is_alpha_char(*c)),
{
    is_digit(c) || is_alpha(c)
}

/// The keyword that `s` spells, or `s` itself where it spells none.
pub fn evaluate_keyword(s: &str) -> (r: Result<KeywordType, String>)
    ensures
        match keyword_of(s@) {
            Some(keyword) => r == Ok::<KeywordType, String>(keyword),
            None => r is Err && r->Err_0@ == s@,
        },
{
    match KeywordType::maybe_from(s) {
        Some(keyword) => Ok(keyword),
        None => Err(s.to_owned()),
    }
}

/// The membership test of a run of digits.
pub open spec fn digit() -> spec_fn(char) -> bool {
    |c: char| is_digit_char(c)
}

/// The membership test of the body of a word.
pub open spec fn word() -> spec_fn(char) -> bool {
    |c: char| is_digit_char(c) || is_alpha_char(c)
}

/// The membership test of a run that the given character ends.
pub open spec fn until(stop: char) -> spec_fn(char) -> bool {
    |c: char| c != stop
}

/// The end of the longest run of members that begins at `from`: the first
/// position at or after `from` that holds no member, or the end of `chars`.
pub open spec fn run_end(chars: Seq<char>, from: int, member: spec_fn(char) -> bool) -> int
    decreases chars.len() - from,
{
    if 0 <= from < chars.len() && member(chars[from]) {
        run_end(chars, from + 1, member)
    } else {
        from
    }
}

/// The number of newlines in `chars` from `from` up to, not including, `to`.
pub open spec fn newlines(chars: Seq<char>, from: int, to: int) -> int
    decreases to - from,
{
    if from >= to {
        0
    } else {
        newlines(chars, from, to - 1) + if chars[to - 1] == '\n' {
            1int
        } else {
            0int
        }
    }
}

pub open spec fn char_at(chars: Seq<char>, at: int, c: char) -> bool {
    0 <= at < chars.len() && chars[at] == c
}

/// Where a number ends whose digits are being read at `from`: after the run
/// of digits, and after one `.` with the digits behind it where a digit
/// follows the `.`.
pub open spec fn number_end(chars: Seq<char>, from: int) -> int {
    let whole = run_end(chars, from, digit());
    if char_at(chars, whole, '.') && whole + 1 < chars.len() && is_digit_char(chars[whole + 1]) {
        run_end(chars, whole + 1, digit())
    } else {
        whole
    }
}

/// The kind of a word: that of the keyword it spells, else an identifier.
pub open spec fn word_kind(text: Seq<char>) -> TokenType {
    match keyword_of(text) {
        Some(keyword) => TokenType::Keyword(keyword),
        None => TokenType::Identifier,
    }
}

/// What reading one lexeme comes to.
pub enum Outcome {
    /// Blank space or a comment: no token.
    Nothing,
    /// A token of this kind.
    Lexeme(TokenType),
    /// A diagnostic, and no token.
    Failure(LexicalError),
}

/// The result of one scanning step: where the cursor stands after it, the
/// line it has reached, and what was read.
pub struct Step {
    pub next: int,
    pub line: int,
    pub outcome: Outcome,
}

/// One scanning step on `chars`, for a lexeme that begins at `start`, with
/// the cursor at `at` (a valid position) on line `line`.
pub open spec fn scan_step(chars: Seq<char>, start: int, at: int, line: int) -> Step {
    let after = at + 1;
    match classify(chars[at]) {
        None => Step {
            next: after,
            line,
            outcome: Outcome::Failure(LexicalError::UnexpectedCharacter(chars[at])),
        },
        Some(TokenCharacter::Type(kind)) => Step {
            next: after,
            line,
            outcome: Outcome::Lexeme(kind),
        },
        Some(TokenCharacter::Comparator(comparator)) => if char_at(chars, after, '=') {
            Step {
                next: after + 1,
                line,
                outcome: Outcome::Lexeme(TokenType::Comparator { kind: comparator, equal: true }),
            }
        } else {
            Step {
                next: after,
                line,
                outcome: Outcome::Lexeme(TokenType::Comparator { kind: comparator, equal: false }),
            }
        },
        Some(TokenCharacter::Delimiter(DelimiterType::Comment)) => if char_at(chars, after, '/') {
            Step { next: run_end(chars, after + 1, until('\n')), line, outcome: Outcome::Nothing }
        } else {
            Step { next: after, line, outcome: Outcome::Lexeme(TokenType::Slash) }
        },
        Some(TokenCharacter::Delimiter(DelimiterType::Literal(LiteralType::String))) => {
            let close = run_end(chars, after, until('"'));
            if close >= chars.len() {
                Step {
                    next: close,
                    line: line + newlines(chars, after, close),
                    outcome: Outcome::Failure(LexicalError::UnterminatedString),
                }
            } else {
                Step {
                    next: close + 1,
                    line: line + newlines(chars, after, close),
                    outcome: Outcome::Lexeme(TokenType::String),
                }
            }
        },
        Some(TokenCharacter::Delimiter(DelimiterType::Literal(LiteralType::Number))) => Step {
            next: number_end(chars, after),
            line,
            outcome: Outcome::Lexeme(TokenType::Number),
        },
        Some(TokenCharacter::Delimiter(DelimiterType::Literal(LiteralType::Identifier))) => {
            let end = run_end(chars, after, word());
            Step {
                next: end,
                line,
                outcome: Outcome::Lexeme(word_kind(chars.subrange(start, end))),
            }
        },
        Some(TokenCharacter::Newline) => Step {
            next: after,
            line: line + 1,
            outcome: Outcome::Nothing,
        },
        Some(_) => Step { next: after, line, outcome: Outcome::Nothing },
    }
}

/// A run ends at or after its start and within the text.
pub proof fn lemma_run_end_bounds(chars: Seq<char>, from: int, member: spec_fn(char) -> bool)
    requires
        0 <= from <= chars.len(),
    ensures
        from <= run_end(chars, from, member) <= chars.len(),
        forall|i: int| from <= i < run_end(chars, from, member) ==> member(#[trigger] chars[i]),
        run_end(chars, from, member) < chars.len() ==> !member(chars[run_end(chars, from, member)]),
    decreases chars.len() - from,
{
    if from < chars.len() && member(chars[from]) {
        lemma_run_end_bounds(chars, from + 1, member);
    }
}

/// The newlines of a span are at least none and at most its length.
pub proof fn lemma_newlines_bounds(chars: Seq<char>, from: int, to: int)
    requires
        from <= to,
    ensures
        0 <= newlines(chars, from, to) <= to - from,
    decreases to - from,
{
    if from < to {
        lemma_newlines_bounds(chars, from, to - 1);
    }
}

/// Every scanning step consumes at least one character, stays within the
/// text, and raises the line by no more than it consumed.
pub proof fn lemma_step_advances(chars: Seq<char>, start: int, at: int, line: int)
    requires
        0 <= at < chars.len(),
    ensures
        at < scan_step(chars, start, at, line).next <= chars.len(),
        line <= scan_step(chars, start, at, line).line <= line + (scan_step(
            chars,
            start,
            at,
            line,
        ).next - at),
{
    let after = at + 1;
    lemma_run_end_bounds(chars, after, until('"'));
    lemma_run_end_bounds(chars, after, digit());
    lemma_run_end_bounds(chars, after, word());
    if after < chars.len() {
        lemma_run_end_bounds(chars, after + 1, until('\n'));
    }
    let whole = run_end(chars, after, digit());
    if whole < chars.len() {
        lemma_run_end_bounds(chars, whole + 1, digit());
    }
    lemma_newlines_bounds(chars, after, run_end(chars, after, until('"')));
}

/// The payload of a token of kind `kind` with the lexeme `text`: an
/// identifier carries its name, a string the text between its quotes, a
/// number what `reader` makes of its lexeme (nothing where it makes none),
/// and every other kind carries nothing.
pub open spec fn payload(kind: TokenType, text: Seq<char>, reader: NumberReader) -> Option<
    LiteralView,
> {
    match kind {
        TokenType::Identifier => Some(LiteralView::Identifier(text)),
        TokenType::String => Some(LiteralView::String(text.subrange(1, text.len() - 1))),
        TokenType::Number => match reader(text) {
            Some(bits) => Some(LiteralView::Number(bits)),
            None => None,
        },
        _ => None,
    }
}

/// The token of kind `kind` with the lexeme `text` that ends on line `line`.
pub open spec fn token_of(
    kind: TokenType,
    text: Seq<char>,
    line: int,
    reader: NumberReader,
) -> TokenView {
    TokenView { kind, lexeme: text, literal: payload(kind, text, reader), line: line as usize }
}

/// The source text with the cursor that moves over it.
pub struct TokenSource {
    pub source: String,
    pub chars: Vec<char>,
    pub indices: Indices,
}

impl TokenSource {
    /// The characters are those of the text, the cursor stands within them
    /// behind the start of the lexeme, and the line has not outrun it.
    pub open spec fn wf(&self) -> bool {
        &&& self.chars@ == self.source@
        &&& self.chars.len() < usize::MAX
        &&& self.indices.start <= self.indices.current <= self.chars.len()
        &&& self.indices.line <= self.indices.current + 1
    }

    /// Whether `other` is this source with the cursor moved.
    pub open spec fn same_text(&self, other: &TokenSource) -> bool {
        &&& self.source == other.source
        &&& self.chars == other.chars
        &&& self.indices.start == other.indices.start
    }

    /// A cursor at the start of `source`, on line 1.
    pub fn new(source: &str) -> (r: TokenSource)
        requires
            source@.len() < usize::MAX,
        ensures
            r.wf(),
            r.source@ == source@,
            r.indices.start == 0,
            r.indices.current == 0,
            r.indices.line == 1,
    {
        let chars = characters(source);
        TokenSource {
            source: source.to_owned(),
            chars,
            indices: Indices { start: 0, current: 0, line: 1 },
        }
    }

    /// The token of the current lexeme.
    fn make_token(&self, kind: TokenType, literal: Option<LiteralValue>) -> (r: Token)
        requires
            self.wf(),
        ensures
            r.kind == kind,
            r.lexeme@ == self.chars@.subrange(
                self.indices.start as int,
                self.indices.current as int,
            ),
            r.literal.0 == literal,
            r.line == self.indices.line,
    {
        let lexeme = text_of(&self.chars, self.indices.start, self.indices.current);
        Token { kind, lexeme, literal: NullableLiteral(literal), line: self.indices.line }
    }

    /// Hands out the character under the cursor and moves the cursor on;
    /// `None` at the end, where the cursor moves on all the same.
    pub fn advance(&mut self) -> (r: Option<char>)
        requires
            old(self).indices.current < usize::MAX,
        ensures
            old(self).same_text(final(self)),
            final(self).indices.line == old(self).indices.line,
            final(self).indices.current == old(self).indices.current + 1,
            r == if old(self).indices.current < old(self).chars.len() {
                Some(old(self).chars[old(self).indices.current as int])
            } else {
                None
            },
    {
        let at = self.indices.current;
        self.indices.current = at + 1;
        if at < self.chars.len() {
            Some(self.chars[at])
        } else {
            None
        }
    }

    pub fn is_at_end(&self) -> (r: bool)
        ensures
            r == (self.indices.current >= self.chars.len()),
    {
        self.indices.current >= self.chars.len()
    }

    /// Consumes the character under the cursor if it is `expected`.
    pub fn matches(&mut self, expected: char) -> (r: bool)
        ensures
            r == char_at(old(self).chars@, old(self).indices.current as int, expected),
            old(self).same_text(final(self)),
            final(self).indices.line == old(self).indices.line,
            final(self).indices.current == if r {
                old(self).indices.current + 1
            } else {
                old(self).indices.current as int
            },
    {
        if self.is_at_end() {
            return false;
        }
        let index = self.indices.current;
        if self.chars[index] == expected {
            self.indices.current = index + 1;
            true
        } else {
            false
        }
    }

    /// The character under the cursor, or NUL at the end.
    pub fn peek(&self) -> (r: Option<char>)
        ensures
            r == Some(
                if self.indices.current < self.chars.len() {
                    self.chars[self.indices.current as int]
                } else {
                    '\0'
                },
            ),
    {
        if self.is_at_end() {
            Some('\0')
        } else {
            Some(self.chars[self.indices.current])
        }
    }

    /// The character behind the one under the cursor, or NUL where there is
    /// none.
    pub fn peek_next(&self) -> (r: Option<char>)
        ensures
            r == Some(
                if self.indices.current + 1 < self.chars.len() {
                    self.chars[self.indices.current + 1]
                } else {
                    '\0'
                },
            ),
    {
        if self.is_at_end() || self.indices.current + 1 >= self.chars.len() {
            Some('\0')
        } else {
            Some(self.chars[self.indices.current + 1])
        }
    }

    /// Moves the cursor over the members of a run.
    fn skip_digits(&mut self)
        requires
            old(self).wf(),
        ensures
            final(self).wf(),
            old(self).same_text(final(self)),
            final(self).indices.line == old(self).indices.line,
            final(self).indices.current == run_end(
                old(self).chars@,
                old(self).indices.current as int,
                digit(),
            ),
    {
        while is_digit(&self.peek().unwrap_or('\0'))
            invariant
                self.wf(),
                old(self).same_text(self),
                self.indices.line == old(self).indices.line,
                old(self).indices.current <= self.indices.current,
                run_end(self.chars@, self.indices.current as int, digit()) == run_end(
                    old(self).chars@,
                    old(self).indices.current as int,
                    digit(),
                ),
            decreases self.chars.len() - self.indices.current,
        {
            let _ = self.advance();
        }
    }

    /// Reads the rest of a string literal whose opening quote has been
    /// consumed: up to and including the closing quote, counting the lines.
    /// Where the text ends first, the result is the diagnostic.
    pub fn string(&mut self) -> (r: Result<Token, Diagnostic>)
        requires
            old(self).wf(),
            old(self).indices.start < old(self).indices.current,
        ensures
            final(self).wf(),
            old(self).same_text(final(self)),
            ({
                let chars = old(self).chars@;
                let from = old(self).indices.current as int;
                let close = run_end(chars, from, until('"'));
                let line = old(self).indices.line + newlines(chars, from, close);
                &&& final(self).indices.line == line
                &&& if close >= chars.len() {
                    &&& final(self).indices.current == close
                    &&& r == Err::<Token, Diagnostic>(
                        Diagnostic { line: line as usize, error: LexicalError::UnterminatedString },
                    )
                } else {
                    &&& final(self).indices.current == close + 1
                    &&& r is Ok
                    &&& r->Ok_0@ == (TokenView {
                        kind: TokenType::String,
                        lexeme: chars.subrange(old(self).indices.start as int, close + 1),
                        literal: Some(
                            LiteralView::String(
                                chars.subrange(old(self).indices.start + 1, close),
                            ),
                        ),
                        line: line as usize,
                    })
                }
            }),
    {
        let ghost from = self.indices.current as int;
        while self.peek().unwrap_or('\0') != '"' && !self.is_at_end()
            invariant
                self.wf(),
                old(self).same_text(self),
                from <= self.indices.current,
                self.indices.line == old(self).indices.line + newlines(
                    self.chars@,
                    from,
                    self.indices.current as int,
                ),
                self.indices.line <= old(self).indices.line + (self.indices.current - from),
                run_end(self.chars@, self.indices.current as int, until('"')) == run_end(
                    self.chars@,
                    from,
                    until('"'),
                ),
            decreases self.chars.len() - self.indices.current,
        {
            if self.peek().unwrap_or('\0') == '\n' {
                self.indices.line = self.indices.line + 1;
            }
            let _ = self.advance();
        }
        if self.is_at_end() {
            return Err(
                Diagnostic { line: self.indices.line, error: LexicalError::UnterminatedString },
            );
        }
        // The closing quote.
        let _ = self.advance();
        let text = text_of(&self.chars, self.indices.start + 1, self.indices.current - 1);
        let literal = LiteralValue::String(StringValue(text));
        Ok(self.make_token(TokenType::String, Some(literal)))
    }

    /// Reads the rest of a word whose first character has been consumed: a
    /// keyword where the lexeme spells one, else an identifier that carries
    /// its name.
    pub fn identifier(&mut self) -> (r: Token)
        requires
            old(self).wf(),
        ensures
            final(self).wf(),
            old(self).same_text(final(self)),
            final(self).indices.line == old(self).indices.line,
            final(self).indices.current == run_end(
                old(self).chars@,
                old(self).indices.current as int,
                word(),
            ),
            ({
                let text = old(self).chars@.subrange(
                    old(self).indices.start as int,
                    final(self).indices.current as int,
                );
                r@ == (TokenView {
                    kind: word_kind(text),
                    lexeme: text,
                    literal: match keyword_of(text) {
                        Some(_) => None,
                        None => Some(LiteralView::Identifier(text)),
                    },
                    line: old(self).indices.line,
                })
            }),
    {
        while is_alpha_numeric(&self.peek().unwrap_or('\0'))
            invariant
                self.wf(),
                old(self).same_text(self),
                self.indices.line == old(self).indices.line,
                run_end(self.chars@, self.indices.current as int, word()) == run_end(
                    old(self).chars@,
                    old(self).indices.current as int,
                    word(),
                ),
            decreases self.chars.len() - self.indices.current,
        {
            let _ = self.advance();
        }
        let text = text_of(&self.chars, self.indices.start, self.indices.current);
        match KeywordType::try_from(text.as_str()) {
            Ok(keyword) => self.make_token(TokenType::Keyword(keyword), None),
            Err(name) => self.make_token(
                TokenType::Identifier,
                Some(LiteralValue::Identifier(name)),
            ),
        }
    }

    /// Reads the rest of a number whose first digit has been consumed: the
    /// digits, and one `.` with the digits behind it where a digit follows
    /// it. The payload is what `parse` makes of the lexeme.
    pub fn number<P: Fn(String) -> Option<u32>>(&mut self, parse: &P) -> (r: Token)
        requires
            old(self).wf(),
            read_ready(parse),
        ensures
            final(self).wf(),
            old(self).same_text(final(self)),
            final(self).indices.line == old(self).indices.line,
            final(self).indices.current == number_end(
                old(self).chars@,
                old(self).indices.current as int,
            ),
            r@ == token_of(
                TokenType::Number,
                old(self).chars@.subrange(
                    old(self).indices.start as int,
                    final(self).indices.current as int,
                ),
                old(self).indices.line as int,
                reads(parse),
            ),
    {
        self.skip_digits();
        if self.peek().unwrap_or('\0') == '.' && is_digit(&self.peek_next().unwrap_or('\0')) {
            // The point.
            let _ = self.advance();
            self.skip_digits();
        }
        let lexeme = text_of(&self.chars, self.indices.start, self.indices.current);
        let literal = match number_read(lexeme.clone(), parse) {
            Some(bits) => Some(LiteralValue::Number(bits)),
            None => None,
        };
        Token {
            kind: TokenType::Number,
            lexeme,
            literal: NullableLiteral(literal),
            line: self.indices.line,
        }
    }
}

/// The tokens of `chars` from position `at` on, the cursor standing on line
/// `line`: one for each lexeme that yields a token, in the order of the
/// text, and the end-of-input token, with an empty lexeme, behind them.
pub open spec fn lexemes(chars: Seq<char>, at: int, line: int, reader: NumberReader) -> Seq<
    TokenView,
>
    decreases chars.len() - at,
    via lexemes_decreases
{
    if 0 <= at < chars.len() {
        let step = scan_step(chars, at, at, line);
        let rest = lexemes(chars, step.next, step.line, reader);
        match step.outcome {
            Outcome::Lexeme(kind) => seq![
                token_of(kind, chars.subrange(at, step.next), step.line, reader),
            ] + rest,
            _ => rest,
        }
    } else {
        seq![token_of(TokenType::Eof, Seq::empty(), line, reader)]
    }
}

#[via_fn]
proof fn lexemes_decreases(chars: Seq<char>, at: int, line: int, reader: NumberReader) {
    if 0 <= at < chars.len() {
        lemma_step_advances(chars, at, at, line);
    }
}

/// The diagnostics of `chars` from position `at` on, the cursor standing on
/// line `line`, in the order of the text.
pub open spec fn diagnostics(chars: Seq<char>, at: int, line: int) -> Seq<Diagnostic>
    decreases chars.len() - at,
    via diagnostics_decreases
{
    if 0 <= at < chars.len() {
        let step = scan_step(chars, at, at, line);
        let rest = diagnostics(chars, step.next, step.line);
        match step.outcome {
            Outcome::Failure(error) => seq![Diagnostic { line: step.line as usize, error }] + rest,
            _ => rest,
        }
    } else {
        Seq::empty()
    }
}

#[via_fn]
proof fn diagnostics_decreases(chars: Seq<char>, at: int, line: int) {
    if 0 <= at < chars.len() {
        lemma_step_advances(chars, at, at, line);
    }
}

/// The newlines of a span are those of its two parts.
pub proof fn lemma_newlines_split(chars: Seq<char>, from: int, mid: int, to: int)
    requires
        from <= mid <= to,
    ensures
        newlines(chars, from, to) == newlines(chars, from, mid) + newlines(chars, mid, to),
    decreases to - mid,
{
    if mid < to {
        lemma_newlines_split(chars, from, mid, to - 1);
    }
}

/// A span without a newline counts none.
pub proof fn lemma_newlines_none(chars: Seq<char>, from: int, to: int)
    requires
        forall|i: int| from <= i < to ==> chars[i] != '\n',
    ensures
        newlines(chars, from, to) == 0,
    decreases to - from,
{
    if from < to {
        lemma_newlines_none(chars, from, to - 1);
    }
}

/// A scanning step raises the line by the newlines that it consumed: the
/// line of a token is the line on which its lexeme ends.
pub proof fn lemma_step_counts_lines(chars: Seq<char>, start: int, at: int, line: int)
    requires
        0 <= at < chars.len(),
    ensures
        scan_step(chars, start, at, line).line == line + newlines(
            chars,
            at,
            scan_step(chars, start, at, line).next,
        ),
{
    let after = at + 1;
    let step = scan_step(chars, start, at, line);
    lemma_step_advances(chars, start, at, line);
    lemma_newlines_split(chars, at, after, step.next);
    assert(newlines(chars, at, after) == newlines(chars, at, at) + if chars[at] == '\n' {
        1int
    } else {
        0int
    });
    match classify(chars[at]) {
        Some(TokenCharacter::Comparator(_)) => {
            lemma_newlines_none(chars, after, step.next);
        },
        Some(TokenCharacter::Delimiter(DelimiterType::Comment)) => {
            if char_at(chars, after, '/') {
                lemma_run_end_bounds(chars, after + 1, until('\n'));
                lemma_newlines_none(chars, after, step.next);
            } else {
                lemma_newlines_none(chars, after, step.next);
            }
        },
        Some(TokenCharacter::Delimiter(DelimiterType::Literal(LiteralType::String))) => {
            let close = run_end(chars, after, until('"'));
            lemma_run_end_bounds(chars, after, until('"'));
            if close < chars.len() {
                lemma_newlines_split(chars, after, close, close + 1);
                lemma_newlines_none(chars, close, close + 1);
            }
        },
        Some(TokenCharacter::Delimiter(DelimiterType::Literal(LiteralType::Number))) => {
            let whole = run_end(chars, after, digit());
            lemma_run_end_bounds(chars, after, digit());
            if whole < chars.len() {
                lemma_run_end_bounds(chars, whole + 1, digit());
            }
            lemma_newlines_none(chars, after, step.next);
        },
        Some(TokenCharacter::Delimiter(DelimiterType::Literal(LiteralType::Identifier))) => {
            lemma_run_end_bounds(chars, after, word());
            lemma_newlines_none(chars, after, step.next);
        },
        _ => {
            lemma_newlines_none(chars, after, step.next);
        },
    }
}

/// Every scan ends with the end-of-input token, which has an empty lexeme
/// and stands on the line that the text ends on; no token before it is
/// one. The scan of any text, with whatever it holds, comes to this end.
pub proof fn lemma_scan_ends_with_eof(chars: Seq<char>, at: int, line: int, reader: NumberReader)
    requires
        0 <= at <= chars.len(),
    ensures
        lexemes(chars, at, line, reader).len() >= 1,
        lexemes(chars, at, line, reader).last() == token_of(
            TokenType::Eof,
            Seq::empty(),
            line + newlines(chars, at, chars.len() as int),
            reader,
        ),
        forall|i: int|
            0 <= i < lexemes(chars, at, line, reader).len() - 1 ==> (#[trigger] lexemes(
                chars,
                at,
                line,
                reader,
            )[i]).kind != TokenType::Eof,
    decreases chars.len() - at,
{
    if at < chars.len() {
        let step = scan_step(chars, at, at, line);
        lemma_step_advances(chars, at, at, line);
        lemma_step_counts_lines(chars, at, at, line);
        lemma_scan_ends_with_eof(chars, step.next, step.line, reader);
        lemma_newlines_split(chars, at, step.next, chars.len() as int);
        let all = lexemes(chars, at, line, reader);
        let rest = lexemes(chars, step.next, step.line, reader);
        match step.outcome {
            Outcome::Lexeme(kind) => {
                let first = token_of(kind, chars.subrange(at, step.next), step.line, reader);
                assert(all == seq![first] + rest);
                assert(kind != TokenType::Eof);
                assert forall|i: int| 0 <= i < all.len() - 1 implies (#[trigger] all[i]).kind
                    != TokenType::Eof by {
                    if i > 0 {
                        assert(all[i] == rest[i - 1]);
                    }
                }
            },
            _ => {
                assert(all == rest);
            },
        }
    }
}

/// A string that does not end takes the rest of the text with it: a scan
/// reports an unterminated string at most once, as its last diagnostic.
pub proof fn lemma_unterminated_string_is_last(chars: Seq<char>, at: int, line: int)
    requires
        0 <= at <= chars.len(),
    ensures
        forall|i: int|
            0 <= i < diagnostics(chars, at, line).len() - 1 ==> (#[trigger] diagnostics(
                chars,
                at,
                line,
            )[i]).error != LexicalError::UnterminatedString,
    decreases chars.len() - at,
{
    if at < chars.len() {
        let step = scan_step(chars, at, at, line);
        lemma_step_advances(chars, at, at, line);
        lemma_unterminated_string_is_last(chars, step.next, step.line);
        let all = diagnostics(chars, at, line);
        let rest = diagnostics(chars, step.next, step.line);
        match step.outcome {
            Outcome::Failure(error) => {
                let first = Diagnostic { line: step.line as usize, error };
                assert(all == seq![first] + rest);
                if error == LexicalError::UnterminatedString {
                    assert(step.next == chars.len());
                    assert(rest.len() == 0);
                }
                assert forall|i: int| 0 <= i < all.len() - 1 implies (#[trigger] all[i]).error
                    != LexicalError::UnterminatedString by {
                    if i > 0 {
                        assert(all[i] == rest[i - 1]);
                    }
                }
            },
            _ => {
                assert(all == rest);
            },
        }
    }
}

/// The diagnostics of a scan are no more than the characters scanned.
pub proof fn lemma_diagnostics_bounded(chars: Seq<char>, at: int, line: int)
    requires
        0 <= at <= chars.len(),
    ensures
        diagnostics(chars, at, line).len() <= chars.len() - at,
    decreases chars.len() - at,
{
    if at < chars.len() {
        let step = scan_step(chars, at, at, line);
        lemma_step_advances(chars, at, at, line);
        lemma_diagnostics_bounded(chars, step.next, step.line);
    }
}

/// Reads one lexeme at a time from its source.
pub struct Tokenizer {
    pub source: TokenSource,
    pub indices: Indices,
    pub len: usize,
}

impl Tokenizer {
    pub fn new(source: &str) -> (r: Tokenizer)
        requires
            source@.len() < usize::MAX,
        ensures
            r.source.wf(),
            r.source.source@ == source@,
            r.source.indices.start == 0,
            r.source.indices.current == 0,
            r.source.indices.line == 1,
            r.indices.start == 0 && r.indices.current == 0 && r.indices.line == 0,
            r.len == source@.len(),
    {
        let source = TokenSource::new(source);
        let len = source.chars.len();
        Tokenizer { source, indices: Indices::default(), len }
    }

    /// Reads one lexeme at the cursor. At the end of the text nothing is read.
    /// Elsewhere the cursor and the line move as the scanning step says, and
    /// the result is the step's token, its diagnostic, or nothing.
    pub fn next<P: Fn(String) -> Option<u32>>(&mut self, parse: &P) -> (r: Result<
        Option<Token>,
        Diagnostic,
    >)
        requires
            old(self).source.wf(),
            read_ready(parse),
        ensures
            final(self).source.wf(),
            old(self).source.same_text(&final(self).source),
            final(self).len == old(self).len,
            final(self).indices == old(self).indices,
            old(self).source.indices.current >= old(self).source.chars.len() ==> {
                &&& r == Ok::<Option<Token>, Diagnostic>(None)
                &&& final(self).source.indices == old(self).source.indices
            },
            old(self).source.indices.current < old(self).source.chars.len() ==> ({
                let chars = old(self).source.chars@;
                let start = old(self).source.indices.start as int;
                let step = scan_step(
                    chars,
                    start,
                    old(self).source.indices.current as int,
                    old(self).source.indices.line as int,
                );
                &&& final(self).source.indices.current == step.next
                &&& final(self).source.indices.line == step.line
                &&& match step.outcome {
                    Outcome::Nothing => r == Ok::<Option<Token>, Diagnostic>(None),
                    Outcome::Failure(error) => r == Err::<Option<Token>, Diagnostic>(
                        Diagnostic { line: step.line as usize, error },
                    ),
                    Outcome::Lexeme(kind) => {
                        &&& r matches Ok(Some(token))
                        &&& token@ == token_of(
                            kind,
                            chars.subrange(start, step.next),
                            step.line,
                            reads(parse),
                        )
                    },
                }
            }),
    {
        if self.source.is_at_end() {
            return Ok(None);
        }
        proof {
            lemma_step_advances(
                self.source.chars@,
                self.source.indices.start as int,
                self.source.indices.current as int,
                self.source.indices.line as int,
            );
        }
        let next = match self.source.advance() {
            Some(next) => next,
            None => {
                return Ok(None);
            },
        };
        match TokenCharacter::try_from(&next) {
            Ok(TokenCharacter::Type(kind)) => Ok(Some(self.source.make_token(kind, None))),
            Ok(TokenCharacter::Comparator(comparator)) => {
                let equal = self.source.matches('=');
                Ok(Some(self.source.make_token(comparator.matches(equal), None)))
            },
            Ok(TokenCharacter::Delimiter(delimiter)) => match delimiter {
                DelimiterType::Comment => {
                    if self.source.matches('/') {
                        while self.source.peek().unwrap_or('\0') != '\n' && !self.source.is_at_end()
                            invariant
                                self.source.wf(),
                                old(self).source.same_text(&self.source),
                                self.len == old(self).len,
                                self.indices == old(self).indices,
                                self.source.indices.line == old(self).source.indices.line,
                                self.source.indices.current >= old(self).source.indices.current + 2,
                                run_end(
                                    self.source.chars@,
                                    self.source.indices.current as int,
                                    until('\n'),
                                ) == run_end(
                                    self.source.chars@,
                                    old(self).source.indices.current + 2,
                                    until('\n'),
                                ),
                            decreases self.source.chars.len() - self.source.indices.current,
                        {
                            let _ = self.source.advance();
                        }
                        Ok(None)
                    } else {
                        Ok(Some(self.source.make_token(TokenType::Slash, None)))
                    }
                },
                DelimiterType::Literal(literal) => match literal {
                    LiteralType::String => match self.source.string() {
                        Ok(token) => {
                            proof {
                                let text = token.lexeme@;
                                lemma_run_end_bounds(
                                    self.source.chars@,
                                    old(self).source.indices.current + 1,
                                    until('"'),
                                );
                                assert(text.subrange(1, text.len() - 1)
                                    =~= self.source.chars@.subrange(
                                    self.source.indices.start + 1,
                                    self.source.indices.current - 1,
                                ));
                            }
                            Ok(Some(token))
                        },
                        Err(diagnostic) => Err(diagnostic),
                    },
                    LiteralType::Number => Ok(Some(self.source.number(parse))),
                    LiteralType::Identifier => Ok(Some(self.source.identifier())),
                },
            },
            Ok(TokenCharacter::Newline) => {
                self.source.indices.line = self.source.indices.line + 1;
                Ok(None)
            },
            Ok(_) => Ok(None),
            Err(unexpected) => Err(
                Diagnostic {
                    line: self.source.indices.line,
                    error: LexicalError::UnexpectedCharacter(*unexpected.0),
                },
            ),
        }
    }

    /// Reads one lexeme and appends its token, if it has one, to `tokens`.
    /// The result is the diagnostic, if the lexeme has one.
    pub fn scan_token<P: Fn(String) -> Option<u32>>(
        &mut self,
        tokens: &mut Vec<Token>,
        parse: &P,
    ) -> (r: Option<Diagnostic>)
        requires
            old(self).source.wf(),
            read_ready(parse),
        ensures
            final(self).source.wf(),
            old(self).source.same_text(&final(self).source),
            final(self).len == old(self).len,
            final(self).indices == old(self).indices,
            old(self).source.indices.current >= old(self).source.chars.len() ==> {
                &&& r is None
                &&& final(tokens)@ == old(tokens)@
                &&& final(self).source.indices == old(self).source.indices
            },
            old(self).source.indices.current < old(self).source.chars.len() ==> ({
                let chars = old(self).source.chars@;
                let start = old(self).source.indices.start as int;
                let step = scan_step(
                    chars,
                    start,
                    old(self).source.indices.current as int,
                    old(self).source.indices.line as int,
                );
                &&& final(self).source.indices.current == step.next
                &&& final(self).source.indices.line == step.line
                &&& match step.outcome {
                    Outcome::Nothing => r is None && final(tokens)@ == old(tokens)@,
                    Outcome::Failure(error) => {
                        &&& r == Some(Diagnostic { line: step.line as usize, error })
                        &&& final(tokens)@ == old(tokens)@
                    },
                    Outcome::Lexeme(kind) => {
                        &&& r is None
                        &&& final(tokens)@.len() == old(tokens)@.len() + 1
                        &&& final(tokens)@.drop_last() == old(tokens)@
                        &&& final(tokens)@.last()@ == token_of(
                            kind,
                            chars.subrange(start, step.next),
                            step.line,
                            reads(parse),
                        )
                    },
                }
            }),
    {
        match self.next(parse) {
            Ok(Some(token)) => {
                tokens.push(token);
                assert(tokens@.drop_last() =~= old(tokens)@);
                None
            },
            Ok(None) => None,
            Err(diagnostic) => Some(diagnostic),
        }
    }
}

/// The tokens and the diagnostics of one scan.
pub struct Scan {
    pub tokens: Vec<Token>,
    pub diagnostics: Vec<Diagnostic>,
}

/// The driver: holds a source text and scans it from its start.
pub struct Scanner {
    pub source: String,
    pub tokens: Vec<Token>,
}

impl Scanner {
    pub fn new(source: &str) -> (r: Scanner)
        ensures
            r.source@ == source@,
            r.tokens@.len() == 0,
    {
        Scanner { source: source.to_owned(), tokens: Vec::new() }
    }

    /// Scans the whole text, from its first character on line 1. The tokens
    /// are those of `lexemes`, the end-of-input token last; the diagnostics
    /// are those of `diagnostics`. Bad input costs a token, never the scan.
    pub fn scan_tokens<P: Fn(String) -> Option<u32>>(&self, parse: &P) -> (r: Scan)
        requires
            self.source@.len() < usize::MAX,
            read_ready(parse),
        ensures
            r.diagnostics@ == diagnostics(self.source@, 0, 1),
            r.tokens@.len() == lexemes(self.source@, 0, 1, reads(parse)).len(),
            forall|i: int|
                0 <= i < r.tokens@.len() ==> (#[trigger] r.tokens@[i])@ == lexemes(
                    self.source@,
                    0,
                    1,
                    reads(parse),
                )[i],
    {
        let mut tokens: Vec<Token> = Vec::new();
        let mut faults: Vec<Diagnostic> = Vec::new();
        let mut tokenizer = Tokenizer::new(self.source.as_str());
        let ghost chars = self.source@;
        let ghost all = lexemes(chars, 0, 1, reads(parse));
        while !tokenizer.source.is_at_end()
            invariant
                tokenizer.source.wf(),
                tokenizer.source.chars@ == chars,
                read_ready(parse),
                all == lexemes(chars, 0, 1, reads(parse)),
                tokens@.len() <= all.len(),
                all.subrange(tokens@.len() as int, all.len() as int) == lexemes(
                    chars,
                    tokenizer.source.indices.current as int,
                    tokenizer.source.indices.line as int,
                    reads(parse),
                ),
                forall|i: int| 0 <= i < tokens@.len() ==> (#[trigger] tokens@[i])@ == all[i],
                faults@ + diagnostics(
                    chars,
                    tokenizer.source.indices.current as int,
                    tokenizer.source.indices.line as int,
                ) == diagnostics(chars, 0, 1),
            decreases tokenizer.source.chars.len() - tokenizer.source.indices.current,
        {
            tokenizer.source.indices.start = tokenizer.source.indices.current;
            let ghost at = tokenizer.source.indices.current as int;
            let ghost line = tokenizer.source.indices.line as int;
            let ghost before = tokens@;
            let ghost reported = faults@;
            proof {
                lemma_step_advances(chars, at, at, line);
            }
            let ghost step = scan_step(chars, at, at, line);
            let ghost rest = lexemes(chars, step.next, step.line, reads(parse));
            let ghost tail = all.subrange(before.len() as int, all.len() as int);
            match tokenizer.scan_token(&mut tokens, parse) {
                Some(diagnostic) => {
                    faults.push(diagnostic);
                    assert(faults@ + diagnostics(chars, step.next, step.line) =~= reported
                        + (seq![diagnostic] + diagnostics(chars, step.next, step.line)));
                },
                None => {},
            }
            proof {
                if step.outcome is Lexeme {
                    assert(tail.len() == rest.len() + 1);
                    assert(tail[0] == all[before.len() as int]);
                    assert(all.subrange(tokens@.len() as int, all.len() as int) =~= rest) by {
                        assert(tail.subrange(1, tail.len() as int) =~= rest);
                    }
                    assert(tokens@.drop_last() == before);
                    assert forall|i: int| 0 <= i < tokens@.len() implies (#[trigger] tokens@[i])@
                        == all[i] by {
                        if i < before.len() {
                            assert(tokens@[i] == tokens@.drop_last()[i]);
                        }
                    }
                }
            }
        }
        let line = tokenizer.source.indices.line;
        tokens.push(Token::new(TokenType::Eof, "", None, line));
        proof {
            reveal_strlit("");
            let n = tokens@.len() - 1;
            let tail = all.subrange(n, all.len() as int);
            assert(tail.len() == 1);
            assert(tail[0] == all[n]);
            assert(tokens@[n].lexeme@ =~= Seq::<char>::empty());
            assert(faults@ =~= faults@ + Seq::<Diagnostic>::empty());
        }
        Scan { tokens, diagnostics: faults }
    }
}

} // verus!
