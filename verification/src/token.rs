//! The scanner's output unit: token kinds, literal payloads and tokens.
use crate::convert::MaybeFrom;
use crate::number::{number_text, show_ready, shows, NumberText};
use vstd::prelude::*;
use vstd::std_specs::iter::IteratorSpec;
use vstd::string::*;

verus! {

#[derive(Clone, Copy, Debug, PartialEq, Eq, Structural)]
pub enum Direction {
    Left,
    Right,
}

#[derive(Clone, Copy, Debug, PartialEq, Eq, Structural)]
pub enum TokenType {
    // Single-character tokens
    Paren(Direction),
    Brace(Direction),
    Comma,
    Dot,
    Minus,
    Plus,
    Semicolon,
    Slash,
    Star,
    // One or two character tokens
    Comparator { kind: ComparatorType, equal: bool },
    // Literals
    Identifier,
    String,
    Number,
    // Keywords
    Keyword(KeywordType),
    Eof,
}

#[derive(Clone, Copy, Debug, PartialEq, Eq, Structural)]
pub enum ComparatorType {
    Bang,
    Equal,
    Greater,
    Less,
}

impl ComparatorType {
    /// The upper-case name of the bare comparator.
    pub open spec fn label(self) -> Seq<char> {
        match self {
            ComparatorType::Bang => "BANG"@,
            ComparatorType::Equal => "EQUAL"@,
            ComparatorType::Greater => "GREATER"@,
            ComparatorType::Less => "LESS"@,
        }
    }

    pub fn to_string(&self) -> (r: String)
        ensures
            r@ == self.label(),
    {
        match self {
            ComparatorType::Bang => "BANG".to_owned(),
            ComparatorType::Equal => "EQUAL".to_owned(),
            ComparatorType::Greater => "GREATER".to_owned(),
            ComparatorType::Less => "LESS".to_owned(),
        }
    }

    /// The token kind of this comparator, bare or followed by `=`.
    pub fn matches(self, equal: bool) -> (r: TokenType)
        ensures
            r == (TokenType::Comparator { kind: self, equal }),
    {
        TokenType::Comparator { kind: self, equal }
    }
}

#[derive(Clone, Copy, Debug, PartialEq, Eq, Structural)]
pub enum KeywordType {
    And,
    Class,
    Else,
    False,
    Fun,
    For,
    If,
    Nil,
    Or,
    Print,
    Return,
    Super,
    This,
    True,
    Var,
    While,
}

/// The keyword that a word spells, if it spells one.
pub open spec fn keyword_of(word: Seq<char>) -> Option<KeywordType> {
    if word == "and"@ {
        Some(KeywordType::And)
    } else if word == "class"@ {
        Some(KeywordType::Class)
    } else if word == "else"@ {
        Some(KeywordType::Else)
    } else if word == "false"@ {
        Some(KeywordType::False)
    } else if word == "for"@ {
        Some(KeywordType::For)
    } else if word == "fun"@ {
        Some(KeywordType::Fun)
    } else if word == "if"@ {
        Some(KeywordType::If)
    } else if word == "nil"@ {
        Some(KeywordType::Nil)
    } else if word == "or"@ {
        Some(KeywordType::Or)
    } else if word == "print"@ {
        Some(KeywordType::Print)
    } else if word == "return"@ {
        Some(KeywordType::Return)
    } else if word == "super"@ {
        Some(KeywordType::Super)
    } else if word == "this"@ {
        Some(KeywordType::This)
    } else if word == "true"@ {
        Some(KeywordType::True)
    } else if word == "var"@ {
        Some(KeywordType::Var)
    } else if word == "while"@ {
        Some(KeywordType::While)
    } else {
        None
    }
}

/// The keyword table: each of the sixteen reserved words spells its own
/// keyword, and no two of them are one word.
pub proof fn lemma_keyword_table()
    ensures
        keyword_of("and"@) == Some(KeywordType::And),
        keyword_of("class"@) == Some(KeywordType::Class),
        keyword_of("else"@) == Some(KeywordType::Else),
        keyword_of("false"@) == Some(KeywordType::False),
        keyword_of("for"@) == Some(KeywordType::For),
        keyword_of("fun"@) == Some(KeywordType::Fun),
        keyword_of("if"@) == Some(KeywordType::If),
        keyword_of("nil"@) == Some(KeywordType::Nil),
        keyword_of("or"@) == Some(KeywordType::Or),
        keyword_of("print"@) == Some(KeywordType::Print),
        keyword_of("return"@) == Some(KeywordType::Return),
        keyword_of("super"@) == Some(KeywordType::Super),
        keyword_of("this"@) == Some(KeywordType::This),
        keyword_of("true"@) == Some(KeywordType::True),
        keyword_of("var"@) == Some(KeywordType::Var),
        keyword_of("while"@) == Some(KeywordType::While),
{
    reveal_strlit("and");
    assert("and"@.len() == 3);
    assert("and"@[0] == 'a' && "and"@[1] == 'n');
    reveal_strlit("class");
    assert("class"@.len() == 5);
    assert("class"@[0] == 'c' && "class"@[1] == 'l');
    reveal_strlit("else");
    assert("else"@.len() == 4);
    assert("else"@[0] == 'e' && "else"@[1] == 'l');
    reveal_strlit("false");
    assert("false"@.len() == 5);
    assert("false"@[0] == 'f' && "false"@[1] == 'a');
    reveal_strlit("for");
    assert("for"@.len() == 3);
    assert("for"@[0] == 'f' && "for"@[1] == 'o');
    reveal_strlit("fun");
    assert("fun"@.len() == 3);
    assert("fun"@[0] == 'f' && "fun"@[1] == 'u');
    reveal_strlit("if");
    assert("if"@.len() == 2);
    assert("if"@[0] == 'i' && "if"@[1] == 'f');
    reveal_strlit("nil");
    assert("nil"@.len() == 3);
    assert("nil"@[0] == 'n' && "nil"@[1] == 'i');
    reveal_strlit("or");
    assert("or"@.len() == 2);
    assert("or"@[0] == 'o' && "or"@[1] == 'r');
    reveal_strlit("print");
    assert("print"@.len() == 5);
    assert("print"@[0] == 'p' && "print"@[1] == 'r');
    reveal_strlit("return");
    assert("return"@.len() == 6);
    assert("return"@[0] == 'r' && "return"@[1] == 'e');
    reveal_strlit("super");
    assert("super"@.len() == 5);
    assert("super"@[0] == 's' && "super"@[1] == 'u');
    reveal_strlit("this");
    assert("this"@.len() == 4);
    assert("this"@[0] == 't' && "this"@[1] == 'h');
    reveal_strlit("true");
    assert("true"@.len() == 4);
    assert("true"@[0] == 't' && "true"@[1] == 'r');
    reveal_strlit("var");
    assert("var"@.len() == 3);
    assert("var"@[0] == 'v' && "var"@[1] == 'a');
    reveal_strlit("while");
    assert("while"@.len() == 5);
    assert("while"@[0] == 'w' && "while"@[1] == 'h');
}

/// Whether two texts hold the same characters.
fn same_text(a: &str, b: &str) -> (r: bool)
    ensures
        r == (a@ == b@),
{
    let left = a.to_owned();
    let right = b.to_owned();
    left == right
}

impl<'a> MaybeFrom<&'a str> for KeywordType {
    open spec fn converted(value: &'a str) -> Option<KeywordType> {
        keyword_of(value@)
    }

    fn maybe_from(value: &'a str) -> (r: Option<KeywordType>) {
        if same_text(value, "and") {
            Some(KeywordType::And)
        } else if same_text(value, "class") {
            Some(KeywordType::Class)
        } else if same_text(value, "else") {
            Some(KeywordType::Else)
        } else if same_text(value, "false") {
            Some(KeywordType::False)
        } else if same_text(value, "for") {
            Some(KeywordType::For)
        } else if same_text(value, "fun") {
            Some(KeywordType::Fun)
        } else if same_text(value, "if") {
            Some(KeywordType::If)
        } else if same_text(value, "nil") {
            Some(KeywordType::Nil)
        } else if same_text(value, "or") {
            Some(KeywordType::Or)
        } else if same_text(value, "print") {
            Some(KeywordType::Print)
        } else if same_text(value, "return") {
            Some(KeywordType::Return)
        } else if same_text(value, "super") {
            Some(KeywordType::Super)
        } else if same_text(value, "this") {
            Some(KeywordType::This)
        } else if same_text(value, "true") {
            Some(KeywordType::True)
        } else if same_text(value, "var") {
            Some(KeywordType::Var)
        } else if same_text(value, "while") {
            Some(KeywordType::While)
        } else {
            None
        }
    }
}

impl KeywordType {
    /// The upper-case name of the keyword.
    pub open spec fn label(self) -> Seq<char> {
        match self {
            KeywordType::And => "AND"@,
            KeywordType::Class => "CLASS"@,
            KeywordType::Else => "ELSE"@,
            KeywordType::False => "FALSE"@,
            KeywordType::Fun => "FUN"@,
            KeywordType::For => "FOR"@,
            KeywordType::If => "IF"@,
            KeywordType::Nil => "NIL"@,
            KeywordType::Or => "OR"@,
            KeywordType::Print => "PRINT"@,
            KeywordType::Return => "RETURN"@,
            KeywordType::Super => "SUPER"@,
            KeywordType::This => "THIS"@,
            KeywordType::True => "TRUE"@,
            KeywordType::Var => "VAR"@,
            KeywordType::While => "WHILE"@,
        }
    }

    pub fn to_string(&self) -> (r: String)
        ensures
            r@ == self.label(),
    {
        match self {
            KeywordType::And => "AND".to_owned(),
            KeywordType::Class => "CLASS".to_owned(),
            KeywordType::Else => "ELSE".to_owned(),
            KeywordType::False => "FALSE".to_owned(),
            KeywordType::Fun => "FUN".to_owned(),
            KeywordType::For => "FOR".to_owned(),
            KeywordType::If => "IF".to_owned(),
            KeywordType::Nil => "NIL".to_owned(),
            KeywordType::Or => "OR".to_owned(),
            KeywordType::Print => "PRINT".to_owned(),
            KeywordType::Return => "RETURN".to_owned(),
            KeywordType::Super => "SUPER".to_owned(),
            KeywordType::This => "THIS".to_owned(),
            KeywordType::True => "TRUE".to_owned(),
            KeywordType::Var => "VAR".to_owned(),
            KeywordType::While => "WHILE".to_owned(),
        }
    }

    /// The keyword that `value` spells, or `value` itself as an identifier.
    pub fn try_from(value: &str) -> (r: Result<KeywordType, StringIdentifier>)
        ensures
            match keyword_of(value@) {
                Some(keyword) => r == Ok::<KeywordType, StringIdentifier>(keyword),
                None => r is Err && r->Err_0.0@ == value@,
            },
    {
        match KeywordType::maybe_from(value) {
            Some(keyword) => Ok(keyword),
            None => Err(StringIdentifier(value.to_owned())),
        }
    }
}

impl TokenType {
    /// The upper-case name of the token kind.
    pub open spec fn label(self) -> Seq<char> {
        match self {
            TokenType::Paren(Direction::Left) => "LEFT_PAREN"@,
            TokenType::Paren(Direction::Right) => "RIGHT_PAREN"@,
            TokenType::Brace(Direction::Left) => "LEFT_BRACE"@,
            TokenType::Brace(Direction::Right) => "RIGHT_BRACE"@,
            TokenType::Comma => "COMMA"@,
            TokenType::Dot => "DOT"@,
            TokenType::Minus => "MINUS"@,
            TokenType::Plus => "PLUS"@,
            TokenType::Semicolon => "SEMICOLON"@,
            TokenType::Slash => "SLASH"@,
            TokenType::Star => "STAR"@,
            TokenType::Comparator { kind, equal } => if equal {
                kind.label() + "_EQUAL"@
            } else {
                kind.label()
            },
            TokenType::Identifier => "IDENTIFIER"@,
            TokenType::String => "STRING"@,
            TokenType::Number => "NUMBER"@,
            TokenType::Keyword(keyword) => keyword.label(),
            TokenType::Eof => "EOF"@,
        }
    }

    pub fn to_string(&self) -> (r: String)
        ensures
            r@ == self.label(),
    {
        match self {
            TokenType::Paren(Direction::Left) => "LEFT_PAREN".to_owned(),
            TokenType::Paren(Direction::Right) => "RIGHT_PAREN".to_owned(),
            TokenType::Brace(Direction::Left) => "LEFT_BRACE".to_owned(),
            TokenType::Brace(Direction::Right) => "RIGHT_BRACE".to_owned(),
            TokenType::Comma => "COMMA".to_owned(),
            TokenType::Dot => "DOT".to_owned(),
            TokenType::Minus => "MINUS".to_owned(),
            TokenType::Plus => "PLUS".to_owned(),
            TokenType::Semicolon => "SEMICOLON".to_owned(),
            TokenType::Slash => "SLASH".to_owned(),
            TokenType::Star => "STAR".to_owned(),
            TokenType::Comparator { kind, equal } => {
                let mut name = kind.to_string();
                if *equal {
                    name.append("_EQUAL");
                }
                name
            },
            TokenType::Identifier => "IDENTIFIER".to_owned(),
            TokenType::String => "STRING".to_owned(),
            TokenType::Number => "NUMBER".to_owned(),
            TokenType::Keyword(keyword) => keyword.to_string(),
            TokenType::Eof => "EOF".to_owned(),
        }
    }
}

#[derive(Clone, Copy, Debug, PartialEq, Eq, Structural)]
pub enum LiteralType {
    String,
    Identifier,
    Number,
}

#[derive(Clone, Copy, Debug, PartialEq, Eq, Structural)]
pub enum DelimiterType {
    Comment,
    Literal(LiteralType),
}

/// What a character means where a lexeme may begin.
#[derive(Clone, Copy, Debug, PartialEq, Eq, Structural)]
pub enum TokenCharacter {
    Type(TokenType),
    Comparator(ComparatorType),
    Delimiter(DelimiterType),
    Whitespace,
    Tab,
    CarriageReturn,
    Newline,
}

/// A character with which no lexeme begins.
#[derive(Clone, Copy, Debug)]
pub struct Unexpected<'a>(pub &'a char);

pub open spec fn is_digit_char(c: char) -> bool {
    '0' <= c <= '9'
}

pub open spec fn is_alpha_char(c: char) -> bool {
    'a' <= c <= 'z' || 'A' <= c <= 'Z' || c == '_'
}

/// The meaning of a character at the start of a lexeme; `None` where no
/// lexeme begins with it.
pub open spec fn classify(c: char) -> Option<TokenCharacter> {
    if c == '(' {
        Some(TokenCharacter::Type(TokenType::Paren(Direction::Left)))
    } else if c == ')' {
        Some(TokenCharacter::Type(TokenType::Paren(Direction::Right)))
    } else if c == '{' {
        Some(TokenCharacter::Type(TokenType::Brace(Direction::Left)))
    } else if c == '}' {
        Some(TokenCharacter::Type(TokenType::Brace(Direction::Right)))
    } else if c == ',' {
        Some(TokenCharacter::Type(TokenType::Comma))
    } else if c == '.' {
        Some(TokenCharacter::Type(TokenType::Dot))
    } else if c == '-' {
        Some(TokenCharacter::Type(TokenType::Minus))
    } else if c == '+' {
        Some(TokenCharacter::Type(TokenType::Plus))
    } else if c == ';' {
        Some(TokenCharacter::Type(TokenType::Semicolon))
    } else if c == '*' {
        Some(TokenCharacter::Type(TokenType::Star))
    } else if c == '!' {
        Some(TokenCharacter::Comparator(ComparatorType::Bang))
    } else if c == '=' {
        Some(TokenCharacter::Comparator(ComparatorType::Equal))
    } else if c == '<' {
        Some(TokenCharacter::Comparator(ComparatorType::Less))
    } else if c == '>' {
        Some(TokenCharacter::Comparator(ComparatorType::Greater))
    } else if c == ' ' {
        Some(TokenCharacter::Whitespace)
    } else if c == '\r' {
        Some(TokenCharacter::CarriageReturn)
    } else if c == '\t' {
        Some(TokenCharacter::Tab)
    } else if c == '\n' {
        Some(TokenCharacter::Newline)
    } else if c == '/' {
        Some(TokenCharacter::Delimiter(DelimiterType::Comment))
    } else if c == '"' {
        Some(TokenCharacter::Delimiter(DelimiterType::Literal(LiteralType::String)))
    } else if is_digit_char(c) {
        Some(TokenCharacter::Delimiter(DelimiterType::Literal(LiteralType::Number)))
    } else if is_alpha_char(c) {
        Some(TokenCharacter::Delimiter(DelimiterType::Literal(LiteralType::Identifier)))
    } else {
        None
    }
}

impl TokenCharacter {
    /// Classifies the first character of a lexeme, or hands it back as
    /// unexpected.
    pub fn try_from<'a>(value: &'a char) -> (r: Result<TokenCharacter, Unexpected<'a>>)
        ensures
            match classify(*value) {
                Some(meaning) => r == Ok::<TokenCharacter, Unexpected<'a>>(meaning),
                None => r is Err && *r->Err_0.0 == *value,
            },
    {
        let c = *value;
        if c == '(' {
            Ok(TokenCharacter::Type(TokenType::Paren(Direction::Left)))
        } else if c == ')' {
            Ok(TokenCharacter::Type(TokenType::Paren(Direction::Right)))
        } else if c == '{' {
            Ok(TokenCharacter::Type(TokenType::Brace(Direction::Left)))
        } else if c == '}' {
            Ok(TokenCharacter::Type(TokenType::Brace(Direction::Right)))
        } else if c == ',' {
            Ok(TokenCharacter::Type(TokenType::Comma))
        } else if c == '.' {
            Ok(TokenCharacter::Type(TokenType::Dot))
        } else if c == '-' {
            Ok(TokenCharacter::Type(TokenType::Minus))
        } else if c == '+' {
            Ok(TokenCharacter::Type(TokenType::Plus))
        } else if c == ';' {
            Ok(TokenCharacter::Type(TokenType::Semicolon))
        } else if c == '*' {
            Ok(TokenCharacter::Type(TokenType::Star))
        } else if c == '!' {
            Ok(TokenCharacter::Comparator(ComparatorType::Bang))
        } else if c == '=' {
            Ok(TokenCharacter::Comparator(ComparatorType::Equal))
        } else if c == '<' {
            Ok(TokenCharacter::Comparator(ComparatorType::Less))
        } else if c == '>' {
            Ok(TokenCharacter::Comparator(ComparatorType::Greater))
        } else if c == ' ' {
            Ok(TokenCharacter::Whitespace)
        } else if c == '\r' {
            Ok(TokenCharacter::CarriageReturn)
        } else if c == '\t' {
            Ok(TokenCharacter::Tab)
        } else if c == '\n' {
            Ok(TokenCharacter::Newline)
        } else if c == '/' {
            Ok(TokenCharacter::Delimiter(DelimiterType::Comment))
        } else if c == '"' {
            Ok(TokenCharacter::Delimiter(DelimiterType::Literal(LiteralType::String)))
        } else if '0' <= c && c <= '9' {
            Ok(TokenCharacter::Delimiter(DelimiterType::Literal(LiteralType::Number)))
        } else if ('a' <= c && c <= 'z') || ('A' <= c && c <= 'Z') || c == '_' {
            Ok(TokenCharacter::Delimiter(DelimiterType::Literal(LiteralType::Identifier)))
        } else {
            Err(Unexpected(value))
        }
    }
}

/// Appends one character to a text: [`String::push`], which puts the
/// character behind the ones that the text holds and changes nothing else.
#[verifier::external_body]
pub(crate) fn push_char(text: &mut String, c: char)
    ensures
        final(text)@ == old(text)@.push(c),
{
    text.push(c)
}

/// The text that holds the characters of `chars` from `from` up to, not
/// including, `to`.
pub fn text_of(chars: &Vec<char>, from: usize, to: usize) -> (r: String)
    requires
        from <= to <= chars.len(),
    ensures
        r@ == chars@.subrange(from as int, to as int),
{
    let mut text = String::new();
    let mut i: usize = from;
    while i < to
        invariant
            from <= i <= to,
            to <= chars.len(),
            text@ == chars@.subrange(from as int, i as int),
        decreases to - i,
    {
        push_char(&mut text, chars[i]);
        i = i + 1;
        assert(text@ =~= chars@.subrange(from as int, i as int));
    }
    text
}

/// The characters of a text, one by one.
pub fn characters(text: &str) -> (r: Vec<char>)
    ensures
        r@ == text@,
{
    broadcast use vstd::string::group_string_axioms;

    let mut chars: Vec<char> = Vec::new();
    for c in rest: text.chars()
        invariant
            rest.seq() == text@,
            chars@ == rest.seq().take(rest.index()),
    {
        chars.push(c);
        assert(chars@ =~= rest.seq().take(rest.index() + 1));
    }
    assert(chars@ =~= text@);
    chars
}

/// Whether `a` stands before `b` in the order of the dictionary: at the
/// first place where they differ `a` has the smaller character, or `a` ends
/// there and `b` goes on.
pub open spec fn text_before(a: Seq<char>, b: Seq<char>) -> bool
    decreases a.len(),
{
    if b.len() == 0 {
        false
    } else if a.len() == 0 {
        true
    } else if a[0] != b[0] {
        a[0] < b[0]
    } else {
        text_before(a.drop_first(), b.drop_first())
    }
}

/// No text stands before itself, and of two different texts exactly one
/// stands before the other.
pub proof fn lemma_text_order(a: Seq<char>, b: Seq<char>)
    ensures
        !text_before(a, a),
        a != b ==> text_before(a, b) != text_before(b, a),
        a == b ==> !text_before(a, b),
    decreases a.len(),
{
    if a.len() > 0 {
        lemma_text_order(a.drop_first(), a.drop_first());
    }
    if a.len() > 0 && b.len() > 0 {
        lemma_text_order(a.drop_first(), b.drop_first());
        if a[0] == b[0] && a != b {
            assert(a.drop_first() != b.drop_first()) by {
                if a.drop_first() == b.drop_first() {
                    assert(a =~= seq![a[0]] + a.drop_first());
                    assert(b =~= seq![b[0]] + b.drop_first());
                }
            }
        }
    } else if a != b {
        assert(a.len() != b.len()) by {
            if a.len() == b.len() {
                assert(a =~= b);
            }
        }
    }
}

/// A literal that can stand as a token's payload.
pub trait Literal {
    /// The characters that the literal shows as.
    spec fn shown(&self) -> Seq<char>;
}

/// A literal that knows its payload.
pub trait PrimaryLiteral: Literal {
    fn to_literal_value(&self) -> (r: LiteralValue)
        ensures
            forall|show: NumberText| #[trigger] r@.shown(show) == self.shown(),
    ;
}

/// The text of a string literal, without its quotes.
#[derive(Clone, Debug, Default, PartialEq, Eq, PartialOrd, Ord)]
pub struct StringValue(pub String);

impl View for StringValue {
    type V = Seq<char>;

    open spec fn view(&self) -> Seq<char> {
        self.0@
    }
}

impl<'a> From<&'a str> for StringValue {
    fn from(value: &'a str) -> (r: StringValue)
        ensures
            r@ == value@,
    {
        StringValue(value.to_owned())
    }
}

/// The conversion allocates, so its result is stated by its view.
impl<'a> vstd::std_specs::convert::FromSpecImpl<&'a str> for StringValue {
    open spec fn obeys_from_spec() -> bool {
        false
    }

    open spec fn from_spec(value: &'a str) -> StringValue {
        arbitrary()
    }
}

impl StringValue {
    pub fn as_str(&self) -> (r: &str)
        ensures
            r@ == self@,
    {
        self.0.as_str()
    }

    pub fn to_string(&self) -> (r: String)
        ensures
            r@ == self@,
    {
        self.0.clone()
    }

    /// Whether this text stands before `other` in the order of the
    /// dictionary.
    pub fn before(&self, other: &StringValue) -> (r: bool)
        ensures
            r == text_before(self@, other@),
    {
        let a = characters(self.0.as_str());
        let b = characters(other.0.as_str());
        let mut i: usize = 0;
        assert(a@.skip(0) =~= a@ && b@.skip(0) =~= b@);
        while i < a.len() && i < b.len()
            invariant
                i <= a.len(),
                i <= b.len(),
                a@ == self@,
                b@ == other@,
                text_before(self@, other@) == text_before(a@.skip(i as int), b@.skip(i as int)),
            decreases a.len() - i,
        {
            let ghost x = a@.skip(i as int);
            let ghost y = b@.skip(i as int);
            assert(x[0] == a@[i as int] && y[0] == b@[i as int]);
            assert(x.drop_first() =~= a@.skip(i + 1));
            assert(y.drop_first() =~= b@.skip(i + 1));
            if a[i] != b[i] {
                return a[i] < b[i];
            }
            i = i + 1;
        }
        assert(a@.skip(i as int).len() == a.len() - i);
        assert(b@.skip(i as int).len() == b.len() - i);
        i < b.len()
    }

    /// A copy that holds the same characters.
    pub fn duplicate(&self) -> (r: StringValue)
        ensures
            r == *self,
    {
        StringValue(self.0.clone())
    }
}

impl Literal for StringValue {
    open spec fn shown(&self) -> Seq<char> {
        self@
    }
}

impl PrimaryLiteral for StringValue {
    fn to_literal_value(&self) -> (r: LiteralValue) {
        LiteralValue::String(self.duplicate())
    }
}

/// The name that an identifier token spells.
#[derive(Clone, Debug, Default, PartialEq, Eq, PartialOrd, Ord)]
pub struct StringIdentifier(pub String);

impl View for StringIdentifier {
    type V = Seq<char>;

    open spec fn view(&self) -> Seq<char> {
        self.0@
    }
}

impl StringIdentifier {
    pub fn as_str(&self) -> (r: &str)
        ensures
            r@ == self@,
    {
        self.0.as_str()
    }

    pub fn to_string(&self) -> (r: String)
        ensures
            r@ == self@,
    {
        self.0.clone()
    }

    /// A copy that holds the same characters.
    pub fn duplicate(&self) -> (r: StringIdentifier)
        ensures
            r == *self,
    {
        StringIdentifier(self.0.clone())
    }
}

impl Literal for StringIdentifier {
    open spec fn shown(&self) -> Seq<char> {
        self@
    }
}

impl PrimaryLiteral for StringIdentifier {
    fn to_literal_value(&self) -> (r: LiteralValue) {
        LiteralValue::Identifier(self.duplicate())
    }
}

/// The payload of a token. A number is the bit pattern of a single-precision
/// value.
#[derive(Clone, Debug)]
pub enum LiteralValue {
    Identifier(StringIdentifier),
    String(StringValue),
    Number(u32),
}

/// A payload as contracts see it.
pub enum LiteralView {
    Identifier(Seq<char>),
    String(Seq<char>),
    Number(u32),
}

impl LiteralView {
    /// The characters that the payload shows as: those of a name or of a
    /// text, and for a number what `show` prints.
    pub open spec fn shown(self, show: NumberText) -> Seq<char> {
        match self {
            LiteralView::Identifier(name) => name,
            LiteralView::String(text) => text,
            LiteralView::Number(bits) => show(bits),
        }
    }
}

impl View for LiteralValue {
    type V = LiteralView;

    open spec fn view(&self) -> LiteralView {
        match self {
            LiteralValue::Identifier(name) => LiteralView::Identifier(name@),
            LiteralValue::String(text) => LiteralView::String(text@),
            LiteralValue::Number(bits) => LiteralView::Number(*bits),
        }
    }
}

/// A payload that may be missing.
#[derive(Clone, Debug, Default)]
pub struct NullableLiteral(pub Option<LiteralValue>);

impl View for NullableLiteral {
    type V = Option<LiteralView>;

    open spec fn view(&self) -> Option<LiteralView> {
        match self.0 {
            Some(value) => Some(value@),
            None => None,
        }
    }
}

impl From<LiteralValue> for NullableLiteral {
    fn from(value: LiteralValue) -> (r: NullableLiteral) {
        NullableLiteral(Some(value))
    }
}

impl vstd::std_specs::convert::FromSpecImpl<LiteralValue> for NullableLiteral {
    open spec fn obeys_from_spec() -> bool {
        true
    }

    open spec fn from_spec(value: LiteralValue) -> NullableLiteral {
        NullableLiteral(Some(value))
    }
}

impl NullableLiteral {
    pub fn new(literal: LiteralValue) -> (r: NullableLiteral)
        ensures
            r.0 == Some(literal),
    {
        NullableLiteral(Some(literal))
    }

    pub fn as_option(&self) -> (r: &Option<LiteralValue>)
        ensures
            *r == self.0,
    {
        &self.0
    }

    /// The payload as text: `null` for none, else what the payload shows as.
    pub open spec fn shown(&self, show: NumberText) -> Seq<char> {
        match self.0 {
            None => "null"@,
            Some(literal) => literal@.shown(show),
        }
    }

    /// The payload as text; `show` prints a number.
    pub fn to_string<S: Fn(u32) -> String>(&self, show: &S) -> (r: String)
        requires
            show_ready(show),
        ensures
            r@ == self.shown(shows(show)),
    {
        match &self.0 {
            None => "null".to_owned(),
            Some(LiteralValue::Number(bits)) => number_text(*bits, show),
            Some(LiteralValue::String(value)) => value.to_string(),
            Some(LiteralValue::Identifier(name)) => name.to_string(),
        }
    }
}

/// One lexeme of the source, with its kind, its payload and the line on which
/// it ends.
#[derive(Clone, Debug)]
pub struct Token {
    pub kind: TokenType,
    pub lexeme: String,
    pub literal: NullableLiteral,
    pub line: usize,
}

/// A token as contracts see it.
pub struct TokenView {
    pub kind: TokenType,
    pub lexeme: Seq<char>,
    pub literal: Option<LiteralView>,
    pub line: usize,
}

impl View for Token {
    type V = TokenView;

    open spec fn view(&self) -> TokenView {
        TokenView { kind: self.kind, lexeme: self.lexeme@, literal: self.literal@, line: self.line }
    }
}

impl Token {
    pub fn new(kind: TokenType, lexeme: &str, literal: Option<LiteralValue>, line: usize) -> (r:
        Token)
        ensures
            r.kind == kind,
            r.lexeme@ == lexeme@,
            r.literal.0 == literal,
            r.line == line,
    {
        Token { kind, lexeme: lexeme.to_owned(), literal: NullableLiteral(literal), line }
    }

    /// The token on one line: the name of its kind, its lexeme and its
    /// payload, with a blank between them.
    pub open spec fn shown(&self, show: NumberText) -> Seq<char> {
        self.kind.label() + " "@ + self.lexeme@ + " "@ + self.literal.shown(show)
    }

    /// The token on one line; `show` prints a number.
    pub fn to_string<S: Fn(u32) -> String>(&self, show: &S) -> (r: String)
        requires
            show_ready(show),
        ensures
            r@ == self.shown(shows(show)),
    {
        let payload = self.literal.to_string(show);
        let mut line = self.kind.to_string();
        line.append(" ");
        line.append(self.lexeme.as_str());
        line.append(" ");
        line.append(payload.as_str());
        line
    }
}

} // verus!
