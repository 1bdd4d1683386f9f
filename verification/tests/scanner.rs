use lox_front::scanner::{
    add, decimal_text, evaluate_keyword, is_alpha, is_alpha_numeric, is_digit, Diagnostic, LexicalError, Scan,
    Scanner, TokenSource, Tokenizer,
};
use lox_front::token::{
    ComparatorType, Direction, KeywordType, LiteralValue, Token, TokenType,
};

fn parse(text: String) -> Option<u32> {
    text.parse::<f32>().ok().map(f32::to_bits)
}

fn scan(source: &str) -> Scan {
    Scanner::new(source).scan_tokens(&parse)
}

fn kinds(scan: &Scan) -> Vec<TokenType> {
    scan.tokens.iter().map(|token| token.kind).collect()
}

fn lexemes(scan: &Scan) -> Vec<String> {
    scan.tokens.iter().map(|token| token.lexeme.clone()).collect()
}

fn text_of(token: &Token) -> Option<String> {
    match &token.literal.0 {
        Some(LiteralValue::String(text)) => Some(text.to_string()),
        Some(LiteralValue::Identifier(name)) => Some(name.to_string()),
        _ => None,
    }
}

fn number_of(token: &Token) -> Option<f32> {
    match &token.literal.0 {
        Some(LiteralValue::Number(bits)) => Some(f32::from_bits(*bits)),
        _ => None,
    }
}

#[test]
fn it_works() {
    let source = "var language = \"lox\";";
    let scanner = Scanner::new(source);
    let tokens = scanner.scan_tokens(&parse).tokens;
    assert!(!tokens.is_empty());
    tokens.iter().for_each(|token| println!("{} {}", token.kind.to_string(), token.lexeme))
}

#[test]
fn var_declaration_yields_exactly_six_tokens() {
    let out = scan("var language = \"lox\";");
    assert_eq!(
        kinds(&out),
        vec![
            TokenType::Keyword(KeywordType::Var),
            TokenType::Identifier,
            TokenType::Comparator { kind: ComparatorType::Equal, equal: false },
            TokenType::String,
            TokenType::Semicolon,
            TokenType::Eof,
        ]
    );
    assert_eq!(lexemes(&out), vec!["var", "language", "=", "\"lox\"", ";", ""]);
    assert!(out.tokens[0].literal.0.is_none());
    assert_eq!(text_of(&out.tokens[1]), Some("language".to_string()));
    assert!(matches!(out.tokens[1].literal.0, Some(LiteralValue::Identifier(_))));
    assert!(out.tokens[2].literal.0.is_none());
    assert_eq!(text_of(&out.tokens[3]), Some("lox".to_string()));
    assert!(matches!(out.tokens[3].literal.0, Some(LiteralValue::String(_))));
    assert!(out.tokens[4].literal.0.is_none());
    assert!(out.tokens[5].literal.0.is_none());
    assert!(out.tokens.iter().all(|token| token.line == 1));
    assert!(out.diagnostics.is_empty());
}

#[test]
fn unterminated_string_yields_one_diagnostic_and_eof() {
    let out = scan("\"abc");
    assert_eq!(kinds(&out), vec![TokenType::Eof]);
    assert_eq!(
        out.diagnostics,
        vec![Diagnostic { line: 1, error: LexicalError::UnterminatedString }]
    );
    let out = scan("+ \"abc\ndef");
    assert_eq!(kinds(&out), vec![TokenType::Plus, TokenType::Eof]);
    assert_eq!(
        out.diagnostics,
        vec![Diagnostic { line: 2, error: LexicalError::UnterminatedString }]
    );
    assert_eq!(out.tokens[1].line, 2);
}

#[test]
fn line_comment_yields_no_token() {
    let out = scan("// anything\n+");
    assert_eq!(kinds(&out), vec![TokenType::Plus, TokenType::Eof]);
    assert_eq!(out.tokens[0].line, 2);
    assert_eq!(out.tokens[0].lexeme, "+");
    assert!(out.diagnostics.is_empty());
    let out = scan("// no newline at the end");
    assert_eq!(kinds(&out), vec![TokenType::Eof]);
    assert_eq!(out.tokens[0].line, 1);
}

#[test]
fn single_character_tokens() {
    let out = scan("(){},.-+;*/");
    assert_eq!(
        kinds(&out),
        vec![
            TokenType::Paren(Direction::Left),
            TokenType::Paren(Direction::Right),
            TokenType::Brace(Direction::Left),
            TokenType::Brace(Direction::Right),
            TokenType::Comma,
            TokenType::Dot,
            TokenType::Minus,
            TokenType::Plus,
            TokenType::Semicolon,
            TokenType::Star,
            TokenType::Slash,
            TokenType::Eof,
        ]
    );
    assert!(out.diagnostics.is_empty());
}

#[test]
fn comparators_with_and_without_equal() {
    let out = scan("! != = == < <= > >=");
    let comparator = |kind, equal| TokenType::Comparator { kind, equal };
    assert_eq!(
        kinds(&out),
        vec![
            comparator(ComparatorType::Bang, false),
            comparator(ComparatorType::Bang, true),
            comparator(ComparatorType::Equal, false),
            comparator(ComparatorType::Equal, true),
            comparator(ComparatorType::Less, false),
            comparator(ComparatorType::Less, true),
            comparator(ComparatorType::Greater, false),
            comparator(ComparatorType::Greater, true),
            TokenType::Eof,
        ]
    );
    assert_eq!(lexemes(&out), vec!["!", "!=", "=", "==", "<", "<=", ">", ">=", ""]);
    let out = scan("===");
    assert_eq!(lexemes(&out), vec!["==", "=", ""]);
}

#[test]
fn numbers_with_and_without_fraction() {
    let out = scan("12 3.25 7. .5 1.2.3");
    assert_eq!(lexemes(&out), vec!["12", "3.25", "7", ".", ".", "5", "1.2", ".", "3", ""]);
    assert_eq!(out.tokens[0].kind, TokenType::Number);
    assert_eq!(number_of(&out.tokens[0]), Some(12.0));
    assert_eq!(out.tokens[1].kind, TokenType::Number);
    assert_eq!(number_of(&out.tokens[1]), Some(3.25));
    assert_eq!(number_of(&out.tokens[2]), Some(7.0));
    assert_eq!(out.tokens[3].kind, TokenType::Dot);
    assert_eq!(number_of(&out.tokens[6]), Some(1.2));
    assert!(out.diagnostics.is_empty());
}

#[test]
fn number_payload_is_what_the_parser_made() {
    let fixed = |_text: String| Some(7u32);
    let out = Scanner::new("42").scan_tokens(&fixed);
    assert!(matches!(out.tokens[0].literal.0, Some(LiteralValue::Number(7))));
    let none = |_text: String| None;
    let out = Scanner::new("42").scan_tokens(&none);
    assert_eq!(out.tokens[0].kind, TokenType::Number);
    assert_eq!(out.tokens[0].lexeme, "42");
    assert!(out.tokens[0].literal.0.is_none());
    assert!(out.diagnostics.is_empty());
}

#[test]
fn keywords_and_identifiers() {
    let words = [
        ("and", KeywordType::And),
        ("class", KeywordType::Class),
        ("else", KeywordType::Else),
        ("false", KeywordType::False),
        ("fun", KeywordType::Fun),
        ("for", KeywordType::For),
        ("if", KeywordType::If),
        ("nil", KeywordType::Nil),
        ("or", KeywordType::Or),
        ("print", KeywordType::Print),
        ("return", KeywordType::Return),
        ("super", KeywordType::Super),
        ("this", KeywordType::This),
        ("true", KeywordType::True),
        ("var", KeywordType::Var),
        ("while", KeywordType::While),
    ];
    for (word, keyword) in words {
        let out = scan(word);
        assert_eq!(kinds(&out), vec![TokenType::Keyword(keyword), TokenType::Eof]);
        assert!(out.tokens[0].literal.0.is_none());
        assert_eq!(evaluate_keyword(word), Ok(keyword));
    }
    let out = scan("orchid _private x1 Var classy");
    assert_eq!(
        kinds(&out),
        vec![
            TokenType::Identifier,
            TokenType::Identifier,
            TokenType::Identifier,
            TokenType::Identifier,
            TokenType::Identifier,
            TokenType::Eof
        ]
    );
    assert_eq!(text_of(&out.tokens[0]), Some("orchid".to_string()));
    assert_eq!(text_of(&out.tokens[1]), Some("_private".to_string()));
    assert_eq!(text_of(&out.tokens[2]), Some("x1".to_string()));
    assert_eq!(evaluate_keyword("orchid"), Err("orchid".to_string()));
}

#[test]
fn strings_count_their_lines() {
    let out = scan("\"a\nb\" x\n\"\"");
    assert_eq!(kinds(&out), vec![TokenType::String, TokenType::Identifier, TokenType::String, TokenType::Eof]);
    assert_eq!(text_of(&out.tokens[0]), Some("a\nb".to_string()));
    assert_eq!(out.tokens[0].lexeme, "\"a\nb\"");
    assert_eq!(out.tokens[0].line, 2);
    assert_eq!(out.tokens[1].line, 2);
    assert_eq!(text_of(&out.tokens[2]), Some(String::new()));
    assert_eq!(out.tokens[2].line, 3);
    assert_eq!(out.tokens[3].line, 3);
}

#[test]
fn unexpected_characters_are_skipped() {
    let out = scan("@+#\n$");
    assert_eq!(kinds(&out), vec![TokenType::Plus, TokenType::Eof]);
    assert_eq!(
        out.diagnostics,
        vec![
            Diagnostic { line: 1, error: LexicalError::UnexpectedCharacter('@') },
            Diagnostic { line: 1, error: LexicalError::UnexpectedCharacter('#') },
            Diagnostic { line: 2, error: LexicalError::UnexpectedCharacter('$') },
        ]
    );
    assert_eq!(out.tokens[1].line, 2);
}

#[test]
fn text_beyond_ascii() {
    let out = scan("\"héllo\" é x");
    assert_eq!(kinds(&out), vec![TokenType::String, TokenType::Identifier, TokenType::Eof]);
    assert_eq!(text_of(&out.tokens[0]), Some("héllo".to_string()));
    assert_eq!(out.tokens[0].lexeme, "\"héllo\"");
    assert_eq!(
        out.diagnostics,
        vec![Diagnostic { line: 1, error: LexicalError::UnexpectedCharacter('é') }]
    );
}

#[test]
fn blank_space_and_empty_input() {
    let out = scan("");
    assert_eq!(kinds(&out), vec![TokenType::Eof]);
    assert_eq!(out.tokens[0].lexeme, "");
    assert_eq!(out.tokens[0].line, 1);
    let out = scan(" \t\r\n\n ");
    assert_eq!(kinds(&out), vec![TokenType::Eof]);
    assert_eq!(out.tokens[0].line, 3);
    assert!(out.diagnostics.is_empty());
}

#[test]
fn cursor_primitives() {
    let mut source = TokenSource::new("a=");
    assert!(!source.is_at_end());
    assert_eq!(source.peek(), Some('a'));
    assert_eq!(source.peek_next(), Some('='));
    assert!(!source.matches('='));
    assert_eq!(source.indices.current, 0);
    assert_eq!(source.advance(), Some('a'));
    assert_eq!(source.indices.current, 1);
    assert_eq!(source.peek_next(), Some('\0'));
    assert!(source.matches('='));
    assert_eq!(source.indices.current, 2);
    assert!(source.is_at_end());
    assert_eq!(source.peek(), Some('\0'));
    assert_eq!(source.peek_next(), Some('\0'));
    assert!(!source.matches('='));
    assert_eq!(source.advance(), None);
    assert_eq!(source.indices.current, 3);
    assert_eq!(source.indices.line, 1);
}

#[test]
fn lexeme_readers() {
    let mut source = TokenSource::new("\"hi\" foo 12.5");
    assert_eq!(source.advance(), Some('"'));
    let token = source.string().expect("a string");
    assert_eq!(token.kind, TokenType::String);
    assert_eq!(token.lexeme, "\"hi\"");
    assert_eq!(text_of(&token), Some("hi".to_string()));
    assert_eq!(source.advance(), Some(' '));
    source.indices.start = source.indices.current;
    assert_eq!(source.advance(), Some('f'));
    let token = source.identifier();
    assert_eq!(token.kind, TokenType::Identifier);
    assert_eq!(token.lexeme, "foo");
    assert_eq!(source.advance(), Some(' '));
    source.indices.start = source.indices.current;
    assert_eq!(source.advance(), Some('1'));
    let token = source.number(&parse);
    assert_eq!(token.kind, TokenType::Number);
    assert_eq!(token.lexeme, "12.5");
    assert_eq!(number_of(&token), Some(12.5));
    assert!(source.is_at_end());
}

#[test]
fn tokenizer_reads_one_lexeme_at_a_time() {
    let mut tokenizer = Tokenizer::new("<= @");
    assert_eq!(tokenizer.len, 4);
    let first = tokenizer.next(&parse).expect("no diagnostic").expect("a token");
    assert_eq!(first.kind, TokenType::Comparator { kind: ComparatorType::Less, equal: true });
    assert_eq!(first.lexeme, "<=");
    tokenizer.source.indices.start = tokenizer.source.indices.current;
    assert!(matches!(tokenizer.next(&parse), Ok(None)));
    tokenizer.source.indices.start = tokenizer.source.indices.current;
    let mut tokens = Vec::new();
    assert_eq!(
        tokenizer.scan_token(&mut tokens, &parse),
        Some(Diagnostic { line: 1, error: LexicalError::UnexpectedCharacter('@') })
    );
    assert!(tokens.is_empty());
    assert!(tokenizer.source.is_at_end());
    assert!(matches!(tokenizer.next(&parse), Ok(None)));
    assert_eq!(tokenizer.source.indices.current, 4);
}

#[test]
fn character_classes() {
    assert!(is_digit(&'0') && is_digit(&'9') && !is_digit(&'a') && !is_digit(&'/'));
    assert!(is_alpha(&'a') && is_alpha(&'Z') && is_alpha(&'_') && !is_alpha(&'1'));
    assert!(is_alpha_numeric(&'a') && is_alpha_numeric(&'5') && !is_alpha_numeric(&' '));
    assert!(!is_alpha(&'é') && !is_digit(&'٣'));
}

#[test]
fn add_adds() {
    assert_eq!(add(2, 2), 4);
    assert_eq!(add(u64::MAX - 1, 1), u64::MAX);
}

#[test]
fn diagnostics_as_text() {
    let out = scan("\n\n@ \"abc");
    let lines: Vec<String> = out.diagnostics.iter().map(|d| d.to_string()).collect();
    assert_eq!(lines, vec!["3 Unexpected character: @", "3 Unterminated string"]);
    let far = Diagnostic { line: 1204, error: LexicalError::UnexpectedCharacter('é') };
    assert_eq!(far.to_string(), "1204 Unexpected character: é");
    assert_eq!(LexicalError::UnterminatedString.to_string(), "Unterminated string");
}

#[test]
fn numbers_in_decimal() {
    assert_eq!(decimal_text(0), "0");
    assert_eq!(decimal_text(7), "7");
    assert_eq!(decimal_text(10), "10");
    assert_eq!(decimal_text(1234567890), "1234567890");
    assert_eq!(decimal_text(usize::MAX), usize::MAX.to_string());
}
