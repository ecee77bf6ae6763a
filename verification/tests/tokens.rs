use lolo::lexer::Lexer;
use lolo::token::{Token, TokenType};
use lolo::utils::{is_blank, is_digit, is_letter, parse_integer, str_eq};

fn kinds(input: &str, count: usize) -> Vec<(TokenType, String)> {
    let mut lexer = Lexer::new(input);
    let mut out = Vec::new();
    for _ in 0..count {
        let t = lexer.next_token();
        out.push((t.token_type, t.literal));
    }
    out
}

#[test]
fn end_of_input_repeats_forever() {
    let mut lexer = Lexer::new("x");
    assert_eq!(lexer.next_token().token_type, TokenType::IDENT);
    for _ in 0..5 {
        let t = lexer.next_token();
        assert_eq!(t.token_type, TokenType::EOF);
        assert_eq!(t.literal, "\0");
        assert_eq!(lexer.position(), 1);
    }
}

#[test]
fn empty_input_is_end_of_input() {
    let mut lexer = Lexer::new("");
    assert_eq!(lexer.next_token().token_type, TokenType::EOF);
    assert_eq!(lexer.next_token().token_type, TokenType::EOF);
    let mut blank = Lexer::new(" \t\n ");
    assert_eq!(blank.next_token().token_type, TokenType::EOF);
    assert_eq!(blank.position(), 4);
}

#[test]
fn other_characters_are_illegal_tokens() {
    let tokens = kinds("@ # é 7", 5);
    assert_eq!(tokens[0], (TokenType::ILLEGAL, "@".to_string()));
    assert_eq!(tokens[1], (TokenType::ILLEGAL, "#".to_string()));
    assert_eq!(tokens[2], (TokenType::ILLEGAL, "é".to_string()));
    assert_eq!(tokens[3], (TokenType::INT, "7".to_string()));
    assert_eq!(tokens[4], (TokenType::EOF, "\0".to_string()));
}

#[test]
fn carriage_return_is_not_blank() {
    let tokens = kinds("a\rb", 3);
    assert_eq!(tokens[0], (TokenType::IDENT, "a".to_string()));
    assert_eq!(tokens[1], (TokenType::ILLEGAL, "\r".to_string()));
    assert_eq!(tokens[2], (TokenType::IDENT, "b".to_string()));
}

#[test]
fn two_character_operators_need_one_character_of_lookahead() {
    let tokens = kinds("= == ! != =! ===", 9);
    let expected = vec![
        (TokenType::ASSIGN, "="),
        (TokenType::EQ, "=="),
        (TokenType::BANG, "!"),
        (TokenType::NOTEQ, "!="),
        (TokenType::ASSIGN, "="),
        (TokenType::BANG, "!"),
        (TokenType::EQ, "=="),
        (TokenType::ASSIGN, "="),
        (TokenType::EOF, "\0"),
    ];
    for (got, want) in tokens.iter().zip(expected.iter()) {
        assert_eq!(got.0, want.0);
        assert_eq!(got.1, want.1);
    }
}

#[test]
fn identifiers_are_maximal_runs_of_letters() {
    let tokens = kinds("letx fnn foo_bar _ iff 12ab", 8);
    let expected = vec![
        (TokenType::IDENT, "letx"),
        (TokenType::IDENT, "fnn"),
        (TokenType::IDENT, "foo_bar"),
        (TokenType::IDENT, "_"),
        (TokenType::IDENT, "iff"),
        (TokenType::INT, "12"),
        (TokenType::IDENT, "ab"),
        (TokenType::EOF, "\0"),
    ];
    for (got, want) in tokens.iter().zip(expected.iter()) {
        assert_eq!(got.0, want.0);
        assert_eq!(got.1, want.1);
    }
}

#[test]
fn every_keyword_is_recognised() {
    let tokens = kinds("fn let true false if else return", 7);
    let expected = vec![
        TokenType::FUNCTION,
        TokenType::LET,
        TokenType::TRUE,
        TokenType::FALSE,
        TokenType::IF,
        TokenType::ELSE,
        TokenType::RETURN,
    ];
    for (got, want) in tokens.iter().zip(expected.iter()) {
        assert_eq!(got.0, *want);
    }
}

#[test]
fn every_operator_is_recognised() {
    let tokens = kinds("+-*/<>,;(){}", 12);
    let expected = vec![
        TokenType::PLUS,
        TokenType::MINUS,
        TokenType::ASTERISK,
        TokenType::SLASH,
        TokenType::LT,
        TokenType::GT,
        TokenType::COMMA,
        TokenType::SEMICOLON,
        TokenType::LPAREN,
        TokenType::RPAREN,
        TokenType::LBRACE,
        TokenType::RBRACE,
    ];
    for (got, want) in tokens.iter().zip(expected.iter()) {
        assert_eq!(got.0, *want);
    }
}

#[test]
fn nul_character_reads_as_end_of_input_and_is_passed() {
    let tokens = kinds("a\0b", 4);
    assert_eq!(tokens[0], (TokenType::IDENT, "a".to_string()));
    assert_eq!(tokens[1], (TokenType::EOF, "\0".to_string()));
    assert_eq!(tokens[2], (TokenType::IDENT, "b".to_string()));
    assert_eq!(tokens[3], (TokenType::EOF, "\0".to_string()));
}

#[test]
fn lexer_position_counts_characters() {
    let mut lexer = Lexer::new("  éé + 1");
    assert_eq!(lexer.position(), 0);
    lexer.skip_whitespace();
    assert_eq!(lexer.position(), 2);
    lexer.next_token();
    assert_eq!(lexer.position(), 3);
    lexer.next_token();
    assert_eq!(lexer.position(), 4);
    lexer.next_token();
    assert_eq!(lexer.position(), 6);
    lexer.next_token();
    assert_eq!(lexer.position(), 8);
}

#[test]
fn token_kind_of_a_character() {
    assert_eq!(Token::from_char('+'), TokenType::PLUS);
    assert_eq!(Token::from_char('='), TokenType::ASSIGN);
    assert_eq!(Token::from_char('!'), TokenType::BANG);
    assert_eq!(Token::from_char('}'), TokenType::RBRACE);
    assert_eq!(Token::from_char('\0'), TokenType::EOF);
    assert_eq!(Token::from_char('a'), TokenType::ILLEGAL);
    assert_eq!(Token::from_char('5'), TokenType::ILLEGAL);
    assert_eq!(Token::from_char(' '), TokenType::ILLEGAL);
}

#[test]
fn token_kind_of_a_text() {
    assert_eq!(Token::fron_string(""), TokenType::EOF);
    assert_eq!(Token::fron_string("=="), TokenType::EQ);
    assert_eq!(Token::fron_string("!="), TokenType::NOTEQ);
    assert_eq!(Token::fron_string("="), TokenType::ASSIGN);
    assert_eq!(Token::fron_string("*"), TokenType::ASTERISK);
    assert_eq!(Token::fron_string("let"), TokenType::LET);
    assert_eq!(Token::fron_string("fn"), TokenType::FUNCTION);
    assert_eq!(Token::fron_string("return"), TokenType::RETURN);
    assert_eq!(Token::fron_string("returns"), TokenType::IDENT);
    assert_eq!(Token::fron_string("x"), TokenType::IDENT);
    assert_eq!(Token::fron_string("\0"), TokenType::IDENT);
    assert_eq!(Token::fron_string("=+"), TokenType::IDENT);
    assert_eq!(Token::fron_string("12"), TokenType::IDENT);
}

#[test]
fn token_new_keeps_kind_and_text() {
    let t = Token::new(TokenType::IDENT, "abc");
    assert_eq!(t.token_type, TokenType::IDENT);
    assert_eq!(t.literal, "abc");
    let copy = t.duplicate();
    assert_eq!(copy, t);
}

#[test]
fn character_classes() {
    assert!(is_letter('a') && is_letter('Z') && is_letter('_'));
    assert!(!is_letter('1') && !is_letter('é') && !is_letter(' '));
    assert!(is_digit('0') && is_digit('9') && !is_digit('a') && !is_digit('/'));
    assert!(is_blank(' ') && is_blank('\n') && is_blank('\t') && !is_blank('\r'));
}

#[test]
fn strings_compare_by_characters() {
    assert!(str_eq("", ""));
    assert!(str_eq("abc", "abc"));
    assert!(!str_eq("abc", "abd"));
    assert!(!str_eq("abc", "ab"));
    assert!(str_eq("éa", "éa"));
}

#[test]
fn decimal_integers_are_read_exactly() {
    assert_eq!(parse_integer("0"), Some(0));
    assert_eq!(parse_integer("007"), Some(7));
    assert_eq!(parse_integer("89898989"), Some(89898989));
    assert_eq!(parse_integer("9223372036854775807"), Some(i64::MAX));
    assert_eq!(parse_integer("9223372036854775808"), None);
    assert_eq!(parse_integer("99999999999999999999999"), None);
    assert_eq!(parse_integer(""), None);
    assert_eq!(parse_integer("12a"), None);
    assert_eq!(parse_integer("-1"), None);
}
