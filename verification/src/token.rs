//! Tokens: the lexical units handed from the tokenizer to the parser.

use vstd::prelude::*;
use crate::utils::str_eq;

verus! {

/// The kind of a token.
#[derive(Debug, Clone, Copy, PartialEq, Eq, Structural)]
pub enum TokenType {
    ILLEGAL,
    EOF,
    IDENT,
    INT,
    ASSIGN,
    PLUS,
    MINUS,
    BANG,
    ASTERISK,
    SLASH,
    EQ,
    NOTEQ,
    LT,
    GT,
    COMMA,
    SEMICOLON,
    LPAREN,
    RPAREN,
    LBRACE,
    RBRACE,
    FUNCTION,
    LET,
    TRUE,
    FALSE,
    IF,
    ELSE,
    RETURN,
}

/// A token: its kind and the source text it was read from.
#[derive(Debug, PartialEq, Eq)]
pub struct Token {
    pub token_type: TokenType,
    pub literal: String,
}

/// The mathematical model of a token.
pub struct TokenModel {
    pub token_type: TokenType,
    pub literal: Seq<char>,
}

impl View for Token {
    type V = TokenModel;

    open spec fn view(&self) -> TokenModel {
        TokenModel { token_type: self.token_type, literal: self.literal@ }
    }
}

/// The kind of the token that consists of the single character `c`.
/// The NUL character stands for the end of the input.
pub open spec fn spec_from_char(c: char) -> TokenType {
    if c == '+' {
        TokenType::PLUS
    } else if c == '-' {
        TokenType::MINUS
    } else if c == '/' {
        TokenType::SLASH
    } else if c == '*' {
        TokenType::ASTERISK
    } else if c == '<' {
        TokenType::LT
    } else if c == '>' {
        TokenType::GT
    } else if c == ',' {
        TokenType::COMMA
    } else if c == ';' {
        TokenType::SEMICOLON
    } else if c == '(' {
        TokenType::LPAREN
    } else if c == ')' {
        TokenType::RPAREN
    } else if c == '{' {
        TokenType::LBRACE
    } else if c == '}' {
        TokenType::RBRACE
    } else if c == '=' {
        TokenType::ASSIGN
    } else if c == '!' {
        TokenType::BANG
    } else if c == '\0' {
        TokenType::EOF
    } else {
        TokenType::ILLEGAL
    }
}

/// The kind of the token whose text is `s`: operators and punctuation by
/// their spelling, the seven keywords, the empty text for the end of the
/// input, and `IDENT` for everything else.
pub open spec fn spec_from_string(s: Seq<char>) -> TokenType {
    if s.len() == 0 {
        TokenType::EOF
    } else if s == seq!['=', '='] {
        TokenType::EQ
    } else if s == seq!['!', '='] {
        TokenType::NOTEQ
    } else if s == seq!['l', 'e', 't'] {
        TokenType::LET
    } else if s == seq!['f', 'n'] {
        TokenType::FUNCTION
    } else if s == seq!['t', 'r', 'u', 'e'] {
        TokenType::TRUE
    } else if s == seq!['f', 'a', 'l', 's', 'e'] {
        TokenType::FALSE
    } else if s == seq!['i', 'f'] {
        TokenType::IF
    } else if s == seq!['e', 'l', 's', 'e'] {
        TokenType::ELSE
    } else if s == seq!['r', 'e', 't', 'u', 'r', 'n'] {
        TokenType::RETURN
    } else if s.len() == 1 && s[0] != '\0' && spec_from_char(s[0]) != TokenType::ILLEGAL {
        spec_from_char(s[0])
    } else {
        TokenType::IDENT
    }
}

impl Token {
    pub fn new(token_type: TokenType, literal: &str) -> (t: Token)
        ensures
            t@ == (TokenModel { token_type, literal: literal@ }),
    {
        Token { token_type, literal: String::from_str(literal) }
    }

    /// A copy of this token.
    pub fn duplicate(&self) -> (t: Token)
        ensures
            t == *self,
    {
        Token { token_type: self.token_type, literal: self.literal.clone() }
    }

    pub fn from_char(c: char) -> (t: TokenType)
        ensures
            t == spec_from_char(c),
    {
        match c {
            '+' => TokenType::PLUS,
            '-' => TokenType::MINUS,
            '/' => TokenType::SLASH,
            '*' => TokenType::ASTERISK,
            '<' => TokenType::LT,
            '>' => TokenType::GT,
            ',' => TokenType::COMMA,
            ';' => TokenType::SEMICOLON,
            '(' => TokenType::LPAREN,
            ')' => TokenType::RPAREN,
            '{' => TokenType::LBRACE,
            '}' => TokenType::RBRACE,
            '=' => TokenType::ASSIGN,
            '!' => TokenType::BANG,
            '\0' => TokenType::EOF,
            _ => TokenType::ILLEGAL,
        }
    }

    pub fn fron_string(s: &str) -> (t: TokenType)
        ensures
            t == spec_from_string(s@),
    {
        let n: usize = s.unicode_len();
        if n == 0 {
            return TokenType::EOF;
        }
        proof {
            reveal_strlit("==");
            reveal_strlit("!=");
            reveal_strlit("let");
            reveal_strlit("fn");
            reveal_strlit("true");
            reveal_strlit("false");
            reveal_strlit("if");
            reveal_strlit("else");
            reveal_strlit("return");
            assert("=="@ =~= seq!['=', '=']);
            assert("!="@ =~= seq!['!', '=']);
            assert("let"@ =~= seq!['l', 'e', 't']);
            assert("fn"@ =~= seq!['f', 'n']);
            assert("true"@ =~= seq!['t', 'r', 'u', 'e']);
            assert("false"@ =~= seq!['f', 'a', 'l', 's', 'e']);
            assert("if"@ =~= seq!['i', 'f']);
            assert("else"@ =~= seq!['e', 'l', 's', 'e']);
            assert("return"@ =~= seq!['r', 'e', 't', 'u', 'r', 'n']);
        }
        if str_eq(s, "==") {
            TokenType::EQ
        } else if str_eq(s, "!=") {
            TokenType::NOTEQ
        } else if str_eq(s, "let") {
            TokenType::LET
        } else if str_eq(s, "fn") {
            TokenType::FUNCTION
        } else if str_eq(s, "true") {
            TokenType::TRUE
        } else if str_eq(s, "false") {
            TokenType::FALSE
        } else if str_eq(s, "if") {
            TokenType::IF
        } else if str_eq(s, "else") {
            TokenType::ELSE
        } else if str_eq(s, "return") {
            TokenType::RETURN
        } else if n == 1 {
            let c: char = s.get_char(0);
            let t: TokenType = Token::from_char(c);
            if c != '\0' && t != TokenType::ILLEGAL {
                t
            } else {
                TokenType::IDENT
            }
        } else {
            TokenType::IDENT
        }
    }
}

impl Clone for Token {
    fn clone(&self) -> (t: Self)
        ensures
            t == *self,
    {
        self.duplicate()
    }
}

} // verus!
