//! The tokenizer: pulls one token at a time out of the source text.

use vstd::prelude::*;
use crate::token::{spec_from_char, spec_from_string, Token, TokenModel, TokenType};
use crate::utils::{is_blank, is_digit, is_letter, spec_is_blank, spec_is_digit, spec_is_letter};

verus! {

/// The character at `position`, or NUL beyond the end of the input.
pub open spec fn spec_char_at(input: Seq<char>, position: int) -> char {
    if 0 <= position < input.len() {
        input[position]
    } else {
        '\0'
    }
}

/// The first position at or after `position` that holds no blank character.
pub open spec fn spec_skip_blanks(input: Seq<char>, position: nat) -> nat
    decreases input.len() - position,
{
    if position < input.len() && spec_is_blank(input[position as int]) {
        spec_skip_blanks(input, position + 1)
    } else {
        position
    }
}

/// The first position at or after `position` that holds no letter.
pub open spec fn spec_letters_end(input: Seq<char>, position: nat) -> nat
    decreases input.len() - position,
{
    if position < input.len() && spec_is_letter(input[position as int]) {
        spec_letters_end(input, position + 1)
    } else {
        position
    }
}

/// The first position at or after `position` that holds no digit.
pub open spec fn spec_digits_end(input: Seq<char>, position: nat) -> nat
    decreases input.len() - position,
{
    if position < input.len() && spec_is_digit(input[position as int]) {
        spec_digits_end(input, position + 1)
    } else {
        position
    }
}

/// One step of the tokenizer: the token read, where it starts, and the
/// position behind it.
pub struct Lexed {
    pub token: TokenModel,
    pub start: nat,
    pub position: nat,
}

/// The token that starts at the first non-blank position at or after
/// `position`.
///
/// `==` and `!=` are recognised with one character of lookahead, a letter
/// starts the longest run of letters (a keyword or an identifier), a digit
/// starts the longest run of digits, and any other character is a token by
/// itself. At the end of the input the token is `EOF`, spelled as one NUL
/// character, and the position stays where it is.
#[verifier::opaque]
pub open spec fn spec_next_token(input: Seq<char>, position: nat) -> Lexed {
    let start = spec_skip_blanks(input, position);
    let c = spec_char_at(input, start as int);
    if c == '=' && spec_char_at(input, start as int + 1) == '=' {
        Lexed {
            token: TokenModel { token_type: TokenType::EQ, literal: seq!['=', '='] },
            start,
            position: start + 2,
        }
    } else if c == '!' && spec_char_at(input, start as int + 1) == '=' {
        Lexed {
            token: TokenModel { token_type: TokenType::NOTEQ, literal: seq!['!', '='] },
            start,
            position: start + 2,
        }
    } else if spec_is_letter(c) {
        let end = spec_letters_end(input, start);
        let literal = input.subrange(start as int, end as int);
        Lexed {
            token: TokenModel { token_type: spec_from_string(literal), literal },
            start,
            position: end,
        }
    } else if spec_is_digit(c) {
        let end = spec_digits_end(input, start);
        Lexed {
            token: TokenModel {
                token_type: TokenType::INT,
                literal: input.subrange(start as int, end as int),
            },
            start,
            position: end,
        }
    } else {
        Lexed {
            token: TokenModel { token_type: spec_from_char(c), literal: seq![c] },
            start,
            position: if start < input.len() {
                start + 1
            } else {
                start
            },
        }
    }
}

/// Skipping blanks never moves backwards nor past the end, stops on a
/// non-blank character, and passes over blanks only.
pub proof fn lemma_skip_blanks(input: Seq<char>, position: nat)
    requires
        position <= input.len(),
    ensures
        position <= spec_skip_blanks(input, position) <= input.len(),
        !spec_is_blank(spec_char_at(input, spec_skip_blanks(input, position) as int)),
        forall|i: int| position <= i < spec_skip_blanks(input, position) ==> spec_is_blank(input[i]),
        spec_skip_blanks(input, spec_skip_blanks(input, position)) == spec_skip_blanks(
            input,
            position,
        ),
    decreases input.len() - position,
{
    if position < input.len() && spec_is_blank(input[position as int]) {
        lemma_skip_blanks(input, position + 1);
    }
}

/// A run of letters is maximal: it holds letters only and ends at the end of
/// the input or in front of a character that is no letter.
pub proof fn lemma_letters_end(input: Seq<char>, position: nat)
    requires
        position <= input.len(),
    ensures
        position <= spec_letters_end(input, position) <= input.len(),
        !spec_is_letter(spec_char_at(input, spec_letters_end(input, position) as int)),
        forall|i: int| position <= i < spec_letters_end(input, position) ==> spec_is_letter(input[i]),
    decreases input.len() - position,
{
    if position < input.len() && spec_is_letter(input[position as int]) {
        lemma_letters_end(input, position + 1);
    }
}

/// A run of digits is maximal: it holds digits only and ends at the end of
/// the input or in front of a character that is no digit.
pub proof fn lemma_digits_end(input: Seq<char>, position: nat)
    requires
        position <= input.len(),
    ensures
        position <= spec_digits_end(input, position) <= input.len(),
        !spec_is_digit(spec_char_at(input, spec_digits_end(input, position) as int)),
        forall|i: int| position <= i < spec_digits_end(input, position) ==> spec_is_digit(input[i]),
    decreases input.len() - position,
{
    if position < input.len() && spec_is_digit(input[position as int]) {
        lemma_digits_end(input, position + 1);
    }
}

/// Reading a token never moves backwards; a token other than `EOF` takes at
/// least one character and ends inside the input; and no token is empty.
pub proof fn lemma_next_token_progress(input: Seq<char>, position: nat)
    ensures
        position <= spec_next_token(input, position).start <= spec_next_token(
            input,
            position,
        ).position,
        spec_next_token(input, position).token.token_type != TokenType::EOF ==> spec_next_token(
            input,
            position,
        ).start < spec_next_token(input, position).position <= input.len(),
        spec_next_token(input, position).token.literal.len() > 0,
{
    reveal(spec_next_token);
    if position <= input.len() {
        lemma_skip_blanks(input, position);
        let start = spec_skip_blanks(input, position);
        lemma_letters_end(input, start);
        lemma_digits_end(input, start);
    }
}

/// Blanks in front of a token belong to it: the token starts behind them,
/// and reading from behind them gives the same token.
pub proof fn lemma_next_token_after_blanks(input: Seq<char>, position: nat)
    ensures
        spec_next_token(input, position).start == spec_skip_blanks(input, position),
        spec_next_token(input, spec_skip_blanks(input, position)) == spec_next_token(
            input,
            position,
        ),
{
    reveal(spec_next_token);
    if position <= input.len() {
        lemma_skip_blanks(input, position);
    }
}

/// The text of a token is the piece of the input that it was read from;
/// only the end of the input, where there is nothing to read, is spelled
/// as one NUL character.
pub proof fn lemma_token_text(input: Seq<char>, position: nat)
    requires
        position <= input.len(),
    ensures
        spec_next_token(input, position).start < input.len() ==> spec_next_token(
            input,
            position,
        ).token.literal == input.subrange(
            spec_next_token(input, position).start as int,
            spec_next_token(input, position).position as int,
        ),
        spec_next_token(input, position).start >= input.len() ==> spec_next_token(
            input,
            position,
        ).token == (TokenModel { token_type: TokenType::EOF, literal: seq!['\0'] }),
{
    reveal(spec_next_token);
    lemma_skip_blanks(input, position);
    let start = spec_skip_blanks(input, position);
    let lexed = spec_next_token(input, position);
    if start < input.len() {
        assert(lexed.token.literal =~= input.subrange(start as int, lexed.position as int));
    }
}

/// At the end of the input every call yields `EOF` and leaves the position
/// unchanged.
pub proof fn lemma_end_of_input(input: Seq<char>)
    ensures
        spec_next_token(input, input.len()).token == (TokenModel {
            token_type: TokenType::EOF,
            literal: seq!['\0'],
        }),
        spec_next_token(input, input.len()).position == input.len(),
{
    reveal(spec_next_token);
}

/// A cursor over the source text.
#[derive(Debug)]
pub struct Lexer {
    input: String,
    length: usize,
    position: usize,
}

/// The mathematical model of a tokenizer: the source text and the position
/// of the next character to read.
pub struct LexerModel {
    pub input: Seq<char>,
    pub position: nat,
}

impl View for Lexer {
    type V = LexerModel;

    closed spec fn view(&self) -> LexerModel {
        LexerModel { input: self.input@, position: self.position as nat }
    }
}

impl Lexer {
    #[verifier::type_invariant]
    spec fn inv(&self) -> bool {
        &&& self.length == self.input@.len()
        &&& self.position <= self.length
    }

    pub fn new(input: &str) -> (lexer: Lexer)
        ensures
            lexer@ == (LexerModel { input: input@, position: 0 }),
    {
        let length: usize = input.unicode_len();
        Lexer { input: String::from_str(input), length, position: 0 }
    }

    /// The position of the next character to read.
    pub fn position(&self) -> (p: usize)
        ensures
            p == self@.position,
            p <= self@.input.len(),
    {
        proof {
            use_type_invariant(self);
        }
        self.position
    }

    fn get_char(&self, position: usize) -> (c: char)
        ensures
            c == spec_char_at(self@.input, position as int),
    {
        proof {
            use_type_invariant(self);
        }
        if position < self.length {
            self.input.as_str().get_char(position)
        } else {
            '\0'
        }
    }

    fn read_char(&mut self)
        ensures
            final(self)@.input == old(self)@.input,
            final(self)@.position == if old(self)@.position < old(self)@.input.len() {
                old(self)@.position + 1
            } else {
                old(self)@.position
            },
    {
        proof {
            use_type_invariant(&*self);
        }
        if self.position < self.length {
            self.position = self.position + 1;
        }
    }

    fn peek_char(&self) -> (c: char)
        ensures
            c == spec_char_at(self@.input, self@.position as int + 1),
    {
        proof {
            use_type_invariant(self);
        }
        if self.position < self.length {
            self.get_char(self.position + 1)
        } else {
            '\0'
        }
    }

    /// Moves to the first character that is not blank.
    pub fn skip_whitespace(&mut self)
        ensures
            final(self)@.input == old(self)@.input,
            final(self)@.position == spec_skip_blanks(old(self)@.input, old(self)@.position),
    {
        proof {
            use_type_invariant(&*self);
        }
        while self.position < self.length && is_blank(self.get_char(self.position))
            invariant
                self.length == self.input@.len(),
                self.position <= self.length,
                self.input == old(self).input,
                spec_skip_blanks(self.input@, self.position as nat) == spec_skip_blanks(
                    old(self).input@,
                    old(self).position as nat,
                ),
            decreases self.length - self.position,
        {
            self.position = self.position + 1;
        }
    }

    fn read_identifier(&mut self) -> (s: String)
        ensures
            final(self)@.input == old(self)@.input,
            final(self)@.position == spec_letters_end(old(self)@.input, old(self)@.position),
            s@ == old(self)@.input.subrange(
                old(self)@.position as int,
                final(self)@.position as int,
            ),
    {
        proof {
            use_type_invariant(&*self);
        }
        let start: usize = self.position;
        while self.position < self.length && is_letter(self.get_char(self.position))
            invariant
                self.length == self.input@.len(),
                start <= self.position <= self.length,
                self.input == old(self).input,
                spec_letters_end(self.input@, self.position as nat) == spec_letters_end(
                    old(self).input@,
                    start as nat,
                ),
            decreases self.length - self.position,
        {
            self.position = self.position + 1;
        }
        String::from_str(self.input.as_str().substring_char(start, self.position))
    }

    fn read_digit(&mut self) -> (s: String)
        ensures
            final(self)@.input == old(self)@.input,
            final(self)@.position == spec_digits_end(old(self)@.input, old(self)@.position),
            s@ == old(self)@.input.subrange(
                old(self)@.position as int,
                final(self)@.position as int,
            ),
    {
        proof {
            use_type_invariant(&*self);
        }
        let start: usize = self.position;
        while self.position < self.length && is_digit(self.get_char(self.position))
            invariant
                self.length == self.input@.len(),
                start <= self.position <= self.length,
                self.input == old(self).input,
                spec_digits_end(self.input@, self.position as nat) == spec_digits_end(
                    old(self).input@,
                    start as nat,
                ),
            decreases self.length - self.position,
        {
            self.position = self.position + 1;
        }
        String::from_str(self.input.as_str().substring_char(start, self.position))
    }

    /// Reads the next token and moves behind it.
    pub fn next_token(&mut self) -> (token: Token)
        ensures
            final(self)@.input == old(self)@.input,
            token@ == spec_next_token(old(self)@.input, old(self)@.position).token,
            final(self)@.position == spec_next_token(
                old(self)@.input,
                old(self)@.position,
            ).position,
    {
        proof {
            reveal(spec_next_token);
        }
        self.skip_whitespace();
        proof {
            use_type_invariant(&*self);
        }
        let c: char = self.get_char(self.position);
        if c == '=' && self.peek_char() == '=' {
            proof {
                reveal_strlit("==");
                assert("=="@ =~= seq!['=', '=']);
            }
            self.read_char();
            self.read_char();
            Token::new(TokenType::EQ, "==")
        } else if c == '!' && self.peek_char() == '=' {
            proof {
                reveal_strlit("!=");
                assert("!="@ =~= seq!['!', '=']);
            }
            self.read_char();
            self.read_char();
            Token::new(TokenType::NOTEQ, "!=")
        } else if is_letter(c) {
            let literal: String = self.read_identifier();
            Token { token_type: Token::fron_string(literal.as_str()), literal }
        } else if is_digit(c) {
            let literal: String = self.read_digit();
            Token { token_type: TokenType::INT, literal }
        } else {
            let token_type: TokenType = Token::from_char(c);
            if self.position < self.length {
                let start: usize = self.position;
                self.read_char();
                proof {
                    use_type_invariant(&*self);
                }
                let literal: String = String::from_str(
                    self.input.as_str().substring_char(start, self.position),
                );
                assert(literal@ =~= seq![c]);
                Token { token_type, literal }
            } else {
                proof {
                    reveal_strlit("\0");
                    assert("\0"@ =~= seq!['\0']);
                }
                Token::new(token_type, "\0")
            }
        }
    }
}

} // verus!
