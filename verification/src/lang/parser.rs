//! The token cursor and its errors.

use vstd::prelude::*;
use crate::lang::lexer::{token_text, token_views, Token, TokenView};
use crate::text::push_text;

verus! {

/// Why a text is not in the language: a description for a human reader.
#[derive(Debug)]
pub struct ParseError(pub String);

impl View for ParseError {
    type V = Seq<char>;

    open spec fn view(&self) -> Seq<char> {
        self.0@
    }
}

/// What a parse gives: the value, or the error.
pub type Result<T> = std::result::Result<T, ParseError>;

/// How a diagnostic writes the token that was found, or that none was.
pub open spec fn found_text(found: Option<TokenView>) -> Seq<char> {
    match found {
        Some(token) => token_text(token),
        None => "nothing"@,
    }
}

/// The message of an error at a token that fits nowhere.
pub open spec fn unexpected_text(found: Option<TokenView>) -> Seq<char> {
    "Unexpected "@ + found_text(found)
}

/// The message of an error where `expected` should have stood.
pub open spec fn expected_text(expected: Seq<char>, found: Option<TokenView>) -> Seq<char> {
    "Expected "@ + expected + ", found "@ + found_text(found)
}

/// The first `n` of some tokens as a diagnostic lists them: a comma and a
/// space between each two.
pub open spec fn listed(tokens: Seq<TokenView>, n: int) -> Seq<char>
    decreases n,
{
    if n <= 0 || n > tokens.len() {
        Seq::empty()
    } else if n == 1 {
        token_text(tokens[0])
    } else {
        listed(tokens, n - 1) + ", "@ + token_text(tokens[n - 1])
    }
}

/// Some tokens as alternatives: `nothing` for none, else the tokens with
/// commas between them and ` or ` before the last.
pub open spec fn alternatives_text(tokens: Seq<TokenView>) -> Seq<char> {
    if tokens.len() == 0 {
        "nothing"@
    } else if tokens.len() == 1 {
        token_text(tokens[0])
    } else {
        listed(tokens, tokens.len() - 1) + " or "@ + token_text(tokens.last())
    }
}

fn push_found(out: &mut String, found: Option<&Token>)
    ensures
        final(out)@ == old(out)@ + found_text(
            match found {
                Some(token) => Some(token@),
                None => None,
            },
        ),
{
    match found {
        Some(token) => {
            let text = token.to_string();
            push_text(out, text.as_str());
        },
        None => push_text(out, "nothing"),
    }
}

impl ParseError {
    /// An error with the given description.
    pub fn new(value: &str) -> (r: Self)
        ensures
            r@ == value@,
    {
        ParseError(value.to_owned())
    }

    /// The description.
    pub fn to_string(&self) -> (r: String)
        ensures
            r@ == self@,
    {
        self.0.clone()
    }

    /// The error at a token that fits nowhere, or at the end of the tokens.
    pub fn unexpected_token(token: Option<&Token>) -> (r: Self)
        ensures
            r@ == unexpected_text(
                match token {
                    Some(found) => Some(found@),
                    None => None,
                },
            ),
    {
        let mut out = String::new();
        push_text(&mut out, "Unexpected ");
        push_found(&mut out, token);
        assert(out@ =~= unexpected_text(
            match token {
                Some(found) => Some(found@),
                None => None,
            },
        ));
        ParseError(out)
    }

    /// The error where `expected` should have stood.
    pub fn expected_token(expected: &Token, found: Option<&Token>) -> (r: Self)
        ensures
            r@ == expected_text(
                token_text(expected@),
                match found {
                    Some(token) => Some(token@),
                    None => None,
                },
            ),
    {
        let mut out = String::new();
        push_text(&mut out, "Expected ");
        let text = expected.to_string();
        push_text(&mut out, text.as_str());
        push_text(&mut out, ", found ");
        push_found(&mut out, found);
        assert(out@ =~= expected_text(
            token_text(expected@),
            match found {
                Some(token) => Some(token@),
                None => None,
            },
        ));
        ParseError(out)
    }

    /// The error where one of `expected` should have stood.
    pub fn expected_tokens(expected: &Vec<Token>, found: Option<&Token>) -> (r: Self)
        ensures
            r@ == expected_text(
                alternatives_text(token_views(expected@)),
                match found {
                    Some(token) => Some(token@),
                    None => None,
                },
            ),
    {
        let ghost views = token_views(expected@);
        let mut list = String::new();
        if expected.len() == 0 {
            push_text(&mut list, "nothing");
            assert(list@ =~= alternatives_text(views));
        } else if expected.len() == 1 {
            let text = expected[0].to_string();
            push_text(&mut list, text.as_str());
            assert(list@ =~= alternatives_text(views));
        } else {
            let mut i: usize = 0;
            let last = expected.len() - 1;
            assert(list@ =~= listed(views, 0));
            while i < last
                invariant
                    i <= last,
                    last == expected.len() - 1,
                    views == token_views(expected@),
                    list@ == listed(views, i as int),
                decreases last - i,
            {
                if i > 0 {
                    push_text(&mut list, ", ");
                }
                let text = expected[i].to_string();
                push_text(&mut list, text.as_str());
                i += 1;
                assert(list@ =~= listed(views, i as int));
            }
            push_text(&mut list, " or ");
            let text = expected[last].to_string();
            push_text(&mut list, text.as_str());
            assert(list@ =~= alternatives_text(views));
        }
        let mut out = String::new();
        push_text(&mut out, "Expected ");
        push_text(&mut out, list.as_str());
        push_text(&mut out, ", found ");
        push_found(&mut out, found);
        assert(out@ =~= expected_text(
            alternatives_text(views),
            match found {
                Some(token) => Some(token@),
                None => None,
            },
        ));
        ParseError(out)
    }
}

impl Clone for ParseError {
    fn clone(&self) -> (r: Self)
        ensures
            r@ == self@,
    {
        ParseError(self.0.clone())
    }
}

/// The token at `position`, if the tokens reach that far.
pub open spec fn token_at(tokens: Seq<TokenView>, position: int) -> Option<TokenView> {
    if 0 <= position < tokens.len() {
        Some(tokens[position])
    } else {
        None
    }
}

/// A cursor over a sequence of tokens.
pub struct Parser {
    tokens: Vec<Token>,
    position: usize,
}

impl Parser {
    #[verifier::type_invariant]
    spec fn within(self) -> bool {
        self.position <= self.tokens.len()
    }

    /// All the tokens, those behind the cursor too.
    pub closed spec fn tokens(&self) -> Seq<TokenView> {
        token_views(self.tokens@)
    }

    /// How many tokens lie behind the cursor.
    pub closed spec fn position(&self) -> int {
        self.position as int
    }

    /// The token at the cursor.
    pub open spec fn current(&self) -> Option<TokenView> {
        token_at(self.tokens(), self.position())
    }

    /// The cursor one token on.
    pub open spec fn stepped(&self, after: Parser) -> bool {
        &&& after.tokens() == self.tokens()
        &&& after.position() == self.position() + 1
    }

    /// A cursor before the first of `tokens`.
    #[must_use]
    pub fn new(tokens: Vec<Token>) -> (r: Self)
        ensures
            r.tokens() == token_views(tokens@),
            r.position() == 0,
    {
        Self { tokens, position: 0 }
    }

    /// How many tokens lie behind the cursor: never more than there are.
    pub fn mark(&self) -> (r: usize)
        ensures
            r == self.position(),
            r <= self.tokens().len() <= usize::MAX,
    {
        proof {
            use_type_invariant(self);
        }
        self.position
    }

    /// Puts the cursor back where `mark` found it. A cursor goes back only:
    /// a mark ahead of it leaves it where it is.
    pub fn rewind(&mut self, mark: usize)
        ensures
            final(self).tokens() == old(self).tokens(),
            final(self).position() == if mark <= old(self).position() {
                mark as int
            } else {
                old(self).position()
            },
    {
        if mark <= self.position {
            proof {
                use_type_invariant(&*self);
            }
            self.position = mark;
        }
    }

    /// Moves the cursor over `count` tokens, or over as many as are left.
    pub fn skip(&mut self, count: usize)
        ensures
            final(self).tokens() == old(self).tokens(),
            final(self).position() == if old(self).position() + count <= old(
                self,
            ).tokens().len() {
                old(self).position() + count
            } else {
                old(self).tokens().len() as int
            },
    {
        proof {
            use_type_invariant(&*self);
        }
        if count <= self.tokens.len() - self.position {
            self.position = self.position + count;
        } else {
            self.position = self.tokens.len();
        }
    }

    /// The token `offset` tokens behind the current one.
    pub fn peek_ahead(&self, offset: usize) -> (r: Option<&Token>)
        ensures
            r is Some <==> token_at(self.tokens(), self.position() + offset) is Some,
            r matches Some(token) ==> token_at(self.tokens(), self.position() + offset) == Some(
                token@,
            ),
    {
        proof {
            use_type_invariant(self);
        }
        if offset < self.tokens.len() - self.position {
            Some(&self.tokens[self.position + offset])
        } else {
            None
        }
    }

    /// Whether no token is left.
    pub fn is_done(&self) -> (r: bool)
        ensures
            r == (self.current() is None),
    {
        self.position >= self.tokens.len()
    }

    /// Peeks the current token and returns a reference to it wrapped in
    /// `Some` if it exists, otherwise returning `None`.
    pub fn peek(&self) -> (r: Option<&Token>)
        ensures
            r is Some <==> self.current() is Some,
            r matches Some(token) ==> self.current() == Some(token@),
    {
        if self.position < self.tokens.len() {
            Some(&self.tokens[self.position])
        } else {
            None
        }
    }

    /// Consumes the current token and returns it wrapped in `Some` if it
    /// exists, otherwise returning `None`.
    pub fn next(&mut self) -> (r: Option<Token>)
        ensures
            match r {
                Some(token) => old(self).current() == Some(token@) && old(self).stepped(
                    *final(self),
                ),
                None => old(self).current() is None && *final(self) == *old(self),
            },
    {
        if self.position < self.tokens.len() {
            let token = self.tokens[self.position].duplicate();
            self.position = self.position + 1;
            Some(token)
        } else {
            None
        }
    }

    /// Checks if the next token exists and it is equal to `value`.
    pub fn check(&self, value: &Token) -> (r: bool)
        ensures
            r == (self.current() == Some(value@)),
    {
        match self.peek() {
            Some(token) => token.same(value),
            None => false,
        }
    }

    /// Consumes the current token only if it exists and is equal to `value`.
    pub fn try_consume(&mut self, value: &Token) -> (r: bool)
        ensures
            r == (old(self).current() == Some(value@)),
            r ==> old(self).stepped(*final(self)),
            !r ==> *final(self) == *old(self),
    {
        if self.position < self.tokens.len() && self.tokens[self.position].same(value) {
            self.position = self.position + 1;
            true
        } else {
            false
        }
    }

    /// Consumes the current token if it exists and is equal to `value`,
    /// otherwise returning `ParseError`.
    ///
    /// # Errors
    ///
    /// Returns error if current token is not equal to `value`
    pub fn consume(&mut self, value: &Token) -> (r: Result<Token>)
        ensures
            match r {
                Ok(token) => token@ == value@ && old(self).current() == Some(value@) && old(
                    self,
                ).stepped(*final(self)),
                Err(error) => old(self).current() != Some(value@) && *final(self) == *old(self)
                    && error@ == expected_text(token_text(value@), old(self).current()),
            },
    {
        if self.position < self.tokens.len() && self.tokens[self.position].same(value) {
            let token = self.tokens[self.position].duplicate();
            self.position = self.position + 1;
            Ok(token)
        } else {
            Err(ParseError::expected_token(value, self.peek()))
        }
    }

    /// Consumes the current token if it exists and is equal to one of the
    /// values inside `values`, otherwise returning `ParseError`.
    ///
    /// # Errors
    ///
    /// Returns error if current token is not equal to one of the tokens
    /// inside `values`
    pub fn consume_one_of(&mut self, values: &Vec<Token>) -> (r: Result<Token>)
        ensures
            match r {
                Ok(token) => old(self).current() == Some(token@) && token_views(
                    values@,
                ).contains(token@) && old(self).stepped(*final(self)),
                Err(error) => (old(self).current() matches Some(token) ==> !token_views(
                    values@,
                ).contains(token)) && *final(self) == *old(self) && error@ == expected_text(
                    alternatives_text(token_views(values@)),
                    old(self).current(),
                ),
            },
    {
        let ghost views = token_views(values@);
        if self.position < self.tokens.len() {
            let mut i: usize = 0;
            while i < values.len()
                invariant
                    i <= values.len(),
                    *self == *old(self),
                    self.position < self.tokens.len(),
                    views == token_views(values@),
                    forall|k: int| 0 <= k < i ==> views[k] != self.tokens@[self.position as int]@,
                decreases values.len() - i,
            {
                if self.tokens[self.position].same(&values[i]) {
                    let token = self.tokens[self.position].duplicate();
                    self.position = self.position + 1;
                    assert(views[i as int] == token@);
                    return Ok(token);
                }
                i += 1;
            }
            assert(!views.contains(self.tokens@[self.position as int]@));
        }
        Err(ParseError::expected_tokens(values, self.peek()))
    }

    /// Returns the `bool` result of `func` if the next token exists.
    pub fn check_if<F: Fn(&Token) -> bool>(&self, func: F) -> (r: bool)
        requires
            forall|token: &Token| func.requires((token,)),
        ensures
            self.current() is None ==> !r,
            self.current() is Some ==> exists|token: &Token|
                self.current() == Some(token@) && func.ensures((token,), r),
    {
        match self.peek() {
            Some(token) => func(token),
            None => false,
        }
    }

    /// Consumes the current token and returns it wrapped in `Some` if the
    /// result of the `func` function is `true`, otherwise returning `None`.
    pub fn next_if<F: Fn(&Token) -> bool>(&mut self, func: F) -> (r: Option<Token>)
        requires
            forall|token: &Token| func.requires((token,)),
        ensures
            match r {
                Some(token) => old(self).current() == Some(token@) && old(self).stepped(
                    *final(self),
                ) && exists|seen: &Token| seen@ == token@ && func.ensures((seen,), true),
                None => *final(self) == *old(self) && (old(self).current() is Some
                    ==> exists|seen: &Token|
                    old(self).current() == Some(seen@) && func.ensures((seen,), false)),
            },
    {
        if self.position < self.tokens.len() {
            if func(&self.tokens[self.position]) {
                let token = self.tokens[self.position].duplicate();
                self.position = self.position + 1;
                Some(token)
            } else {
                None
            }
        } else {
            None
        }
    }

    /// Consumes the current token if it exists and the result of `func` is
    /// `true`, otherwise returning `ParseError`.
    ///
    /// # Errors
    ///
    /// Returns error if result of the `func` is false
    pub fn consume_if<F: Fn(&Token) -> bool>(&mut self, func: F) -> (r: Result<Token>)
        requires
            forall|token: &Token| func.requires((token,)),
        ensures
            match r {
                Ok(token) => old(self).current() == Some(token@) && old(self).stepped(
                    *final(self),
                ) && exists|seen: &Token| seen@ == token@ && func.ensures((seen,), true),
                Err(error) => *final(self) == *old(self) && error@ == unexpected_text(
                    old(self).current(),
                ) && (old(self).current() is Some ==> exists|seen: &Token|
                    old(self).current() == Some(seen@) && func.ensures((seen,), false)),
            },
    {
        match self.next_if(func) {
            Some(token) => Ok(token),
            None => Err(ParseError::unexpected_token(self.peek())),
        }
    }

    /// Consumes the current token if it exists and the result of the `func`
    /// is `Some(T)`, otherwise returning `ParseError`.
    ///
    /// # Errors
    ///
    /// Returns error if there is no token or result of the `func` is None
    pub fn consume_map<T, F: Fn(&Token) -> Option<T>>(&mut self, func: F) -> (r: Result<T>)
        requires
            forall|token: &Token| func.requires((token,)),
        ensures
            match r {
                Ok(value) => old(self).stepped(*final(self)) && exists|seen: &Token|
                    old(self).current() == Some(seen@) && func.ensures((seen,), Some(value)),
                Err(error) => *final(self) == *old(self) && error@ == unexpected_text(
                    old(self).current(),
                ) && (old(self).current() is Some ==> exists|seen: &Token|
                    old(self).current() == Some(seen@) && func.ensures((seen,), None::<T>)),
            },
    {
        if self.position < self.tokens.len() {
            match func(&self.tokens[self.position]) {
                Some(value) => {
                    self.position = self.position + 1;
                    return Ok(value);
                },
                None => {},
            }
        }
        Err(ParseError::unexpected_token(self.peek()))
    }
}

} // verus!
