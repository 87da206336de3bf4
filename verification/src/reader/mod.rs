//! The reader: from tokens to values.

pub mod printing;
pub mod source;
pub mod tokenizer;

use crate::errors::Error;
use crate::object::{nil, outcome_of, well_formed, Object, ResultRefObject, Value};
use crate::reader::tokenizer::{Lexed, Lexeme, Token, Tokenizer};
use crate::text::{integer_of, parse_integer, to_uppercase, uppercase};
use vstd::prelude::*;
use vstd::string::StringExecFns;

verus! {

/// The form `(QUOTE value)`, which the reader makes of a quote mark and the
/// expression after it.
pub open spec fn quoted(value: Value) -> Value {
    Value::Cons(
        Box::new(Value::Symbol("QUOTE"@)),
        Box::new(Value::Cons(Box::new(value), Box::new(Value::Nil))),
    )
}

/// The expression at the head of a sequence of tokens, and the tokens that
/// follow it. At the end of the input the expression is Nil.
pub open spec fn parse(tokens: Seq<Lexed>) -> (Result<Value, Error>, Seq<Lexed>)
    decreases tokens.len(), 0nat,
{
    if tokens.len() == 0 {
        (Ok(Value::Nil), tokens)
    } else {
        let rest = tokens.drop_first();
        match tokens[0] {
            Err(e) => (Err(e), rest),
            Ok(Lexeme::Integer(digits)) => (
                match integer_of(digits) {
                    Some(i) => Ok(Value::Integer(i)),
                    None => Err(Error::ParseError),
                },
                rest,
            ),
            Ok(Lexeme::Text(text)) => (Ok(Value::Text(text)), rest),
            Ok(Lexeme::Identifier(name)) => (Ok(Value::Symbol(uppercase(name))), rest),
            Ok(Lexeme::OpenList) => parse_list(rest),
            Ok(Lexeme::Quote) => {
                let (inner, after) = parse(rest);
                (
                    match inner {
                        Ok(value) => Ok(quoted(value)),
                        Err(e) => Err(e),
                    },
                    after,
                )
            },
            Ok(Lexeme::CloseList) => (Err(Error::UnexpectedCloseList), rest),
            Ok(_) => (Err(Error::UnimplementedToken), rest),
        }
    }
}

/// The list whose elements begin a sequence of tokens, up to the closing
/// parenthesis, and the tokens that follow that parenthesis.
pub open spec fn parse_list(tokens: Seq<Lexed>) -> (Result<Value, Error>, Seq<Lexed>)
    decreases tokens.len(), 1nat,
{
    if tokens.len() == 0 {
        (Err(Error::UnexpectedEndOfInput), tokens)
    } else {
        match tokens[0] {
            Err(e) => (Err(e), tokens.drop_first()),
            Ok(Lexeme::CloseList) => (Ok(Value::Nil), tokens.drop_first()),
            Ok(_) => {
                let (head, rest) = parse(tokens);
                match head {
                    Err(e) => (Err(e), rest),
                    Ok(first) => if rest.len() < tokens.len() {
                        let (tail, after) = parse_list(rest);
                        (
                            match tail {
                                Ok(others) => Ok(Value::Cons(Box::new(first), Box::new(others))),
                                Err(e) => Err(e),
                            },
                            after,
                        )
                    } else {
                        (Err(Error::UnexpectedEndOfInput), rest)
                    },
                }
            },
        }
    }
}

/// An expression takes at least one token, and a list at least its closing
/// parenthesis: what follows either is shorter than what it was read from.
pub proof fn lemma_parse_consumes(tokens: Seq<Lexed>)
    ensures
        parse(tokens).1.len() <= tokens.len(),
        parse_list(tokens).1.len() <= tokens.len(),
        tokens.len() > 0 ==> parse(tokens).1.len() < tokens.len(),
        tokens.len() > 0 ==> parse_list(tokens).1.len() < tokens.len(),
    decreases tokens.len(),
{
    if tokens.len() > 0 {
        lemma_parse_consumes(tokens.drop_first());
        let after = parse(tokens).1;
        assert(after.len() < tokens.len());
        lemma_parse_consumes(after);
    }
}

/// The reader makes no dotted pair: in what it reads, every chain of cons
/// cells ends in Nil.
pub proof fn lemma_parse_is_well_formed(tokens: Seq<Lexed>)
    ensures
        parse(tokens).0 matches Ok(value) ==> well_formed(value),
        parse_list(tokens).0 matches Ok(value) ==> well_formed(value) && (value is Nil
            || value is Cons),
    decreases tokens.len(),
{
    if tokens.len() > 0 {
        let rest = tokens.drop_first();
        lemma_parse_is_well_formed(rest);
        if parse(rest).0 is Ok {
            let inner = parse(rest).0->Ok_0;
            assert(well_formed(inner));
            assert(well_formed(Value::Nil));
            assert(well_formed(Value::Symbol("QUOTE"@)));
            assert(well_formed(Value::Cons(Box::new(inner), Box::new(Value::Nil))));
            assert(well_formed(quoted(inner)));
        }
        assert(parse(tokens).0 matches Ok(value) ==> well_formed(value));
        lemma_parse_consumes(tokens);
        lemma_parse_is_well_formed(parse(tokens).1);
    }
}

/// Identifiers that differ only in case read as the same symbol: the symbol
/// depends on the identifier through its upper-case form alone.
pub proof fn lemma_case_folding(a: Seq<char>, b: Seq<char>, rest: Seq<Lexed>)
    requires
        uppercase(a) == uppercase(b),
    ensures
        parse(seq![Ok::<Lexeme, Error>(Lexeme::Identifier(a))] + rest) == parse(
            seq![Ok::<Lexeme, Error>(Lexeme::Identifier(b))] + rest,
        ),
{
    let left = seq![Ok::<Lexeme, Error>(Lexeme::Identifier(a))] + rest;
    let right = seq![Ok::<Lexeme, Error>(Lexeme::Identifier(b))] + rest;
    assert(left.drop_first() == rest);
    assert(right.drop_first() == rest);
}

/// Reads expressions from the tokens of a tokenizer.
pub struct Reader {
    tokenizer: Tokenizer,
}

impl View for Reader {
    type V = Seq<Lexed>;

    /// The tokens that the reader has yet to read.
    closed spec fn view(&self) -> Seq<Lexed> {
        self.tokenizer.stream()
    }
}

impl Reader {
    /// A reader of the tokens of `tokenizer`.
    pub fn new(tokenizer: Tokenizer) -> (reader: Self)
        ensures
            reader@ == tokenizer.stream(),
    {
        Self { tokenizer }
    }

    /// Reads the next expression. At the end of the input the result is Nil.
    pub fn read(&mut self) -> (result: ResultRefObject)
        ensures
            outcome_of(result) == parse(old(self)@).0,
            final(self)@ == parse(old(self)@).1,
        decreases old(self)@.len(), 0nat,
    {
        match self.tokenizer.token() {
            Err(e) => Err(e),
            Ok(None) => Ok(nil()),
            Ok(Some(token)) => match token {
                Token::Integer(s) => match parse_integer(s.as_str()) {
                    Ok(value) => Ok(Object::integer(value)),
                    Err(e) => Err(e),
                },
                Token::Text(s) => Ok(Object::string(s)),
                Token::Identifier(s) => Ok(Object::symbol(to_uppercase(s.as_str()))),
                Token::OpenList => self.read_list(),
                Token::Quote => match self.read() {
                    Ok(value) => {
                        let name = Object::symbol(String::from_str("QUOTE"));
                        Ok(Object::cons(name, Object::cons(value, nil())))
                    },
                    Err(e) => Err(e),
                },
                Token::CloseList => Err(Error::UnexpectedCloseList),
                _ => Err(Error::UnimplementedToken),
            },
        }
    }

    /// Reads the elements of a list whose opening parenthesis has been read,
    /// up to its closing parenthesis.
    fn read_list(&mut self) -> (result: ResultRefObject)
        ensures
            outcome_of(result) == parse_list(old(self)@).0,
            final(self)@ == parse_list(old(self)@).1,
        decreases old(self)@.len(), 1nat,
    {
        match self.tokenizer.token() {
            Err(e) => Err(e),
            Ok(None) => Err(Error::UnexpectedEndOfInput),
            Ok(Some(token)) => {
                if let Token::CloseList = token {
                    Ok(nil())
                } else {
                    self.tokenizer.putback(token);
                    assert(self@ == old(self)@);
                    proof {
                        lemma_parse_consumes(old(self)@);
                    }
                    match self.read() {
                        Err(e) => Err(e),
                        Ok(first) => match self.read_list() {
                            Err(e) => Err(e),
                            Ok(others) => Ok(Object::cons(first, others)),
                        },
                    }
                }
            },
        }
    }
}

} // verus!
