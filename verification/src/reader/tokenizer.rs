//! The tokenizer: a state machine over the characters of the input.

use crate::errors::Error;
use crate::reader::source::{
    decode, decoded, handed_back, next_char, pending, unget_char, CharSource,
};
use crate::text::{
    all_digits, class_of, classify, is_ascii_digit, is_ascii_punctuation, is_digit,
    is_punctuation, push_char, CharClass,
};
use vstd::prelude::*;

verus! {

/// A lexical token.
#[derive(Debug)]
pub enum Token {
    /// No token: what the machine holds at the end of the input.
    NoToken,
    /// A name: letters, digits and underscores, or one punctuation mark.
    Identifier(String),
    /// The digits of an integer literal.
    Integer(String),
    /// The characters of a string literal, without its quotes.
    Text(String),
    /// The quote mark `'`.
    Quote,
    /// The backquote.
    Quasiquote,
    /// The comma.
    Unquote,
    /// The opening parenthesis.
    OpenList,
    /// The closing parenthesis.
    CloseList,
    /// A character that fits no token.
    Invalid(String),
}

/// A token as a mathematical value: each variant is that of `Token`, with
/// its text as a sequence of characters.
pub enum Lexeme {
    NoToken,
    Identifier(Seq<char>),
    Integer(Seq<char>),
    Text(Seq<char>),
    Quote,
    Quasiquote,
    Unquote,
    OpenList,
    CloseList,
    Invalid(Seq<char>),
}

impl View for Token {
    type V = Lexeme;

    open spec fn view(&self) -> Lexeme {
        match self {
            Token::NoToken => Lexeme::NoToken,
            Token::Identifier(s) => Lexeme::Identifier(s@),
            Token::Integer(s) => Lexeme::Integer(s@),
            Token::Text(s) => Lexeme::Text(s@),
            Token::Quote => Lexeme::Quote,
            Token::Quasiquote => Lexeme::Quasiquote,
            Token::Unquote => Lexeme::Unquote,
            Token::OpenList => Lexeme::OpenList,
            Token::CloseList => Lexeme::CloseList,
            Token::Invalid(s) => Lexeme::Invalid(s@),
        }
    }
}

impl PartialEq for Token {
    fn eq(&self, other: &Self) -> (r: bool) {
        match (self, other) {
            (Token::NoToken, Token::NoToken) => true,
            (Token::OpenList, Token::OpenList) => true,
            (Token::CloseList, Token::CloseList) => true,
            (Token::Quote, Token::Quote) => true,
            (Token::Quasiquote, Token::Quasiquote) => true,
            (Token::Unquote, Token::Unquote) => true,
            (Token::Text(a), Token::Text(b)) => *a == *b,
            (Token::Identifier(a), Token::Identifier(b)) => *a == *b,
            (Token::Integer(a), Token::Integer(b)) => *a == *b,
            (Token::Invalid(a), Token::Invalid(b)) => *a == *b,
            (_, _) => false,
        }
    }
}

impl vstd::std_specs::cmp::PartialEqSpecImpl for Token {
    open spec fn obeys_eq_spec() -> bool {
        true
    }

    open spec fn eq_spec(&self, other: &Self) -> bool {
        self@ == other@
    }
}

impl Clone for Token {
    fn clone(&self) -> (copy: Self)
        ensures
            copy@ == self@,
    {
        match self {
            Token::NoToken => Token::NoToken,
            Token::OpenList => Token::OpenList,
            Token::CloseList => Token::CloseList,
            Token::Quote => Token::Quote,
            Token::Quasiquote => Token::Quasiquote,
            Token::Unquote => Token::Unquote,
            Token::Text(a) => Token::Text(a.clone()),
            Token::Identifier(a) => Token::Identifier(a.clone()),
            Token::Integer(a) => Token::Integer(a.clone()),
            Token::Invalid(a) => Token::Invalid(a.clone()),
        }
    }
}

/// Where the machine stands between two characters.
pub enum State {
    /// No token is under way.
    Begin,
    /// An identifier is under way: its characters so far.
    DecodingIdentifier(String),
    /// An integer is under way: its digits so far.
    DecodingInteger(String),
    /// A string is under way: its characters so far.
    DecodingText(String),
    /// A token is complete.
    FinishedToken(Token),
    /// A character was met that fits no token.
    Invalid(String),
}

/// The state of the machine as a mathematical value.
pub enum Phase {
    /// No token is under way.
    Begin,
    /// An identifier is under way: its characters so far.
    InIdentifier(Seq<char>),
    /// An integer is under way: its digits so far.
    InInteger(Seq<char>),
    /// A string is under way: its characters so far.
    InText(Seq<char>),
    /// A token is complete.
    Finished(Lexeme),
    /// A character was met that fits no token.
    Invalid(Seq<char>),
}

impl View for State {
    type V = Phase;

    open spec fn view(&self) -> Phase {
        match self {
            State::Begin => Phase::Begin,
            State::DecodingIdentifier(s) => Phase::InIdentifier(s@),
            State::DecodingInteger(s) => Phase::InInteger(s@),
            State::DecodingText(s) => Phase::InText(s@),
            State::FinishedToken(t) => Phase::Finished(t@),
            State::Invalid(s) => Phase::Invalid(s@),
        }
    }
}

/// The state that the machine enters on the character `c` of class `class`
/// when no token is under way.
pub open spec fn start(c: char, class: CharClass) -> Phase {
    if c == '(' {
        Phase::Finished(Lexeme::OpenList)
    } else if c == ')' {
        Phase::Finished(Lexeme::CloseList)
    } else if c == ',' {
        Phase::Finished(Lexeme::Unquote)
    } else if c == '`' {
        Phase::Finished(Lexeme::Quasiquote)
    } else if c == '\'' {
        Phase::Finished(Lexeme::Quote)
    } else if c == '"' {
        Phase::InText(Seq::empty())
    } else if class.whitespace {
        Phase::Begin
    } else if class.alphabetic || c == '_' {
        Phase::InIdentifier(seq![c])
    } else if is_digit(c) {
        Phase::InInteger(seq![c])
    } else if is_punctuation(c) {
        Phase::Finished(Lexeme::Identifier(seq![c]))
    } else {
        Phase::Invalid(seq![c])
    }
}

/// Whether a token is under way in this state.
pub open spec fn under_way(phase: Phase) -> bool {
    phase is InIdentifier || phase is InInteger || phase is InText
}

/// The state that follows `phase` on the character `c` of class `class`.
pub open spec fn step(phase: Phase, c: char, class: CharClass) -> Phase {
    match phase {
        Phase::InIdentifier(id) => if class.alphanumeric || c == '_' {
            Phase::InIdentifier(id.push(c))
        } else {
            Phase::Finished(Lexeme::Identifier(id))
        },
        Phase::InInteger(num) => if is_digit(c) {
            Phase::InInteger(num.push(c))
        } else {
            Phase::Finished(Lexeme::Integer(num))
        },
        Phase::InText(txt) => if c == '"' {
            Phase::Finished(Lexeme::Text(txt))
        } else {
            Phase::InText(txt.push(c))
        },
        _ => start(c, class),
    }
}

/// Whether the machine hands the character `c` back to the input when it sees
/// it in state `phase`: the character that ends an identifier or an integer
/// belongs to what follows.
pub open spec fn hands_back(phase: Phase, c: char, class: CharClass) -> bool {
    match phase {
        Phase::InIdentifier(_) => !(class.alphanumeric || c == '_'),
        Phase::InInteger(_) => !is_digit(c),
        _ => false,
    }
}

/// The state that follows `phase` at the end of the input: the token under way
/// is finished as it stands.
pub open spec fn finish(phase: Phase) -> Phase {
    match phase {
        Phase::InIdentifier(id) => Phase::Finished(Lexeme::Identifier(id)),
        Phase::InInteger(num) => Phase::Finished(Lexeme::Integer(num)),
        Phase::InText(txt) => Phase::Finished(Lexeme::Text(txt)),
        _ => Phase::Finished(Lexeme::NoToken),
    }
}

/// The token that the machine gives out in this state, if any.
pub open spec fn emitted(phase: Phase) -> Option<Lexeme> {
    match phase {
        Phase::Finished(Lexeme::NoToken) => None,
        Phase::Finished(lexeme) => Some(lexeme),
        Phase::Invalid(text) => Some(Lexeme::Invalid(text)),
        _ => None,
    }
}

/// A string of one character.
fn one_char(c: char) -> (text: String)
    ensures
        text@ == seq![c],
{
    let mut text = String::new();
    push_char(&mut text, c);
    text
}

impl State {
    /// Whether the machine, in this state, hands the character `c` of class
    /// `class` back to the input.
    pub fn hands_back(&self, c: char, class: CharClass) -> (back: bool)
        ensures
            back == hands_back(self@, c, class),
    {
        match self {
            State::DecodingIdentifier(_) => !(class.alphanumeric || c == '_'),
            State::DecodingInteger(_) => !is_ascii_digit(c),
            _ => false,
        }
    }

    /// The state that follows this one on the character `c` of class `class`.
    pub fn advance(self, c: char, class: CharClass) -> (next: State)
        ensures
            next@ == step(self@, c, class),
    {
        match self {
            State::DecodingIdentifier(id) => {
                if class.alphanumeric || c == '_' {
                    let mut id = id;
                    push_char(&mut id, c);
                    State::DecodingIdentifier(id)
                } else {
                    State::FinishedToken(Token::Identifier(id))
                }
            },
            State::DecodingInteger(num) => {
                if is_ascii_digit(c) {
                    let mut num = num;
                    push_char(&mut num, c);
                    State::DecodingInteger(num)
                } else {
                    State::FinishedToken(Token::Integer(num))
                }
            },
            State::DecodingText(txt) => {
                if c == '"' {
                    State::FinishedToken(Token::Text(txt))
                } else {
                    let mut txt = txt;
                    push_char(&mut txt, c);
                    State::DecodingText(txt)
                }
            },
            _ => {
                if c == '(' {
                    State::FinishedToken(Token::OpenList)
                } else if c == ')' {
                    State::FinishedToken(Token::CloseList)
                } else if c == ',' {
                    State::FinishedToken(Token::Unquote)
                } else if c == '`' {
                    State::FinishedToken(Token::Quasiquote)
                } else if c == '\'' {
                    State::FinishedToken(Token::Quote)
                } else if c == '"' {
                    State::DecodingText(String::new())
                } else if class.whitespace {
                    State::Begin
                } else if class.alphabetic || c == '_' {
                    State::DecodingIdentifier(one_char(c))
                } else if is_ascii_digit(c) {
                    State::DecodingInteger(one_char(c))
                } else if is_ascii_punctuation(c) {
                    State::FinishedToken(Token::Identifier(one_char(c)))
                } else {
                    State::Invalid(one_char(c))
                }
            },
        }
    }

    /// The state that follows this one at the end of the input.
    pub fn finish(self) -> (next: State)
        ensures
            next@ == finish(self@),
    {
        match self {
            State::DecodingIdentifier(id) => State::FinishedToken(Token::Identifier(id)),
            State::DecodingInteger(num) => State::FinishedToken(Token::Integer(num)),
            State::DecodingText(txt) => State::FinishedToken(Token::Text(txt)),
            _ => State::FinishedToken(Token::NoToken),
        }
    }
}

/// A token, or the error met in its place.
pub type Lexed = Result<Lexeme, Error>;

/// The tokens that the machine, in state `phase`, makes of the items `chars`:
/// an `InputError` for each malformed item, and at the end of the input the
/// token that was under way.
pub open spec fn lex(phase: Phase, chars: Seq<Option<char>>) -> Seq<Lexed>
    decreases chars.len(), (if under_way(phase) { 1nat } else { 0nat }),
{
    if chars.len() == 0 {
        match emitted(finish(phase)) {
            Some(lexeme) => seq![Ok(lexeme)],
            None => Seq::empty(),
        }
    } else {
        match chars[0] {
            None => seq![Err(Error::InputError)] + lex(phase, chars.drop_first()),
            Some(c) => {
                let next = step(phase, c, class_of(c));
                let rest = if hands_back(phase, c, class_of(c)) {
                    chars
                } else {
                    chars.drop_first()
                };
                match emitted(next) {
                    Some(lexeme) => seq![Ok(lexeme)] + lex(next, rest),
                    None => lex(next, rest),
                }
            },
        }
    }
}

/// Whether the text is a name: a letter or an underscore, then letters, digits
/// of any script and underscores.
pub open spec fn is_name(text: Seq<char>) -> bool {
    &&& text.len() > 0
    &&& class_of(text[0]).alphabetic || text[0] == '_'
    &&& forall|i: int|
        1 <= i < text.len() ==> class_of(#[trigger] text[i]).alphanumeric || text[i] == '_'
}

/// Whether the text holds no double quote.
pub open spec fn is_unquoted(text: Seq<char>) -> bool {
    forall|i: int| 0 <= i < text.len() ==> #[trigger] text[i] != '"'
}

/// What the tokens that the machine makes look like. An integer is one or
/// more ASCII digits; an identifier is a name or one ASCII punctuation
/// character; a string holds no double quote; an invalid token is one
/// character; and `NoToken` is never made.
pub open spec fn well_shaped(lexeme: Lexeme) -> bool {
    match lexeme {
        Lexeme::NoToken => false,
        Lexeme::Integer(digits) => digits.len() > 0 && all_digits(digits),
        Lexeme::Identifier(name) => is_name(name) || (name.len() == 1 && is_punctuation(name[0])),
        Lexeme::Text(text) => is_unquoted(text),
        Lexeme::Invalid(text) => text.len() == 1,
        _ => true,
    }
}

/// Whether the token under way in this state, if any, is on its way to being
/// well shaped.
pub open spec fn on_course(phase: Phase) -> bool {
    match phase {
        Phase::InIdentifier(name) => is_name(name),
        Phase::InInteger(digits) => digits.len() > 0 && all_digits(digits),
        Phase::InText(text) => is_unquoted(text),
        _ => true,
    }
}

/// One step keeps the machine on course, and the token that it gives out
/// after the step, if any, is well shaped.
pub proof fn lemma_step_keeps_course(phase: Phase, c: char, class: CharClass)
    requires
        on_course(phase),
        class == class_of(c),
    ensures
        on_course(step(phase, c, class)),
        emitted(step(phase, c, class)) matches Some(lexeme) ==> well_shaped(lexeme),
{
    match phase {
        Phase::InIdentifier(name) => {
            let longer = name.push(c);
            if class.alphanumeric || c == '_' {
                assert(longer[0] == name[0]);
                assert forall|i: int| 1 <= i < longer.len() implies class_of(
                    #[trigger] longer[i],
                ).alphanumeric || longer[i] == '_' by {
                    if i < name.len() {
                        assert(longer[i] == name[i]);
                    }
                }
            }
        },
        Phase::InInteger(digits) => {
            let longer = digits.push(c);
            if is_digit(c) {
                assert forall|i: int| 0 <= i < longer.len() implies is_digit(
                    #[trigger] longer[i],
                ) by {
                    if i < digits.len() {
                        assert(longer[i] == digits[i]);
                    }
                }
            }
        },
        Phase::InText(text) => {
            let longer = text.push(c);
            if c != '"' {
                assert forall|i: int| 0 <= i < longer.len() implies #[trigger] longer[i]
                    != '"' by {
                    if i < text.len() {
                        assert(longer[i] == text[i]);
                    }
                }
            }
        },
        _ => {
            assert(seq![c][0] == c);
        },
    }
}

/// The token that the machine gives out at the end of the input, if any, is
/// well shaped.
pub proof fn lemma_finish_is_well_shaped(phase: Phase)
    requires
        on_course(phase),
    ensures
        emitted(finish(phase)) matches Some(lexeme) ==> well_shaped(lexeme),
{
}

/// Every token that the machine makes is well shaped, whatever the input: in
/// particular an integer token holds ASCII digits and nothing else, so that
/// reading it can only fail for its size.
pub proof fn lemma_lex_is_well_shaped(phase: Phase, chars: Seq<Option<char>>)
    requires
        on_course(phase),
    ensures
        forall|i: int|
            0 <= i < lex(phase, chars).len() ==> (#[trigger] lex(phase, chars)[i] matches Ok(
                lexeme,
            ) ==> well_shaped(lexeme)),
    decreases chars.len(), (if under_way(phase) { 1nat } else { 0nat }),
{
    if chars.len() == 0 {
        lemma_finish_is_well_shaped(phase);
    } else {
        match chars[0] {
            None => {
                lemma_lex_is_well_shaped(phase, chars.drop_first());
            },
            Some(c) => {
                lemma_step_keeps_course(phase, c, class_of(c));
                let next = step(phase, c, class_of(c));
                let rest = if hands_back(phase, c, class_of(c)) {
                    chars
                } else {
                    chars.drop_first()
                };
                lemma_lex_is_well_shaped(next, rest);
            },
        }
    }
}

/// Turns bytes into tokens, one at a time, with room for one token put back.
pub struct Tokenizer {
    chiter: CharSource,
    state: State,
    cache: Option<Token>,
}

impl Tokenizer {
    /// The token that was put back and not yet taken again.
    pub closed spec fn put_back(&self) -> Option<Lexeme> {
        match self.cache {
            Some(token) => Some(token@),
            None => None,
        }
    }

    /// The state of the machine.
    pub closed spec fn phase(&self) -> Phase {
        self.state@
    }

    /// The decoded items that the machine has yet to read.
    pub closed spec fn input(&self) -> Seq<Option<char>> {
        pending(self.chiter)
    }

    /// The tokens that the tokenizer has yet to give out: the one put back,
    /// then those that the machine makes of the rest of the input.
    pub open spec fn stream(&self) -> Seq<Lexed> {
        match self.put_back() {
            Some(lexeme) => seq![Ok(lexeme)] + lex(self.phase(), self.input()),
            None => lex(self.phase(), self.input()),
        }
    }

    /// A tokenizer at the start of the given bytes.
    pub fn new(bytes: Vec<u8>) -> (tokenizer: Self)
        ensures
            tokenizer.put_back() is None,
            tokenizer.phase() == Phase::Begin,
            tokenizer.input() == decoded(bytes@),
    {
        Tokenizer { chiter: decode(bytes), state: State::Begin, cache: None }
    }

    /// Puts a token back: the next call of `token` returns it. Only one token
    /// can be held back at a time.
    pub fn putback(&mut self, tk: Token)
        requires
            old(self).put_back() is None,
        ensures
            final(self).put_back() == Some(tk@),
            final(self).phase() == old(self).phase(),
            final(self).input() == old(self).input(),
            final(self).stream() == seq![Ok::<Lexeme, Error>(tk@)] + old(self).stream(),
    {
        self.cache = Some(tk);
    }

    /// One step of the machine: on a character, or on the end of the input.
    fn state_machine(&mut self, ch: Option<char>)
        requires
            !handed_back(old(self).chiter),
        ensures
            final(self).cache == old(self).cache,
            match ch {
                Some(c) => {
                    &&& final(self).state@ == step(old(self).state@, c, class_of(c))
                    &&& pending(final(self).chiter) == if hands_back(
                        old(self).state@,
                        c,
                        class_of(c),
                    ) {
                        seq![Some(c)] + pending(old(self).chiter)
                    } else {
                        pending(old(self).chiter)
                    }
                },
                None => {
                    &&& final(self).state@ == finish(old(self).state@)
                    &&& pending(final(self).chiter) == pending(old(self).chiter)
                },
            },
    {
        let mut state = State::Begin;
        std::mem::swap(&mut state, &mut self.state);
        self.state = match ch {
            None => state.finish(),
            Some(ch) => {
                let class = classify(ch);
                if state.hands_back(ch, class) {
                    unget_char(&mut self.chiter, ch);
                }
                state.advance(ch, class)
            },
        };
    }

    /// The next token, or `None` at the end of the input. A malformed byte
    /// sequence in the input gives `InputError`.
    pub fn token(&mut self) -> (result: Result<Option<Token>, Error>)
        ensures
            final(self).put_back() is None,
            old(self).stream().len() == 0 ==> result == Ok::<Option<Token>, Error>(None)
                && final(self).stream().len() == 0,
            old(self).stream().len() > 0 ==> final(self).stream() == old(self).stream().drop_first()
                && match old(self).stream()[0] {
                Ok(lexeme) => result is Ok && result->Ok_0 is Some && result->Ok_0->Some_0@
                    == lexeme,
                Err(e) => result == Err::<Option<Token>, Error>(e),
            },
    {
        if let Some(tk) = self.cache.take() {
            assert(old(self).stream().drop_first() == lex(self.phase(), self.input()));
            return Ok(Some(tk));
        }
        loop
            invariant
                self.cache is None,
                old(self).stream() == lex(self.state@, pending(self.chiter)),
            decreases pending(self.chiter).len(), (if under_way(self.state@) {
                1nat
            } else {
                0nat
            }),
        {
            let ghost before = pending(self.chiter);
            let ghost phase = self.state@;
            let ch = match next_char(&mut self.chiter) {
                None => None,
                Some(Ok(c)) => Some(c),
                Some(Err(_)) => {
                    assert(lex(phase, before).drop_first() == lex(phase, before.drop_first()));
                    return Err(Error::InputError);
                },
            };
            self.state_machine(ch);
            proof {
                if before.len() > 0 {
                    assert(seq![before[0]] + before.drop_first() == before);
                }
            }
            match &self.state {
                State::FinishedToken(Token::NoToken) => {
                    return Ok(None);
                },
                State::FinishedToken(token) => {
                    let token = token.clone();
                    assert(lex(phase, before).drop_first() == lex(
                        self.state@,
                        pending(self.chiter),
                    ));
                    return Ok(Some(token));
                },
                State::Invalid(text) => {
                    let token = Token::Invalid(text.clone());
                    assert(lex(phase, before).drop_first() == lex(
                        self.state@,
                        pending(self.chiter),
                    ));
                    return Ok(Some(token));
                },
                _ => {},
            }
        }
    }
}

} // verus!
