//! Reading and printing together: the text of a value that was read is the
//! text of its tokens in canonical form.

use crate::errors::Error;
use crate::object::{rendering, rendering_inner};
use crate::reader::tokenizer::{Lexed, Lexeme};
use crate::reader::{parse, parse_list};
use crate::text::{decimal_of, integer_of, uppercase};
use vstd::prelude::*;

verus! {

/// The canonical text of a token: a parenthesis as it is, an identifier in
/// upper case, an integer in decimal notation without sign or leading zeros
/// that it does not need, a string between double quotes.
pub open spec fn token_text(token: Lexed) -> Seq<char> {
    match token {
        Ok(Lexeme::OpenList) => "("@,
        Ok(Lexeme::CloseList) => ")"@,
        Ok(Lexeme::Identifier(name)) => uppercase(name),
        Ok(Lexeme::Integer(digits)) => match integer_of(digits) {
            Some(i) => decimal_of(i),
            None => digits,
        },
        Ok(Lexeme::Text(text)) => "\""@ + text + "\""@,
        _ => Seq::empty(),
    }
}

/// The canonical texts of the tokens, a space before each.
pub open spec fn spaced(tokens: Seq<Lexed>) -> Seq<char>
    decreases tokens.len(),
{
    if tokens.len() == 0 {
        Seq::empty()
    } else {
        " "@ + token_text(tokens[0]) + spaced(tokens.drop_first())
    }
}

/// The canonical text of a sequence of tokens: their canonical texts with one
/// space between each two.
pub open spec fn canonical(tokens: Seq<Lexed>) -> Seq<char> {
    if tokens.len() == 0 {
        Seq::empty()
    } else {
        token_text(tokens[0]) + spaced(tokens.drop_first())
    }
}

/// Whether the token is the one given.
pub open spec fn is_token(token: Lexed, lexeme: Lexeme) -> bool {
    token == Ok::<Lexeme, Error>(lexeme)
}

/// Tokens without a quote mark. The reader writes a quote mark out as a list:
/// of tokens without one, the text of what was read is the canonical text.
pub open spec fn plain(tokens: Seq<Lexed>) -> bool {
    forall|i: int| 0 <= i < tokens.len() ==> !is_token(#[trigger] tokens[i], Lexeme::Quote)
}

/// The spaced text of two sequences of tokens, one after the other, is the
/// spaced text of the one followed by that of the other.
pub proof fn lemma_spaced_concat(a: Seq<Lexed>, b: Seq<Lexed>)
    ensures
        spaced(a + b) == spaced(a) + spaced(b),
    decreases a.len(),
{
    if a.len() == 0 {
        assert(a + b == b);
    } else {
        assert((a + b).drop_first() == a.drop_first() + b);
        lemma_spaced_concat(a.drop_first(), b);
    }
}

/// What is left of plain tokens after some were taken from the front is plain.
proof fn lemma_plain_skip(tokens: Seq<Lexed>, k: int)
    requires
        plain(tokens),
        0 <= k <= tokens.len(),
    ensures
        plain(tokens.skip(k)),
{
    let rest = tokens.skip(k);
    assert forall|i: int| 0 <= i < rest.len() implies !is_token(
        #[trigger] rest[i],
        Lexeme::Quote,
    ) by {
        assert(rest[i] == tokens[i + k]);
    }
}

/// The text of an expression read from plain tokens is the spaced text of the
/// tokens that it was read from.
proof fn lemma_expression_text(tokens: Seq<Lexed>)
    requires
        tokens.len() > 0,
        plain(tokens),
        parse(tokens).0 is Ok,
    ensures
        ({
            let (result, rest) = parse(tokens);
            let taken = tokens.len() - rest.len();
            &&& 0 < taken <= tokens.len()
            &&& rest == tokens.skip(taken)
            &&& " "@ + rendering(result->Ok_0) == spaced(tokens.take(taken))
        }),
    decreases tokens.len(), 0nat,
{
    let (result, rest) = parse(tokens);
    let value = result->Ok_0;
    let after = tokens.drop_first();
    let first = tokens[0];
    assert(tokens.skip(1) == after);
    assert(tokens.take(1) == seq![first]);
    assert(seq![first].drop_first() == Seq::<Lexed>::empty());
    assert(spaced(seq![first]) == " "@ + token_text(first) + spaced(Seq::<Lexed>::empty()));
    assert(spaced(seq![first]) == " "@ + token_text(first));
    assert(!is_token(first, Lexeme::Quote));
    match first {
        Ok(Lexeme::OpenList) => {
            lemma_plain_skip(tokens, 1);
            lemma_list_text(after);
            let inner = tokens.len() - 1 - rest.len();
            assert(after.skip(inner) == tokens.skip(inner + 1));
            assert(tokens.take(inner + 1) == seq![first] + after.take(inner));
            lemma_spaced_concat(seq![first], after.take(inner));
            assert(" "@ + rendering(value) == " "@ + "("@ + spaced(after.take(inner)));
        },
        Ok(Lexeme::Integer(digits)) => {
            assert(rendering(value) == token_text(first));
        },
        Ok(Lexeme::Text(text)) => {
            assert(rendering(value) == token_text(first));
        },
        Ok(Lexeme::Identifier(name)) => {
            assert(rendering(value) == token_text(first));
        },
        _ => {},
    }
}

/// The text of the elements of a list read from plain tokens, with the
/// closing parenthesis, is the spaced text of the tokens that they were read
/// from.
proof fn lemma_list_text(tokens: Seq<Lexed>)
    requires
        plain(tokens),
        parse_list(tokens).0 is Ok,
    ensures
        ({
            let (result, rest) = parse_list(tokens);
            let taken = tokens.len() - rest.len();
            &&& 0 < taken <= tokens.len()
            &&& rest == tokens.skip(taken)
            &&& (result->Ok_0 is Nil || result->Ok_0 is Cons)
            &&& rendering_inner(result->Ok_0) + " )"@ == spaced(tokens.take(taken))
        }),
    decreases tokens.len(), 1nat,
{
    let (result, rest) = parse_list(tokens);
    let value = result->Ok_0;
    assert(tokens.len() > 0);
    let first = tokens[0];
    assert(tokens.take(1) == seq![first]);
    assert(seq![first].drop_first() == Seq::<Lexed>::empty());
    assert(spaced(seq![first]) == " "@ + token_text(first) + spaced(Seq::<Lexed>::empty()));
    if is_token(first, Lexeme::CloseList) {
        assert(tokens.skip(1) == tokens.drop_first());
        assert(Seq::<char>::empty() + " )"@ == " "@ + ")"@) by {
            reveal_strlit(" )");
            reveal_strlit(" ");
            reveal_strlit(")");
            assert(Seq::<char>::empty() + " )"@ =~= " "@ + ")"@);
        }
        assert(rendering_inner(value) + " )"@ == spaced(tokens.take(1)));
    } else {
        let (head, middle) = parse(tokens);
        lemma_expression_text(tokens);
        let one = tokens.len() - middle.len();
        lemma_plain_skip(tokens, one);
        lemma_list_text(middle);
        let (tail, end) = parse_list(middle);
        let two = middle.len() - end.len();
        assert(middle.skip(two) == tokens.skip(one + two));
        assert(tokens.take(one + two) == tokens.take(one) + middle.take(two));
        lemma_spaced_concat(tokens.take(one), middle.take(two));
        assert(rendering_inner(value) == " "@ + rendering(head->Ok_0) + rendering_inner(
            tail->Ok_0,
        ));
        assert(rendering_inner(value) + " )"@ == (" "@ + rendering(head->Ok_0)) + (rendering_inner(
            tail->Ok_0,
        ) + " )"@));
    }
}

/// Reading, then printing: where tokens without a quote mark hold exactly one
/// expression, the text of the value read from them is their canonical text,
/// that is the tokens with one space between each two, each identifier in
/// upper case.
pub proof fn lemma_read_then_render(tokens: Seq<Lexed>)
    requires
        tokens.len() > 0,
        plain(tokens),
        parse(tokens).0 is Ok,
        parse(tokens).1.len() == 0,
    ensures
        rendering(parse(tokens).0->Ok_0) == canonical(tokens),
{
    lemma_expression_text(tokens);
    let value = parse(tokens).0->Ok_0;
    assert(tokens.take(tokens.len() as int) == tokens);
    let left = " "@ + rendering(value);
    let right = " "@ + canonical(tokens);
    assert(spaced(tokens) == right);
    reveal_strlit(" ");
    assert(left.drop_first() == rendering(value));
    assert(right.drop_first() == canonical(tokens));
}

} // verus!
