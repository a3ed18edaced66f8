//! What holds of the grammar for every text.

use crate::grammar::{
    digit, followed_by_equals, keyword, lemma_run_end_bounds, lemma_token_end_bounds, letter,
    run_end, spelling, starts_from, token_at, token_end, token_start, tokens_from, whitespace,
    word, CharClass,
};
use crate::lexer::tokenize;
use crate::token::{Token, TokenView};
use vstd::prelude::*;

verus! {

/// A run is made of characters of its class only, and it is maximal: it
/// stops at the end of the text or in front of a character that is not of
/// the class.
pub proof fn theorem_run_is_maximal(s: Seq<char>, i: int, class: CharClass)
    requires
        0 <= i <= s.len(),
    ensures
        i <= run_end(s, i, class) <= s.len(),
        forall|k: int| i <= k < run_end(s, i, class) ==> class.has(#[trigger] s[k]),
        run_end(s, i, class) < s.len() ==> !class.has(s[run_end(s, i, class)]),
    decreases s.len() - i,
{
    if i < s.len() && class.has(s[i]) {
        theorem_run_is_maximal(s, i + 1, class);
    }
}

/// No other position ends the run: a stretch of characters of the class
/// that starts at `i` and cannot be extended stops where `run_end` says.
pub proof fn theorem_run_is_unique(s: Seq<char>, i: int, j: int, class: CharClass)
    requires
        0 <= i <= j <= s.len(),
        forall|k: int| i <= k < j ==> class.has(#[trigger] s[k]),
        j < s.len() ==> !class.has(s[j]),
    ensures
        run_end(s, i, class) == j,
    decreases j - i,
{
    if i < j {
        assert(class.has(s[i]));
        theorem_run_is_unique(s, i + 1, j, class);
    }
}

/// Maximal munch. A token that starts with a letter or a digit takes the
/// whole run of letters, or of digits, that starts there: every character
/// of the token is of that class, and the token stops at the end of the
/// text or in front of a character of another kind. The text it captures
/// is that stretch of the source, unchanged.
pub proof fn theorem_maximal_munch(s: Seq<char>, p: int)
    requires
        0 <= p < s.len(),
        letter(s[p]) || digit(s[p]),
    ensures
        ({
            let e = token_end(s, p);
            let class = if letter(s[p]) {
                CharClass::Letter
            } else {
                CharClass::Digit
            };
            &&& p < e <= s.len()
            &&& forall|k: int| p <= k < e ==> class.has(#[trigger] s[k])
            &&& e < s.len() ==> !class.has(s[e])
            &&& letter(s[p]) ==> token_at(s, p) == word(s.subrange(p, e))
            &&& digit(s[p]) ==> token_at(s, p) == TokenView::Int(s.subrange(p, e))
        }),
{
    lemma_token_end_bounds(s, p);
    theorem_run_is_maximal(s, p, CharClass::Letter);
    theorem_run_is_maximal(s, p, CharClass::Digit);
}

/// Keyword exactness. A run of letters becomes a keyword token exactly
/// when it spells that keyword, and an identifier carrying the run itself
/// exactly when it spells none of the seven.
pub proof fn theorem_keywords_are_exact(text: Seq<char>)
    ensures
        word(text) == TokenView::Function <==> text == "fn"@,
        word(text) == TokenView::Let <==> text == "let"@,
        word(text) == TokenView::If <==> text == "if"@,
        word(text) == TokenView::Else <==> text == "else"@,
        word(text) == TokenView::Return <==> text == "return"@,
        word(text) == TokenView::True <==> text == "true"@,
        word(text) == TokenView::False <==> text == "false"@,
        word(text) == TokenView::Ident(text) <==> keyword(text) is None,
        keyword(text) is None <==> {
            &&& text != "fn"@
            &&& text != "let"@
            &&& text != "if"@
            &&& text != "else"@
            &&& text != "return"@
            &&& text != "true"@
            &&& text != "false"@
        },
{
    reveal_strlit("fn");
    reveal_strlit("let");
    reveal_strlit("if");
    reveal_strlit("else");
    reveal_strlit("return");
    reveal_strlit("true");
    reveal_strlit("false");
    assert("fn"@.len() == 2 && "fn"@[0] == 'f');
    assert("if"@.len() == 2 && "if"@[0] == 'i');
    assert("let"@.len() == 3);
    assert("else"@.len() == 4 && "else"@[0] == 'e');
    assert("true"@.len() == 4 && "true"@[0] == 't');
    assert("false"@.len() == 5);
    assert("return"@.len() == 6);
}

/// One character of lookahead. `=` or `!` with `=` right behind it is one
/// token of two characters; without it, it is one token of one character,
/// and reading goes on with the character behind it.
pub proof fn theorem_lookahead(s: Seq<char>, p: int)
    requires
        0 <= p < s.len(),
        s[p] == '=' || s[p] == '!',
    ensures
        tokens_from(s, p) == seq![token_at(s, p)] + tokens_from(s, token_end(s, p)),
        followed_by_equals(s, p) ==> token_end(s, p) == p + 2,
        !followed_by_equals(s, p) ==> token_end(s, p) == p + 1,
        s[p] == '=' ==> token_at(s, p) == if followed_by_equals(s, p) {
            TokenView::Eq
        } else {
            TokenView::Assign
        },
        s[p] == '!' ==> token_at(s, p) == if followed_by_equals(s, p) {
            TokenView::NotEq
        } else {
            TokenView::Bang
        },
{
}

/// Fidelity to the source. A token stands for exactly the characters it
/// was read from: the stretch of text between its start and its end is
/// its spelling, character for character. For identifiers and integer
/// literals that is the captured text; a character without meaning is read
/// as `Illegal`, one character long.
pub proof fn theorem_token_spells_its_source(s: Seq<char>, p: int)
    requires
        0 <= p < s.len(),
    ensures
        token_at(s, p) != TokenView::Illegal ==> spelling(token_at(s, p)) == s.subrange(
            p,
            token_end(s, p),
        ),
        token_at(s, p) == TokenView::Illegal ==> token_end(s, p) == p + 1,
        token_at(s, p) matches TokenView::Ident(text) ==> text == s.subrange(p, token_end(s, p)),
        token_at(s, p) matches TokenView::Int(text) ==> text == s.subrange(p, token_end(s, p)),
{
    let source = s.subrange(p, token_end(s, p));
    lemma_token_end_bounds(s, p);
    if letter(s[p]) {
        theorem_keywords_are_exact(source);
    } else if digit(s[p]) {
    } else if (s[p] == '=' || s[p] == '!') && followed_by_equals(s, p) {
        reveal_strlit("==");
        reveal_strlit("!=");
        assert(source =~= seq![s[p], '=']);
        assert("=="@ =~= seq!['=', '=']);
        assert("!="@ =~= seq!['!', '=']);
    } else {
        reveal_strlit("=");
        reveal_strlit("+");
        reveal_strlit("-");
        reveal_strlit("!");
        reveal_strlit("*");
        reveal_strlit("/");
        reveal_strlit("<");
        reveal_strlit(">");
        reveal_strlit(",");
        reveal_strlit(";");
        reveal_strlit("(");
        reveal_strlit(")");
        reveal_strlit("{");
        reveal_strlit("}");
        assert(source =~= seq![s[p]]);
        assert("="@ =~= seq!['=']);
        assert("+"@ =~= seq!['+']);
        assert("-"@ =~= seq!['-']);
        assert("!"@ =~= seq!['!']);
        assert("*"@ =~= seq!['*']);
        assert("/"@ =~= seq!['/']);
        assert("<"@ =~= seq!['<']);
        assert(">"@ =~= seq!['>']);
        assert(","@ =~= seq![',']);
        assert(";"@ =~= seq![';']);
        assert("("@ =~= seq!['(']);
        assert(")"@ =~= seq![')']);
        assert("{"@ =~= seq!['{']);
        assert("}"@ =~= seq!['}']);
    }
}

/// The end is final. Where only whitespace is left, the next token is
/// `Eof`, reading it moves to the end of the text, and from there every
/// further token is `Eof` again, with the position unchanged.
pub proof fn theorem_end_is_final(s: Seq<char>, i: int)
    requires
        0 <= i <= s.len(),
        token_at(s, token_start(s, i)) == TokenView::Eof,
    ensures
        token_end(s, token_start(s, i)) == s.len(),
        tokens_from(s, i) == Seq::<TokenView>::empty(),
        token_at(s, token_start(s, s.len() as int)) == TokenView::Eof,
        token_end(s, token_start(s, s.len() as int)) == s.len(),
{
    lemma_run_end_bounds(s, i, CharClass::Whitespace);
    let p = token_start(s, i);
    theorem_keywords_are_exact(s.subrange(p, run_end(s, p, CharClass::Letter)));
}

/// Whether position `k` lies inside one of the tokens that start at
/// `starts`.
pub open spec fn covered(s: Seq<char>, starts: Seq<int>, k: int) -> bool {
    exists|j: int| 0 <= j < starts.len() && #[trigger] starts[j] <= k < token_end(s, starts[j])
}

/// A token that starts at a character other than whitespace holds no
/// whitespace at all.
pub proof fn lemma_token_holds_no_whitespace(s: Seq<char>, p: int)
    requires
        0 <= p < s.len(),
        !whitespace(s[p]),
    ensures
        forall|k: int| p <= k < token_end(s, p) ==> !whitespace(#[trigger] s[k]),
{
    theorem_run_is_maximal(s, p, CharClass::Letter);
    theorem_run_is_maximal(s, p, CharClass::Digit);
    assert forall|k: int| p <= k < token_end(s, p) implies !whitespace(#[trigger] s[k]) by {
        if letter(s[p]) {
            assert(CharClass::Letter.has(s[k]));
        } else if digit(s[p]) {
            assert(CharClass::Digit.has(s[k]));
        }
    }
}

/// Coverage. The tokens read from `i` onwards lie in the text one after
/// the other, without overlap, each at least one character long; and a
/// character at or after `i` lies inside one of them exactly when it is
/// not whitespace. So nothing but whitespace is passed over, and no
/// character is consumed twice.
pub proof fn theorem_coverage(s: Seq<char>, i: int)
    requires
        0 <= i <= s.len(),
    ensures
        tokens_from(s, i).len() == starts_from(s, i).len(),
        forall|j: int|
            0 <= j < starts_from(s, i).len() ==> #[trigger] tokens_from(s, i)[j] == token_at(
                s,
                starts_from(s, i)[j],
            ),
        forall|j: int|
            0 <= j < starts_from(s, i).len() ==> i <= #[trigger] starts_from(s, i)[j] < token_end(
                s,
                starts_from(s, i)[j],
            ) <= s.len(),
        forall|j: int, l: int|
            0 <= j < l < starts_from(s, i).len() ==> token_end(s, #[trigger] starts_from(s, i)[j])
                <= #[trigger] starts_from(s, i)[l],
        forall|k: int|
            i <= k < s.len() ==> (#[trigger] covered(s, starts_from(s, i), k) <==> !whitespace(
                s[k],
            )),
    decreases s.len() - i,
{
    let p = token_start(s, i);
    let starts = starts_from(s, i);
    theorem_run_is_maximal(s, i, CharClass::Whitespace);
    if p < s.len() {
        // The first token lies in [p, e); the others are those read from e.
        let e = token_end(s, p);
        let rest = starts_from(s, e);
        lemma_token_end_bounds(s, p);
        lemma_token_holds_no_whitespace(s, p);
        theorem_coverage(s, e);
        assert(starts[0] == p);
        assert forall|j: int| 1 <= j < starts.len() implies #[trigger] starts[j] == rest[j - 1]
            && tokens_from(s, i)[j] == tokens_from(s, e)[j - 1] by {}
        assert forall|k: int| i <= k < s.len() implies (#[trigger] covered(s, starts, k)
            <==> !whitespace(s[k])) by {
            if covered(s, starts, k) {
                let j = choose|j: int|
                    0 <= j < starts.len() && #[trigger] starts[j] <= k < token_end(s, starts[j]);
                if j > 0 {
                    assert(rest[j - 1] <= k < token_end(s, rest[j - 1]));
                    assert(covered(s, rest, k));
                }
            }
            if !whitespace(s[k]) {
                if k < p {
                    assert(CharClass::Whitespace.has(s[k]));
                } else if k < e {
                    assert(starts[0] <= k < token_end(s, starts[0]));
                } else {
                    assert(covered(s, rest, k));
                    let j = choose|j: int|
                        0 <= j < rest.len() && #[trigger] rest[j] <= k < token_end(s, rest[j]);
                    assert(starts[j + 1] <= k < token_end(s, starts[j + 1]));
                }
            }
        }
    } else {
        assert forall|k: int| i <= k < s.len() implies (#[trigger] covered(s, starts, k)
            <==> !whitespace(s[k])) by {
            assert(CharClass::Whitespace.has(s[k]));
        }
    }
}

/// Determinism. Scanning the same text again reads the same tokens:
/// whatever two runs of [`tokenize`] on one text return, the two results
/// are equal token for token.
pub proof fn theorem_determinism(input: &str, first: Vec<Token>, second: Vec<Token>)
    requires
        call_ensures(tokenize, (input,), first),
        call_ensures(tokenize, (input,), second),
    ensures
        first.deep_view() == second.deep_view(),
{
}

} // verus!
