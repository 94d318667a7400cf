//! The tokenizer and the recursive-descent, precedence-climbing parser.
//!
//! The grammar, from loosest to tightest binding:
//!
//! ```text
//! expression := term (('+' | '-') term)*      left-associative
//! term       := power (('*' | '/') power)*    left-associative
//! power      := factor ('^' power)?           right-associative
//! factor     := NUMBER | ('+' | '-') factor | '(' expression ')'
//! ```
//!
//! The meaning of an input is fixed by a specification-level model: the
//! character sequence denotes a stream of tokens (`spec_lex`), and the
//! stream denotes a value or an error (`spec_parse`). The executable
//! parser is proved to return exactly what the model says, for every
//! input.

use vstd::prelude::*;

use crate::errors::CalculatorError;
use crate::errors::CalculatorResult;
use crate::errors::ErrView;
use crate::value::Value;
use crate::value::spec_add;
use crate::value::spec_div;
use crate::value::spec_mul;
use crate::value::spec_neg;
use crate::value::spec_pow;
use crate::value::spec_sub;

verus! {

/// A lexical token: a number, an operator, a parenthesis, or the end of
/// the input.
#[derive(Debug, Clone, Copy, PartialEq, Eq, Structural)]
pub enum Token {
    Number(Value),
    Plus,
    Minus,
    Multiply,
    Divide,
    Power,
    LeftParen,
    RightParen,
    End,
}

/// The characters the tokenizer skips between tokens: the Unicode
/// `White_Space` set, exactly as `char::is_whitespace` recognizes it.
pub open spec fn spec_is_space(c: char) -> bool {
    ||| c == ' '
    ||| c == '\u{9}'
    ||| c == '\u{a}'
    ||| c == '\u{b}'
    ||| c == '\u{c}'
    ||| c == '\u{d}'
    ||| c == '\u{85}'
    ||| c == '\u{a0}'
    ||| c == '\u{1680}'
    ||| c == '\u{2000}'
    ||| c == '\u{2001}'
    ||| c == '\u{2002}'
    ||| c == '\u{2003}'
    ||| c == '\u{2004}'
    ||| c == '\u{2005}'
    ||| c == '\u{2006}'
    ||| c == '\u{2007}'
    ||| c == '\u{2008}'
    ||| c == '\u{2009}'
    ||| c == '\u{200a}'
    ||| c == '\u{2028}'
    ||| c == '\u{2029}'
    ||| c == '\u{202f}'
    ||| c == '\u{205f}'
    ||| c == '\u{3000}'
}

/// A decimal digit.
pub open spec fn spec_is_digit(c: char) -> bool {
    48 <= c as u32 && c as u32 <= 57
}

/// Where the run of digits (with at most one decimal point) that starts
/// at `pos` ends.
pub open spec fn spec_num_end(chars: Seq<char>, pos: int, seen_dot: bool) -> int
    decreases chars.len() - pos,
{
    if 0 <= pos < chars.len() {
        let c = chars[pos];
        if spec_is_digit(c) {
            spec_num_end(chars, pos + 1, seen_dot)
        } else if c == '.' && !seen_dot {
            spec_num_end(chars, pos + 1, true)
        } else {
            pos
        }
    } else {
        pos
    }
}

/// The digits of a literal folded into an integer, the decimal point
/// skipped; `acc` is what has been read so far.
pub open spec fn spec_mantissa(lit: Seq<char>, i: int, acc: int) -> int
    decreases lit.len() - i,
{
    if 0 <= i < lit.len() {
        let c = lit[i];
        if spec_is_digit(c) {
            spec_mantissa(lit, i + 1, acc * 10 + (c as u32 - 48))
        } else {
            spec_mantissa(lit, i + 1, acc)
        }
    } else {
        acc
    }
}

/// Ten to the number of digits after the decimal point.
pub open spec fn spec_denominator(lit: Seq<char>, i: int, seen_dot: bool, acc: int) -> int
    decreases lit.len() - i,
{
    if 0 <= i < lit.len() {
        let c = lit[i];
        if c == '.' {
            spec_denominator(lit, i + 1, true, acc)
        } else if seen_dot {
            spec_denominator(lit, i + 1, seen_dot, acc * 10)
        } else {
            spec_denominator(lit, i + 1, seen_dot, acc)
        }
    } else {
        acc
    }
}

/// Whether the literal holds at least one digit (a lone `.` does not).
pub open spec fn spec_has_digit(lit: Seq<char>, i: int) -> bool
    decreases lit.len() - i,
{
    if 0 <= i < lit.len() {
        spec_is_digit(lit[i]) || spec_has_digit(lit, i + 1)
    } else {
        false
    }
}

/// The exact value of a numeric literal: its digits as the numerator and
/// a power of ten as the denominator. `None` when the literal holds no
/// digit at all, or when either part leaves the representable range.
pub open spec fn spec_lit_value(lit: Seq<char>) -> Option<Value> {
    let m = spec_mantissa(lit, 0, 0);
    let d = spec_denominator(lit, 0, false, 1);
    if spec_has_digit(lit, 0) && m <= i64::MAX && d <= i64::MAX {
        Some(Value { num: m as i64, den: d as i64 })
    } else {
        None
    }
}

/// How a token stream ends: cleanly at the end of the input, or at a
/// character or literal the tokenizer rejects.
pub enum StreamEnd {
    Clean,
    Fail(ErrView),
}

/// The stream of tokens a character sequence denotes: the well-formed
/// tokens in order, and how the stream ends after them.
pub struct TokenStream {
    pub toks: Seq<Token>,
    pub end: StreamEnd,
}

pub open spec fn stream_cons(t: Token, s: TokenStream) -> TokenStream {
    TokenStream { toks: seq![t] + s.toks, end: s.end }
}

/// The token stream starting at position `pos` of the input.
pub open spec fn spec_lex(chars: Seq<char>, pos: int) -> TokenStream
    decreases chars.len() - pos,
{
    if !(0 <= pos < chars.len()) {
        TokenStream { toks: Seq::<Token>::empty(), end: StreamEnd::Clean }
    } else {
        let c = chars[pos];
        if spec_is_space(c) {
            spec_lex(chars, pos + 1)
        } else if c == '+' {
            stream_cons(Token::Plus, spec_lex(chars, pos + 1))
        } else if c == '-' {
            stream_cons(Token::Minus, spec_lex(chars, pos + 1))
        } else if c == '*' {
            stream_cons(Token::Multiply, spec_lex(chars, pos + 1))
        } else if c == '/' {
            stream_cons(Token::Divide, spec_lex(chars, pos + 1))
        } else if c == '^' {
            stream_cons(Token::Power, spec_lex(chars, pos + 1))
        } else if c == '(' {
            stream_cons(Token::LeftParen, spec_lex(chars, pos + 1))
        } else if c == ')' {
            stream_cons(Token::RightParen, spec_lex(chars, pos + 1))
        } else if spec_is_digit(c) || c == '.' {
            let e = spec_num_end(chars, pos, false);
            if pos < e <= chars.len() {
                let lit = chars.subrange(pos, e);
                match spec_lit_value(lit) {
                    Some(v) => stream_cons(Token::Number(v), spec_lex(chars, e)),
                    None => TokenStream {
                        toks: Seq::<Token>::empty(),
                        end: StreamEnd::Fail(ErrView::InvalidNum(lit)),
                    },
                }
            } else {
                // A digit run never ends before it starts; this branch is
                // dead (see `lemma_num_end_bounds`).
                TokenStream { toks: Seq::<Token>::empty(), end: StreamEnd::Clean }
            }
        } else {
            TokenStream {
                toks: Seq::<Token>::empty(),
                end: StreamEnd::Fail(ErrView::Parse("invalid character: "@.push(c))),
            }
        }
    }
}

/// A number token is well formed and non-negative (a sign is a separate
/// token); every other token is trivially well formed.
pub open spec fn tok_wf(t: Token) -> bool {
    match t {
        Token::Number(v) => v.wf() && v.num >= 0,
        _ => true,
    }
}

/// Every token of the stream is well formed.
pub open spec fn stream_wf(s: TokenStream) -> bool {
    forall|i: int| 0 <= i < s.toks.len() ==> tok_wf(#[trigger] s.toks[i])
}

/// The token the parser sees next.
pub enum Lookahead {
    Tok(Token),
    End,
    Fail(ErrView),
}

pub open spec fn stream_head(s: TokenStream) -> Lookahead {
    if s.toks.len() > 0 {
        Lookahead::Tok(s.toks[0])
    } else {
        match s.end {
            StreamEnd::Clean => Lookahead::End,
            StreamEnd::Fail(e) => Lookahead::Fail(e),
        }
    }
}

pub open spec fn stream_tail(s: TokenStream) -> TokenStream {
    TokenStream { toks: s.toks.drop_first(), end: s.end }
}

/// Consuming the current token. The parser reads the following token at
/// once, so a lexical error directly after the consumed token surfaces
/// here, before anything else looks at the stream.
pub open spec fn spec_advance(s: TokenStream) -> Result<TokenStream, ErrView> {
    let t = stream_tail(s);
    match stream_head(t) {
        Lookahead::Fail(e) => Err(e),
        _ => Ok(t),
    }
}

/// The outcome of one grammar rule: a value and the rest of the stream,
/// a failure, or `Stuck`, a formal placeholder on branches that
/// `lemma_factor_props` and its companions prove unreachable.
pub enum ParseStep {
    Done { v: Value, rest: TokenStream },
    Fail(ErrView),
    Stuck,
}

/// `factor := NUMBER | ('+' | '-') factor | '(' expression ')'`.
pub open spec fn spec_factor(s: TokenStream) -> ParseStep
    decreases s.toks.len(), 0int,
{
    match stream_head(s) {
        Lookahead::Fail(e) => ParseStep::Fail(e),
        Lookahead::End => ParseStep::Fail(
            ErrView::Parse("expected number or left parenthesis"@),
        ),
        Lookahead::Tok(t) => match t {
            Token::Number(v) => match spec_advance(s) {
                Ok(r) => ParseStep::Done { v, rest: r },
                Err(e) => ParseStep::Fail(e),
            },
            Token::Minus => match spec_advance(s) {
                Ok(r) => match spec_factor(r) {
                    ParseStep::Done { v, rest } => match spec_neg(v) {
                        Some(v2) => ParseStep::Done { v: v2, rest },
                        None => ParseStep::Fail(ErrView::NotRep),
                    },
                    other => other,
                },
                Err(e) => ParseStep::Fail(e),
            },
            Token::Plus => match spec_advance(s) {
                Ok(r) => spec_factor(r),
                Err(e) => ParseStep::Fail(e),
            },
            Token::LeftParen => match spec_advance(s) {
                Ok(r) => match spec_expression(r) {
                    ParseStep::Done { v, rest } => match stream_head(rest) {
                        Lookahead::Tok(Token::RightParen) => match spec_advance(rest) {
                            Ok(r2) => ParseStep::Done { v, rest: r2 },
                            Err(e) => ParseStep::Fail(e),
                        },
                        Lookahead::Fail(e) => ParseStep::Fail(e),
                        _ => ParseStep::Fail(ErrView::Unbalanced),
                    },
                    other => other,
                },
                Err(e) => ParseStep::Fail(e),
            },
            _ => ParseStep::Fail(ErrView::Parse("expected number or left parenthesis"@)),
        },
    }
}

/// `power := factor ('^' power)?`, right-associative: the right-hand side
/// is a whole `power`, parsed before the exponentiation is applied.
pub open spec fn spec_power(s: TokenStream) -> ParseStep
    decreases s.toks.len(), 1int,
{
    match spec_factor(s) {
        ParseStep::Done { v, rest } => match stream_head(rest) {
            Lookahead::Tok(Token::Power) => if rest.toks.len() < s.toks.len() {
                match spec_advance(rest) {
                    Ok(r1) => match spec_power(r1) {
                        ParseStep::Done { v: v2, rest: r2 } => match spec_pow(v, v2) {
                            Some(v3) => ParseStep::Done { v: v3, rest: r2 },
                            None => ParseStep::Fail(ErrView::NotRep),
                        },
                        other => other,
                    },
                    Err(e) => ParseStep::Fail(e),
                }
            } else {
                ParseStep::Stuck
            },
            _ => ParseStep::Done { v, rest },
        },
        other => other,
    }
}

/// The iterated part of `term`: folds `* power` and `/ power` onto the
/// accumulated value, left to right. The right operand of `/` is
/// rejected when it is zero, before any division happens.
pub open spec fn spec_term_more(acc: Value, s: TokenStream) -> ParseStep
    decreases s.toks.len(), 2int,
{
    match stream_head(s) {
        Lookahead::Tok(Token::Multiply) => match spec_advance(s) {
            Ok(r) => match spec_power(r) {
                ParseStep::Done { v, rest } => match spec_mul(acc, v) {
                    Some(a2) => if rest.toks.len() < s.toks.len() {
                        spec_term_more(a2, rest)
                    } else {
                        ParseStep::Stuck
                    },
                    None => ParseStep::Fail(ErrView::NotRep),
                },
                other => other,
            },
            Err(e) => ParseStep::Fail(e),
        },
        Lookahead::Tok(Token::Divide) => match spec_advance(s) {
            Ok(r) => match spec_power(r) {
                ParseStep::Done { v, rest } => if v.num == 0 {
                    ParseStep::Fail(ErrView::DivZero)
                } else {
                    match spec_div(acc, v) {
                        Some(a2) => if rest.toks.len() < s.toks.len() {
                            spec_term_more(a2, rest)
                        } else {
                            ParseStep::Stuck
                        },
                        None => ParseStep::Fail(ErrView::NotRep),
                    }
                },
                other => other,
            },
            Err(e) => ParseStep::Fail(e),
        },
        _ => ParseStep::Done { v: acc, rest: s },
    }
}

/// `term := power (('*' | '/') power)*`, left-associative.
pub open spec fn spec_term(s: TokenStream) -> ParseStep
    decreases s.toks.len(), 3int,
{
    match spec_power(s) {
        ParseStep::Done { v, rest } => if rest.toks.len() < s.toks.len() {
            spec_term_more(v, rest)
        } else {
            ParseStep::Stuck
        },
        other => other,
    }
}

/// The iterated part of `expression`: folds `+ term` and `- term` onto
/// the accumulated value, left to right.
pub open spec fn spec_expr_more(acc: Value, s: TokenStream) -> ParseStep
    decreases s.toks.len(), 4int,
{
    match stream_head(s) {
        Lookahead::Tok(Token::Plus) => match spec_advance(s) {
            Ok(r) => match spec_term(r) {
                ParseStep::Done { v, rest } => match spec_add(acc, v) {
                    Some(a2) => if rest.toks.len() < s.toks.len() {
                        spec_expr_more(a2, rest)
                    } else {
                        ParseStep::Stuck
                    },
                    None => ParseStep::Fail(ErrView::NotRep),
                },
                other => other,
            },
            Err(e) => ParseStep::Fail(e),
        },
        Lookahead::Tok(Token::Minus) => match spec_advance(s) {
            Ok(r) => match spec_term(r) {
                ParseStep::Done { v, rest } => match spec_sub(acc, v) {
                    Some(a2) => if rest.toks.len() < s.toks.len() {
                        spec_expr_more(a2, rest)
                    } else {
                        ParseStep::Stuck
                    },
                    None => ParseStep::Fail(ErrView::NotRep),
                },
                other => other,
            },
            Err(e) => ParseStep::Fail(e),
        },
        _ => ParseStep::Done { v: acc, rest: s },
    }
}

/// `expression := term (('+' | '-') term)*`, left-associative.
pub open spec fn spec_expression(s: TokenStream) -> ParseStep
    decreases s.toks.len(), 5int,
{
    match spec_term(s) {
        ParseStep::Done { v, rest } => if rest.toks.len() < s.toks.len() {
            spec_expr_more(v, rest)
        } else {
            ParseStep::Stuck
        },
        other => other,
    }
}

/// The whole input as one expression: after it, the stream must be at its
/// clean end, or the leftover is reported.
pub open spec fn spec_parse(s: TokenStream) -> Result<Value, ErrView> {
    match spec_expression(s) {
        ParseStep::Done { v, rest } => match stream_head(rest) {
            Lookahead::End => Ok(v),
            Lookahead::Fail(e) => Err(e),
            Lookahead::Tok(_) => Err(ErrView::Parse("expression not fully parsed"@)),
        },
        ParseStep::Fail(e) => Err(e),
        ParseStep::Stuck => Err(ErrView::Empty),
    }
}

pub open spec fn spec_all_whitespace(chars: Seq<char>) -> bool {
    forall|i: int| 0 <= i < chars.len() ==> spec_is_space(#[trigger] chars[i])
}

/// What evaluating an expression string yields: empty input is rejected
/// first; otherwise the input is tokenized and parsed as one expression.
pub open spec fn spec_evaluate(chars: Seq<char>) -> Result<Value, ErrView> {
    if spec_all_whitespace(chars) {
        Err(ErrView::Empty)
    } else {
        spec_parse(spec_lex(chars, 0))
    }
}

proof fn lemma_num_end_bounds(chars: Seq<char>, pos: int, seen_dot: bool)
    requires
        0 <= pos <= chars.len(),
    ensures
        pos <= spec_num_end(chars, pos, seen_dot) <= chars.len(),
    decreases chars.len() - pos,
{
    if pos < chars.len() {
        let c = chars[pos];
        if spec_is_digit(c) {
            lemma_num_end_bounds(chars, pos + 1, seen_dot);
        } else if c == '.' && !seen_dot {
            lemma_num_end_bounds(chars, pos + 1, true);
        }
    }
}

/// The mantissa fold never shrinks below what is already accumulated.
proof fn lemma_mantissa_lb(lit: Seq<char>, i: int, acc: int)
    requires
        acc >= 0,
    ensures
        spec_mantissa(lit, i, acc) >= acc,
    decreases lit.len() - i,
{
    if 0 <= i < lit.len() {
        let c = lit[i];
        if spec_is_digit(c) {
            lemma_mantissa_lb(lit, i + 1, acc * 10 + (c as u32 - 48));
        } else {
            lemma_mantissa_lb(lit, i + 1, acc);
        }
    }
}

/// The denominator fold never shrinks below what is already accumulated.
proof fn lemma_denominator_lb(lit: Seq<char>, i: int, seen_dot: bool, acc: int)
    requires
        acc >= 1,
    ensures
        spec_denominator(lit, i, seen_dot, acc) >= acc,
    decreases lit.len() - i,
{
    if 0 <= i < lit.len() {
        let c = lit[i];
        if c == '.' {
            lemma_denominator_lb(lit, i + 1, true, acc);
        } else if seen_dot {
            lemma_denominator_lb(lit, i + 1, seen_dot, acc * 10);
        } else {
            lemma_denominator_lb(lit, i + 1, seen_dot, acc);
        }
    }
}

proof fn lemma_cons_wf(t: Token, s: TokenStream)
    requires
        tok_wf(t),
        stream_wf(s),
    ensures
        stream_wf(stream_cons(t, s)),
{
    assert forall|i: int|
        0 <= i < stream_cons(t, s).toks.len() implies tok_wf(
        #[trigger] stream_cons(t, s).toks[i],
    ) by {
        if i == 0 {
            assert(stream_cons(t, s).toks[i] == t);
        } else {
            assert(stream_cons(t, s).toks[i] == s.toks[i - 1]);
        }
    }
}

/// Every token stream the tokenizer denotes is well formed.
proof fn lemma_lex_wf(chars: Seq<char>, pos: int)
    ensures
        stream_wf(spec_lex(chars, pos)),
    decreases chars.len() - pos,
{
    if 0 <= pos < chars.len() {
        let c = chars[pos];
        if spec_is_space(c) {
            lemma_lex_wf(chars, pos + 1);
        } else if c == '+' || c == '-' || c == '*' || c == '/' || c == '^' || c == '(' || c
            == ')' {
            lemma_lex_wf(chars, pos + 1);
            lemma_cons_wf(spec_lex(chars, pos).toks[0], spec_lex(chars, pos + 1));
        } else if spec_is_digit(c) || c == '.' {
            if spec_is_digit(c) {
                lemma_num_end_bounds(chars, pos + 1, false);
            } else {
                lemma_num_end_bounds(chars, pos + 1, true);
            }
            let e = spec_num_end(chars, pos, false);
            assert(pos < e <= chars.len());
            let lit = chars.subrange(pos, e);
            match spec_lit_value(lit) {
                Some(v) => {
                    lemma_mantissa_lb(lit, 0, 0);
                    lemma_denominator_lb(lit, 0, false, 1);
                    lemma_lex_wf(chars, e);
                    lemma_cons_wf(Token::Number(v), spec_lex(chars, e));
                },
                None => {},
            }
        }
    }
}

/// What consuming one token guarantees: one token shorter, no pending
/// failure at the new head, and well-formedness kept.
proof fn lemma_advance_props(s: TokenStream)
    requires
        s.toks.len() > 0,
    ensures
        spec_advance(s) matches Ok(r) ==> r.toks.len() == s.toks.len() - 1 && !(stream_head(r)
            is Fail) && (stream_wf(s) ==> stream_wf(r)),
{
    let t = stream_tail(s);
    if stream_wf(s) {
        assert forall|i: int| 0 <= i < t.toks.len() implies tok_wf(#[trigger] t.toks[i]) by {
            assert(t.toks[i] == s.toks[i + 1]);
        }
    }
}

/// The properties of `spec_factor`, proved by induction together with the
/// other grammar rules: the rule never goes `Stuck`; on success it has
/// consumed at least one token; the rest of the stream has no failure at
/// its head; and on a well-formed stream the value and the rest are well
/// formed.
proof fn lemma_factor_props(s: TokenStream)
    ensures
        !(spec_factor(s) is Stuck),
        spec_factor(s) matches ParseStep::Done { v, rest } ==> rest.toks.len() < s.toks.len()
            && !(stream_head(rest) is Fail) && (stream_wf(s) ==> v.wf() && stream_wf(rest)),
    decreases s.toks.len(), 0int,
{
    match stream_head(s) {
        Lookahead::Tok(t) => {
            match t {
                Token::Number(_) => {
                    lemma_advance_props(s);
                },
                Token::Minus => {
                    lemma_advance_props(s);
                    match spec_advance(s) {
                        Ok(r) => {
                            lemma_factor_props(r);
                        },
                        Err(_) => {},
                    }
                },
                Token::Plus => {
                    lemma_advance_props(s);
                    match spec_advance(s) {
                        Ok(r) => {
                            lemma_factor_props(r);
                        },
                        Err(_) => {},
                    }
                },
                Token::LeftParen => {
                    lemma_advance_props(s);
                    match spec_advance(s) {
                        Ok(r) => {
                            lemma_expression_props(r);
                            match spec_expression(r) {
                                ParseStep::Done { v: _, rest } => {
                                    match stream_head(rest) {
                                        Lookahead::Tok(t2) => {
                                            if t2 == Token::RightParen {
                                                lemma_advance_props(rest);
                                            }
                                        },
                                        _ => {},
                                    }
                                },
                                _ => {},
                            }
                        },
                        Err(_) => {},
                    }
                },
                _ => {},
            }
        },
        _ => {},
    }
}

/// The properties of `spec_power`; see `lemma_factor_props`.
proof fn lemma_power_props(s: TokenStream)
    ensures
        !(spec_power(s) is Stuck),
        spec_power(s) matches ParseStep::Done { v, rest } ==> rest.toks.len() < s.toks.len()
            && !(stream_head(rest) is Fail) && (stream_wf(s) ==> v.wf() && stream_wf(rest)),
    decreases s.toks.len(), 1int,
{
    lemma_factor_props(s);
    match spec_factor(s) {
        ParseStep::Done { v, rest } => {
            match stream_head(rest) {
                Lookahead::Tok(t) => {
                    if t == Token::Power {
                        lemma_advance_props(rest);
                        match spec_advance(rest) {
                            Ok(r1) => {
                                lemma_power_props(r1);
                                match spec_power(r1) {
                                    ParseStep::Done { v: v2, rest: _ } => {
                                        if stream_wf(s) {
                                            crate::value::lemma_pow_wf(v, v2);
                                        }
                                    },
                                    _ => {},
                                }
                            },
                            Err(_) => {},
                        }
                    }
                },
                _ => {},
            }
        },
        _ => {},
    }
}

/// The properties of `spec_term_more`: as `lemma_factor_props`, except
/// that the rest may be the whole stream when no `*` or `/` follows.
proof fn lemma_term_more_props(acc: Value, s: TokenStream)
    requires
        !(stream_head(s) is Fail),
    ensures
        !(spec_term_more(acc, s) is Stuck),
        spec_term_more(acc, s) matches ParseStep::Done { v, rest } ==> rest.toks.len()
            <= s.toks.len() && !(stream_head(rest) is Fail) && (stream_wf(s) && acc.wf()
            ==> v.wf() && stream_wf(rest)),
    decreases s.toks.len(), 2int,
{
    match stream_head(s) {
        Lookahead::Tok(t) => {
            if t == Token::Multiply || t == Token::Divide {
                lemma_advance_props(s);
                match spec_advance(s) {
                    Ok(r) => {
                        lemma_power_props(r);
                        match spec_power(r) {
                            ParseStep::Done { v, rest } => {
                                if stream_wf(s) && acc.wf() {
                                    crate::value::lemma_mul_wf(acc, v);
                                    crate::value::lemma_div_wf(acc, v);
                                }
                                let a2opt = if t == Token::Multiply {
                                    spec_mul(acc, v)
                                } else {
                                    spec_div(acc, v)
                                };
                                match a2opt {
                                    Some(a2) => {
                                        lemma_term_more_props(a2, rest);
                                    },
                                    None => {},
                                }
                            },
                            _ => {},
                        }
                    },
                    Err(_) => {},
                }
            }
        },
        _ => {},
    }
}

/// The properties of `spec_term`; see `lemma_factor_props`.
proof fn lemma_term_props(s: TokenStream)
    ensures
        !(spec_term(s) is Stuck),
        spec_term(s) matches ParseStep::Done { v, rest } ==> rest.toks.len() < s.toks.len()
            && !(stream_head(rest) is Fail) && (stream_wf(s) ==> v.wf() && stream_wf(rest)),
    decreases s.toks.len(), 3int,
{
    lemma_power_props(s);
    match spec_power(s) {
        ParseStep::Done { v, rest } => {
            lemma_term_more_props(v, rest);
        },
        _ => {},
    }
}

/// The properties of `spec_expr_more`; see `lemma_term_more_props`.
proof fn lemma_expr_more_props(acc: Value, s: TokenStream)
    requires
        !(stream_head(s) is Fail),
    ensures
        !(spec_expr_more(acc, s) is Stuck),
        spec_expr_more(acc, s) matches ParseStep::Done { v, rest } ==> rest.toks.len()
            <= s.toks.len() && !(stream_head(rest) is Fail) && (stream_wf(s) && acc.wf()
            ==> v.wf() && stream_wf(rest)),
    decreases s.toks.len(), 4int,
{
    match stream_head(s) {
        Lookahead::Tok(t) => {
            if t == Token::Plus || t == Token::Minus {
                lemma_advance_props(s);
                match spec_advance(s) {
                    Ok(r) => {
                        lemma_term_props(r);
                        match spec_term(r) {
                            ParseStep::Done { v, rest } => {
                                if stream_wf(s) && acc.wf() {
                                    crate::value::lemma_add_wf(acc, v);
                                    crate::value::lemma_sub_wf(acc, v);
                                }
                                let a2opt = if t == Token::Plus {
                                    spec_add(acc, v)
                                } else {
                                    spec_sub(acc, v)
                                };
                                match a2opt {
                                    Some(a2) => {
                                        lemma_expr_more_props(a2, rest);
                                    },
                                    None => {},
                                }
                            },
                            _ => {},
                        }
                    },
                    Err(_) => {},
                }
            }
        },
        _ => {},
    }
}

/// The properties of `spec_expression`; see `lemma_factor_props`.
proof fn lemma_expression_props(s: TokenStream)
    ensures
        !(spec_expression(s) is Stuck),
        spec_expression(s) matches ParseStep::Done { v, rest } ==> rest.toks.len()
            < s.toks.len() && !(stream_head(rest) is Fail) && (stream_wf(s) ==> v.wf()
            && stream_wf(rest)),
    decreases s.toks.len(), 5int,
{
    lemma_term_props(s);
    match spec_term(s) {
        ParseStep::Done { v, rest } => {
            lemma_expr_more_props(v, rest);
        },
        _ => {},
    }
}

pub(crate) fn is_space_char(c: char) -> (r: bool)
    ensures
        r == spec_is_space(c),
{
    c == ' ' || c == '\u{9}' || c == '\u{a}' || c == '\u{b}' || c == '\u{c}' || c == '\u{d}'
        || c == '\u{85}' || c == '\u{a0}' || c == '\u{1680}' || c == '\u{2000}' || c
        == '\u{2001}' || c == '\u{2002}' || c == '\u{2003}' || c == '\u{2004}' || c
        == '\u{2005}' || c == '\u{2006}' || c == '\u{2007}' || c == '\u{2008}' || c
        == '\u{2009}' || c == '\u{200a}' || c == '\u{2028}' || c == '\u{2029}' || c
        == '\u{202f}' || c == '\u{205f}' || c == '\u{3000}'
}

fn is_digit_char(c: char) -> (r: bool)
    ensures
        r == spec_is_digit(c),
{
    let u = c as u32;
    48 <= u && u <= 57
}

/// The parser: the input as characters, a cursor, and the single
/// lookahead token. A lexical error found while reading the very first
/// token is held back and reported when parsing starts.
pub struct Parser {
    input: Vec<char>,
    position: usize,
    current_token: Token,
    pending: Option<CalculatorError>,
}

impl Parser {
    /// The stream of tokens still ahead, the lookahead token included.
    pub closed spec fn stream(self) -> TokenStream {
        match self.pending {
            Some(e) => TokenStream { toks: Seq::<Token>::empty(), end: StreamEnd::Fail(e@) },
            None => if self.current_token == Token::End {
                TokenStream { toks: Seq::<Token>::empty(), end: StreamEnd::Clean }
            } else {
                stream_cons(self.current_token, spec_lex(self.input@, self.position as int))
            },
        }
    }

    pub closed spec fn wf(self) -> bool {
        &&& self.position <= self.input@.len()
        &&& stream_wf(self.stream())
    }

    fn skip_whitespace(&mut self)
        requires
            old(self).position <= old(self).input@.len(),
        ensures
            final(self).input == old(self).input,
            final(self).current_token == old(self).current_token,
            final(self).pending == old(self).pending,
            old(self).position <= final(self).position <= final(self).input@.len(),
            spec_lex(final(self).input@, final(self).position as int) == spec_lex(
                old(self).input@,
                old(self).position as int,
            ),
            final(self).position < final(self).input@.len() ==> !spec_is_space(
                final(self).input@[final(self).position as int],
            ),
    {
        while self.position < self.input.len() && is_space_char(self.input[self.position])
            invariant
                old(self).position <= self.position <= self.input@.len(),
                self.input == old(self).input,
                self.current_token == old(self).current_token,
                self.pending == old(self).pending,
                spec_lex(self.input@, self.position as int) == spec_lex(
                    old(self).input@,
                    old(self).position as int,
                ),
            decreases self.input@.len() - self.position,
        {
            self.position = self.position + 1;
        }
    }

    fn parse_number(&mut self) -> (r: CalculatorResult<Token>)
        requires
            old(self).position < old(self).input@.len(),
            spec_is_digit(old(self).input@[old(self).position as int]) || old(
                self,
            ).input@[old(self).position as int] == '.',
        ensures
            final(self).input == old(self).input,
            final(self).current_token == old(self).current_token,
            final(self).pending == old(self).pending,
            final(self).position <= final(self).input@.len(),
            final(self).position as int == spec_num_end(
                old(self).input@,
                old(self).position as int,
                false,
            ),
            ({
                let lit = old(self).input@.subrange(
                    old(self).position as int,
                    final(self).position as int,
                );
                match r {
                    Ok(t) => spec_lit_value(lit) matches Some(v) && t == Token::Number(v),
                    Err(e) => spec_lit_value(lit) is None && e@ == ErrView::InvalidNum(lit),
                }
            }),
    {
        let ghost chars = self.input@;
        let start = self.position;
        let mut has_dot = false;
        loop
            invariant
                chars == self.input@,
                start <= self.position <= self.input@.len(),
                self.input == old(self).input,
                self.current_token == old(self).current_token,
                self.pending == old(self).pending,
                spec_num_end(chars, self.position as int, has_dot) == spec_num_end(
                    chars,
                    start as int,
                    false,
                ),
                forall|j: int|
                    start <= j < self.position ==> spec_is_digit(#[trigger] chars[j])
                        || chars[j] == '.',
            ensures
                start <= self.position <= self.input@.len(),
                self.input == old(self).input,
                self.current_token == old(self).current_token,
                self.pending == old(self).pending,
                self.position as int == spec_num_end(chars, start as int, false),
                forall|j: int|
                    start <= j < self.position ==> spec_is_digit(#[trigger] chars[j])
                        || chars[j] == '.',
            decreases self.input@.len() - self.position,
        {
            if self.position >= self.input.len() {
                break;
            }
            let c = self.input[self.position];
            if is_digit_char(c) {
                self.position = self.position + 1;
            } else if c == '.' && !has_dot {
                has_dot = true;
                self.position = self.position + 1;
            } else {
                break;
            }
        }
        let end = self.position;
        let ghost lit = chars.subrange(start as int, end as int);
        let mut m: i64 = 0;
        let mut d: i64 = 1;
        let mut digit_seen = false;
        let mut seen_dot = false;
        let mut i = start;
        while i < end
            invariant
                start <= i <= end <= self.input@.len(),
                self.input@ == chars,
                start == old(self).position,
                end as int == spec_num_end(chars, start as int, false),
                self.position == end,
                self.input == old(self).input,
                self.current_token == old(self).current_token,
                self.pending == old(self).pending,
                lit == chars.subrange(start as int, end as int),
                forall|j: int|
                    start <= j < end ==> spec_is_digit(#[trigger] chars[j]) || chars[j] == '.',
                0 <= m,
                1 <= d,
                spec_mantissa(lit, i - start, m as int) == spec_mantissa(lit, 0, 0),
                spec_denominator(lit, i - start, seen_dot, d as int) == spec_denominator(
                    lit,
                    0,
                    false,
                    1,
                ),
                (digit_seen || spec_has_digit(lit, i - start)) == spec_has_digit(lit, 0),
            decreases end - i,
        {
            let c = self.input[i];
            proof {
                assert(lit[i - start] == chars[i as int]);
            }
            if c == '.' {
                seen_dot = true;
            } else {
                let dv = (c as u32 - 48) as i64;
                let m2 = match m.checked_mul(10) {
                    Some(v) => v,
                    None => {
                        proof {
                            lemma_mantissa_lb(lit, i - start + 1, m as int * 10 + dv as int);
                        }
                        return Err(
                            CalculatorError::InvalidNumber(
                                crate::text::chars_to_string(&self.input, start, end),
                            ),
                        );
                    },
                };
                let m3 = match m2.checked_add(dv) {
                    Some(v) => v,
                    None => {
                        proof {
                            lemma_mantissa_lb(lit, i - start + 1, m as int * 10 + dv as int);
                        }
                        return Err(
                            CalculatorError::InvalidNumber(
                                crate::text::chars_to_string(&self.input, start, end),
                            ),
                        );
                    },
                };
                m = m3;
                digit_seen = true;
                if seen_dot {
                    d = match d.checked_mul(10) {
                        Some(v) => v,
                        None => {
                            proof {
                                lemma_denominator_lb(lit, i - start + 1, true, d as int * 10);
                            }
                            return Err(
                                CalculatorError::InvalidNumber(
                                    crate::text::chars_to_string(&self.input, start, end),
                                ),
                            );
                        },
                    };
                }
            }
            i = i + 1;
        }
        if digit_seen {
            Ok(Token::Number(Value { num: m, den: d }))
        } else {
            Err(CalculatorError::InvalidNumber(crate::text::chars_to_string(&self.input, start, end)))
        }
    }

    fn next_token(&mut self) -> (r: CalculatorResult<()>)
        requires
            old(self).position <= old(self).input@.len(),
        ensures
            final(self).input == old(self).input,
            final(self).pending == old(self).pending,
            final(self).position <= final(self).input@.len(),
            ({
                let st = spec_lex(old(self).input@, old(self).position as int);
                match r {
                    Ok(_) => {
                        &&& (final(self).current_token == Token::End ==> st == (TokenStream {
                            toks: Seq::<Token>::empty(),
                            end: StreamEnd::Clean,
                        }))
                        &&& (final(self).current_token != Token::End ==> st == stream_cons(
                            final(self).current_token,
                            spec_lex(final(self).input@, final(self).position as int),
                        ))
                    },
                    Err(e) => st == (TokenStream {
                        toks: Seq::<Token>::empty(),
                        end: StreamEnd::Fail(e@),
                    }),
                }
            }),
    {
        self.skip_whitespace();
        if self.position == self.input.len() {
            self.current_token = Token::End;
            return Ok(());
        }
        let ghost p = self.position as int;
        let ghost chars = self.input@;
        let c = self.input[self.position];
        if c == '+' {
            self.position = self.position + 1;
            self.current_token = Token::Plus;
            Ok(())
        } else if c == '-' {
            self.position = self.position + 1;
            self.current_token = Token::Minus;
            Ok(())
        } else if c == '*' {
            self.position = self.position + 1;
            self.current_token = Token::Multiply;
            Ok(())
        } else if c == '/' {
            self.position = self.position + 1;
            self.current_token = Token::Divide;
            Ok(())
        } else if c == '^' {
            self.position = self.position + 1;
            self.current_token = Token::Power;
            Ok(())
        } else if c == '(' {
            self.position = self.position + 1;
            self.current_token = Token::LeftParen;
            Ok(())
        } else if c == ')' {
            self.position = self.position + 1;
            self.current_token = Token::RightParen;
            Ok(())
        } else {
            let digit = is_digit_char(c);
            if digit || c == '.' {
                proof {
                    if spec_is_digit(c) {
                        lemma_num_end_bounds(chars, p + 1, false);
                    } else {
                        lemma_num_end_bounds(chars, p + 1, true);
                    }
                }
                match self.parse_number() {
                    Ok(t) => {
                        self.current_token = t;
                        Ok(())
                    },
                    Err(e) => Err(e),
                }
            } else {
                let mut msg = "invalid character: ".to_owned();
                crate::text::push_char(&mut msg, c);
                Err(CalculatorError::ParseError(msg))
            }
        }
    }

    /// Consumes the current token and reads the next one.
    fn advance(&mut self) -> (r: CalculatorResult<()>)
        requires
            old(self).wf(),
            old(self).pending is None,
            old(self).current_token != Token::End,
        ensures
            match r {
                Ok(_) => final(self).wf() && final(self).pending is None && final(self).input
                    == old(self).input && spec_advance(old(self).stream()) == Ok::<
                    TokenStream,
                    ErrView,
                >(final(self).stream()),
                Err(e) => spec_advance(old(self).stream()) == Err::<TokenStream, ErrView>(e@),
            },
    {
        let ghost s0 = self.stream();
        let ghost rest = spec_lex(self.input@, self.position as int);
        proof {
            assert(stream_tail(s0).toks =~= rest.toks);
            assert(stream_tail(s0) == rest);
            lemma_advance_props(s0);
        }
        let r = self.next_token();
        match r {
            Ok(_) => {
                proof {
                    if self.current_token == Token::End {
                        assert(self.stream() == rest);
                    } else {
                        assert(self.stream() == rest);
                    }
                    assert(spec_advance(s0) == Ok::<TokenStream, ErrView>(rest));
                }
                Ok(())
            },
            Err(e) => {
                proof {
                    assert(stream_head(rest) == Lookahead::Fail(e@));
                }
                Err(e)
            },
        }
    }

    /// `factor := NUMBER | ('+' | '-') factor | '(' expression ')'`.
    fn parse_factor(&mut self) -> (r: CalculatorResult<Value>)
        requires
            old(self).wf(),
            old(self).pending is None,
        ensures
            match r {
                Ok(v) => final(self).wf() && final(self).pending is None && final(self).input
                    == old(self).input && spec_factor(old(self).stream())
                    == (ParseStep::Done { v, rest: final(self).stream() }),
                Err(e) => spec_factor(old(self).stream()) == ParseStep::Fail(e@),
            },
        decreases self.stream().toks.len(), 0int,
    {
        let ghost s0 = self.stream();
        match self.current_token {
            Token::Number(value) => {
                proof {
                    assert(stream_head(s0) == Lookahead::Tok(Token::Number(value)));
                    assert(tok_wf(s0.toks[0]));
                }
                match self.advance() {
                    Ok(_) => {},
                    Err(e) => {
                        return Err(e);
                    },
                }
                Ok(value)
            },
            Token::Minus => {
                match self.advance() {
                    Ok(_) => {},
                    Err(e) => {
                        return Err(e);
                    },
                }
                let inner = match self.parse_factor() {
                    Ok(v) => v,
                    Err(e) => {
                        return Err(e);
                    },
                };
                match crate::value::try_neg(inner) {
                    Some(v) => Ok(v),
                    None => Err(CalculatorError::NotRepresentable),
                }
            },
            Token::Plus => {
                match self.advance() {
                    Ok(_) => {},
                    Err(e) => {
                        return Err(e);
                    },
                }
                self.parse_factor()
            },
            Token::LeftParen => {
                match self.advance() {
                    Ok(_) => {},
                    Err(e) => {
                        return Err(e);
                    },
                }
                let inner = match self.parse_expression() {
                    Ok(v) => v,
                    Err(e) => {
                        return Err(e);
                    },
                };
                if matches!(self.current_token, Token::RightParen) {
                    match self.advance() {
                        Ok(_) => {},
                        Err(e) => {
                            return Err(e);
                        },
                    }
                    Ok(inner)
                } else {
                    Err(CalculatorError::UnbalancedParentheses)
                }
            },
            _ => {
                Err(CalculatorError::ParseError("expected number or left parenthesis".to_owned()))
            },
        }
    }

    /// `power := factor ('^' power)?`, right-associative.
    fn parse_power(&mut self) -> (r: CalculatorResult<Value>)
        requires
            old(self).wf(),
            old(self).pending is None,
        ensures
            match r {
                Ok(v) => final(self).wf() && final(self).pending is None && final(self).input
                    == old(self).input && spec_power(old(self).stream())
                    == (ParseStep::Done { v, rest: final(self).stream() }),
                Err(e) => spec_power(old(self).stream()) == ParseStep::Fail(e@),
            },
        decreases self.stream().toks.len(), 1int,
    {
        let ghost s0 = self.stream();
        let base = match self.parse_factor() {
            Ok(v) => v,
            Err(e) => {
                return Err(e);
            },
        };
        proof {
            lemma_factor_props(s0);
        }
        if matches!(self.current_token, Token::Power) {
            match self.advance() {
                Ok(_) => {},
                Err(e) => {
                    return Err(e);
                },
            }
            let ghost s_r1 = self.stream();
            let right = match self.parse_power() {
                Ok(v) => v,
                Err(e) => {
                    return Err(e);
                },
            };
            proof {
                lemma_power_props(s_r1);
                crate::value::lemma_pow_wf(base, right);
            }
            match crate::value::try_pow(base, right) {
                Some(v) => Ok(v),
                None => Err(CalculatorError::NotRepresentable),
            }
        } else {
            Ok(base)
        }
    }

    /// `term := power (('*' | '/') power)*`, left-associative; a zero
    /// right operand of `/` is rejected before the division.
    fn parse_term(&mut self) -> (r: CalculatorResult<Value>)
        requires
            old(self).wf(),
            old(self).pending is None,
        ensures
            match r {
                Ok(v) => final(self).wf() && final(self).pending is None && final(self).input
                    == old(self).input && spec_term(old(self).stream())
                    == (ParseStep::Done { v, rest: final(self).stream() }),
                Err(e) => spec_term(old(self).stream()) == ParseStep::Fail(e@),
            },
        decreases self.stream().toks.len(), 3int,
    {
        let ghost s0 = self.stream();
        let mut result = match self.parse_power() {
            Ok(v) => v,
            Err(e) => {
                return Err(e);
            },
        };
        proof {
            lemma_power_props(s0);
        }
        while matches!(self.current_token, Token::Multiply | Token::Divide)
            invariant
                self.wf(),
                self.pending is None,
                self.input == old(self).input,
                result.wf(),
                self.stream().toks.len() < s0.toks.len(),
                !(stream_head(self.stream()) is Fail),
                s0 == old(self).stream(),
                spec_term_more(result, self.stream()) == spec_term(s0),
            decreases self.stream().toks.len(),
        {
            let ghost s_it = self.stream();
            let op_mul = matches!(self.current_token, Token::Multiply);
            match self.advance() {
                Ok(_) => {},
                Err(e) => {
                    return Err(e);
                },
            }
            let ghost s_r = self.stream();
            let right = match self.parse_power() {
                Ok(v) => v,
                Err(e) => {
                    return Err(e);
                },
            };
            proof {
                lemma_power_props(s_r);
            }
            if op_mul {
                match crate::value::try_mul(result, right) {
                    Some(v) => {
                        proof {
                            crate::value::lemma_mul_wf(result, right);
                        }
                        result = v;
                    },
                    None => {
                        return Err(CalculatorError::NotRepresentable);
                    },
                }
            } else {
                if right.num == 0 {
                    return Err(CalculatorError::DivisionByZero);
                }
                match crate::value::try_div(result, right) {
                    Some(v) => {
                        proof {
                            crate::value::lemma_div_wf(result, right);
                        }
                        result = v;
                    },
                    None => {
                        return Err(CalculatorError::NotRepresentable);
                    },
                }
            }
        }
        Ok(result)
    }

    /// `expression := term (('+' | '-') term)*`, left-associative.
    fn parse_expression(&mut self) -> (r: CalculatorResult<Value>)
        requires
            old(self).wf(),
            old(self).pending is None,
        ensures
            match r {
                Ok(v) => final(self).wf() && final(self).pending is None && final(self).input
                    == old(self).input && spec_expression(old(self).stream())
                    == (ParseStep::Done { v, rest: final(self).stream() }),
                Err(e) => spec_expression(old(self).stream()) == ParseStep::Fail(e@),
            },
        decreases self.stream().toks.len(), 5int,
    {
        let ghost s0 = self.stream();
        let mut result = match self.parse_term() {
            Ok(v) => v,
            Err(e) => {
                return Err(e);
            },
        };
        proof {
            lemma_term_props(s0);
        }
        while matches!(self.current_token, Token::Plus | Token::Minus)
            invariant
                self.wf(),
                self.pending is None,
                self.input == old(self).input,
                result.wf(),
                self.stream().toks.len() < s0.toks.len(),
                !(stream_head(self.stream()) is Fail),
                s0 == old(self).stream(),
                spec_expr_more(result, self.stream()) == spec_expression(s0),
            decreases self.stream().toks.len(),
        {
            let ghost s_it = self.stream();
            let op_plus = matches!(self.current_token, Token::Plus);
            match self.advance() {
                Ok(_) => {},
                Err(e) => {
                    return Err(e);
                },
            }
            let ghost s_r = self.stream();
            let right = match self.parse_term() {
                Ok(v) => v,
                Err(e) => {
                    return Err(e);
                },
            };
            proof {
                lemma_term_props(s_r);
            }
            if op_plus {
                match crate::value::try_add(result, right) {
                    Some(v) => {
                        proof {
                            crate::value::lemma_add_wf(result, right);
                        }
                        result = v;
                    },
                    None => {
                        return Err(CalculatorError::NotRepresentable);
                    },
                }
            } else {
                match crate::value::try_sub(result, right) {
                    Some(v) => {
                        proof {
                            crate::value::lemma_sub_wf(result, right);
                        }
                        result = v;
                    },
                    None => {
                        return Err(CalculatorError::NotRepresentable);
                    },
                }
            }
        }
        Ok(result)
    }

    /// Builds a parser over the given text and reads the first token.
    pub fn new(input: &str) -> (r: Parser)
        ensures
            r.wf(),
            r.stream() == spec_lex(input@, 0),
    {
        let n = input.unicode_len();
        let mut chars: Vec<char> = Vec::new();
        let mut i: usize = 0;
        while i < n
            invariant
                i <= n,
                n == input@.len(),
                chars@ == input@.take(i as int),
            decreases n - i,
        {
            let c = input.get_char(i);
            chars.push(c);
            i = i + 1;
            proof {
                assert(chars@ =~= input@.take(i as int));
            }
        }
        proof {
            assert(chars@ =~= input@);
        }
        let mut parser = Parser {
            input: chars,
            position: 0,
            current_token: Token::End,
            pending: None,
        };
        proof {
            lemma_lex_wf(parser.input@, 0);
        }
        match parser.next_token() {
            Ok(_) => {},
            Err(e) => {
                parser.pending = Some(e);
            },
        }
        parser
    }

    /// Parses the whole input as one expression and yields its value, or
    /// the first error the grammar or the arithmetic reports.
    pub fn parse(&mut self) -> (r: CalculatorResult<Value>)
        requires
            old(self).wf(),
        ensures
            match r {
                Ok(v) => spec_parse(old(self).stream()) == Ok::<Value, ErrView>(v) && v.wf(),
                Err(e) => spec_parse(old(self).stream()) == Err::<Value, ErrView>(e@),
            },
    {
        let ghost s0 = self.stream();
        match self.pending.take() {
            Some(e) => {
                proof {
                    assert(spec_factor(s0) == ParseStep::Fail(e@));
                    assert(spec_power(s0) == ParseStep::Fail(e@));
                    assert(spec_term(s0) == ParseStep::Fail(e@));
                    assert(spec_expression(s0) == ParseStep::Fail(e@));
                }
                return Err(e);
            },
            None => {},
        }
        proof {
            assert(self.stream() == s0);
        }
        let result = match self.parse_expression() {
            Ok(v) => v,
            Err(e) => {
                return Err(e);
            },
        };
        proof {
            lemma_expression_props(s0);
        }
        if matches!(self.current_token, Token::End) {
            Ok(result)
        } else {
            Err(CalculatorError::ParseError("expression not fully parsed".to_owned()))
        }
    }
}

} // verus!
