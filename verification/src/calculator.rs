//! The calculator facade: evaluates one expression at a time and keeps a
//! bounded, first-in-first-out history of successful evaluations.

use vstd::prelude::*;
use vstd::string::StringExecFns;

use crate::errors::CalculatorError;
use crate::errors::CalculatorResult;
use crate::errors::ErrView;
use crate::parser::Parser;
use crate::parser::is_space_char;
use crate::parser::spec_all_whitespace;
use crate::parser::spec_evaluate;
use crate::parser::spec_is_space;
use crate::text::push_char;
use crate::text::push_chars;
use crate::value::Value;
use crate::value::abs_u64;
use crate::value::spec_abs;

verus! {

/// The decimal digit `d` as a character.
pub open spec fn spec_digit_char(d: nat) -> char {
    if d == 0 {
        '0'
    } else if d == 1 {
        '1'
    } else if d == 2 {
        '2'
    } else if d == 3 {
        '3'
    } else if d == 4 {
        '4'
    } else if d == 5 {
        '5'
    } else if d == 6 {
        '6'
    } else if d == 7 {
        '7'
    } else if d == 8 {
        '8'
    } else {
        '9'
    }
}

/// The decimal digits of `n`, most significant first.
pub open spec fn spec_digits(n: nat) -> Seq<char>
    decreases n,
{
    if n < 10 {
        seq![spec_digit_char(n)]
    } else {
        spec_digits(n / 10).push(spec_digit_char(n % 10))
    }
}

/// The text of a value: a plain decimal integer when the denominator
/// divides the numerator, otherwise the exact fraction `num/den`.
pub open spec fn spec_render(v: Value) -> Seq<char> {
    let a = spec_abs(v.num as int);
    if a % (v.den as nat) == 0 {
        if v.num < 0 {
            seq!['-'] + spec_digits(a / (v.den as nat))
        } else {
            spec_digits(a / (v.den as nat))
        }
    } else {
        if v.num < 0 {
            seq!['-'] + spec_digits(a) + seq!['/'] + spec_digits(v.den as nat)
        } else {
            spec_digits(a) + seq!['/'] + spec_digits(v.den as nat)
        }
    }
}

fn digit_char(d: u64) -> (c: char)
    requires
        d < 10,
    ensures
        c == spec_digit_char(d as nat),
{
    if d == 0 {
        '0'
    } else if d == 1 {
        '1'
    } else if d == 2 {
        '2'
    } else if d == 3 {
        '3'
    } else if d == 4 {
        '4'
    } else if d == 5 {
        '5'
    } else if d == 6 {
        '6'
    } else if d == 7 {
        '7'
    } else if d == 8 {
        '8'
    } else {
        '9'
    }
}

fn digits_u64(n: u64) -> (r: Vec<char>)
    ensures
        r@ == spec_digits(n as nat),
    decreases n,
{
    if n < 10 {
        let mut v: Vec<char> = Vec::new();
        v.push(digit_char(n));
        proof {
            assert(v@ =~= seq![spec_digit_char(n as nat)]);
        }
        v
    } else {
        let mut v = digits_u64(n / 10);
        v.push(digit_char(n % 10));
        proof {
            assert(v@ =~= spec_digits((n / 10) as nat).push(spec_digit_char((n % 10) as nat)));
        }
        v
    }
}

/// The textual form of a value, as recorded in the history.
pub fn render_value(v: &Value) -> (r: String)
    requires
        v.wf(),
    ensures
        r@ == spec_render(*v),
{
    let a = abs_u64(v.num);
    let nd = v.den as u64;
    let mut s = String::new();
    if v.num < 0 {
        push_char(&mut s, '-');
    }
    if a % nd == 0 {
        let ds = digits_u64(a / nd);
        push_chars(&mut s, &ds);
    } else {
        let ds = digits_u64(a);
        push_chars(&mut s, &ds);
        push_char(&mut s, '/');
        let dd = digits_u64(nd);
        push_chars(&mut s, &dd);
    }
    proof {
        assert(s@ =~= spec_render(*v));
    }
    s
}

/// FIFO append to a bounded log: at capacity, the oldest entry leaves
/// before the new one enters.
pub open spec fn spec_history_append(h: Seq<Seq<char>>, max: nat, e: Seq<char>) -> Seq<Seq<char>> {
    if h.len() >= max {
        h.drop_first().push(e)
    } else {
        h.push(e)
    }
}

/// The history entry recorded for an expression and its value.
pub open spec fn spec_entry(expression: Seq<char>, v: Value) -> Seq<char> {
    expression + " = "@ + spec_render(v)
}

/// The calculator: a bounded log of `"<expression> = <result>"` lines
/// and the bound itself.
#[derive(Debug)]
pub struct Calculator {
    history: Vec<String>,
    pub max_history: usize,
}

impl Calculator {
    /// The recorded entries, oldest first, as character sequences.
    pub closed spec fn history_view(&self) -> Seq<Seq<char>> {
        self.history@.map_values(|s: String| s@)
    }

    /// The history bound, as contracts speak of it.
    pub closed spec fn spec_max_history(&self) -> usize {
        self.max_history
    }

    /// The log never exceeds its bound.
    pub closed spec fn wf(&self) -> bool {
        self.history_view().len() <= self.max_history
    }

    /// A calculator with the default history bound of 100 entries.
    pub fn new() -> (r: Calculator)
        ensures
            r.wf(),
            r.history_view() == Seq::<Seq<char>>::empty(),
            r.spec_max_history() == 100,
    {
        let r = Calculator { history: Vec::new(), max_history: 100 };
        proof {
            assert(r.history_view() =~= Seq::<Seq<char>>::empty());
        }
        r
    }

    /// A calculator that keeps at most `max_history` entries.
    pub fn with_max_history(max_history: usize) -> (r: Calculator)
        ensures
            r.wf(),
            r.history_view() == Seq::<Seq<char>>::empty(),
            r.spec_max_history() == max_history,
    {
        let r = Calculator { history: Vec::new(), max_history };
        proof {
            assert(r.history_view() =~= Seq::<Seq<char>>::empty());
        }
        r
    }

    /// Records `"<expression> = <result>"`, evicting the oldest entry
    /// first when the log is full.
    pub fn add_to_history(&mut self, expression: &str, result: &Value)
        requires
            old(self).wf(),
            old(self).spec_max_history() >= 1,
            result.wf(),
        ensures
            final(self).wf(),
            final(self).spec_max_history() == old(self).spec_max_history(),
            final(self).history_view() == spec_history_append(
                old(self).history_view(),
                old(self).spec_max_history() as nat,
                spec_entry(expression@, *result),
            ),
    {
        let rendered = render_value(result);
        let entry = expression.to_owned().concat(" = ").concat(rendered.as_str());
        proof {
            assert(entry@ =~= spec_entry(expression@, *result));
        }
        if self.history.len() >= self.max_history {
            self.history.remove(0);
        }
        self.history.push(entry);
        proof {
            assert(final(self).history_view() =~= spec_history_append(
                old(self).history_view(),
                old(self).spec_max_history() as nat,
                spec_entry(expression@, *result),
            ));
        }
    }

    /// Evaluates one expression: rejects empty input, parses and folds
    /// the rest, records the entry on success, and returns the value or
    /// the first error. On an error the calculator is unchanged.
    pub fn evaluate(&mut self, expression: &str) -> (r: CalculatorResult<Value>)
        requires
            old(self).wf(),
            old(self).spec_max_history() >= 1,
        ensures
            final(self).wf(),
            final(self).spec_max_history() == old(self).spec_max_history(),
            match r {
                Ok(v) => {
                    &&& spec_evaluate(expression@) == Ok::<Value, ErrView>(v)
                    &&& v.wf()
                    &&& final(self).history_view() == spec_history_append(
                        old(self).history_view(),
                        old(self).spec_max_history() as nat,
                        spec_entry(expression@, v),
                    )
                },
                Err(e) => {
                    &&& spec_evaluate(expression@) == Err::<Value, ErrView>(e@)
                    &&& *final(self) == *old(self)
                },
            },
    {
        let n = expression.unicode_len();
        let mut i: usize = 0;
        let mut all_ws = true;
        loop
            invariant_except_break
                all_ws,
                forall|j: int| 0 <= j < i ==> spec_is_space(#[trigger] expression@[j]),
            invariant
                i <= n,
                n == expression@.len(),
            ensures
                all_ws == spec_all_whitespace(expression@),
            decreases n - i,
        {
            if i >= n {
                break;
            }
            let c = expression.get_char(i);
            if !is_space_char(c) {
                all_ws = false;
                proof {
                    assert(!spec_is_space(expression@[i as int]));
                }
                break;
            }
            i = i + 1;
        }
        if all_ws {
            return Err(CalculatorError::EmptyExpression);
        }
        let mut parser = Parser::new(expression);
        let result = match parser.parse() {
            Ok(v) => v,
            Err(e) => {
                return Err(e);
            },
        };
        self.add_to_history(expression, &result);
        Ok(result)
    }

    /// Empties the history.
    pub fn clear_history(&mut self)
        ensures
            final(self).wf(),
            final(self).spec_max_history() == old(self).spec_max_history(),
            final(self).history_view() == Seq::<Seq<char>>::empty(),
    {
        self.history.clear();
        proof {
            assert(final(self).history_view() =~= Seq::<Seq<char>>::empty());
        }
    }

    /// How many entries the history currently holds.
    pub fn history_count(&self) -> (r: usize)
        ensures
            r == self.history_view().len(),
    {
        self.history.len()
    }

    /// The recorded entries, oldest first.
    pub fn get_history(&self) -> (r: &[String])
        ensures
            r@.len() == self.history_view().len(),
            forall|i: int| 0 <= i < r@.len() ==> (#[trigger] r@[i])@ == self.history_view()[i],
    {
        self.history.as_slice()
    }
}

impl Default for Calculator {
    /// The same calculator as `Calculator::new`.
    fn default() -> (r: Calculator)
        ensures
            r.wf(),
            r.history_view() == Seq::<Seq<char>>::empty(),
            r.spec_max_history() == 100,
    {
        Calculator::new()
    }
}

} // verus!
