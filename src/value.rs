//! Values and their SQL literals.
//!
//! Text is wrapped in double quotes and every double quote inside it is
//! written twice, so a literal never ends early. Statements carry their values
//! inline, with no parameter binding: this is meant for values drawn from a
//! trusted generator.
use vstd::prelude::*;

verus! {

/// The character that opens and closes a textual SQL literal.
///
/// An embedded quote is written twice, so a rendered literal never holds an
/// unescaped quote of its own.
pub open spec fn quote_char() -> char {
    '"'
}

/// The body of a textual literal: every quote character doubled.
pub open spec fn escape_text(s: Seq<char>) -> Seq<char>
    decreases s.len(),
{
    if s.len() == 0 {
        Seq::empty()
    } else if s.last() == quote_char() {
        escape_text(s.drop_last()) + seq![quote_char(), quote_char()]
    } else {
        escape_text(s.drop_last()).push(s.last())
    }
}

/// A textual value as it appears in statement text.
pub open spec fn quoted(s: Seq<char>) -> Seq<char> {
    seq![quote_char()] + escape_text(s) + seq![quote_char()]
}

/// The decimal digit for `d < 10`.
pub open spec fn digit_char(d: nat) -> char {
    seq!['0', '1', '2', '3', '4', '5', '6', '7', '8', '9'][d as int]
}

/// Decimal digits of a natural number, most significant first, no leading zeros.
pub open spec fn digits(n: nat) -> Seq<char>
    decreases n,
{
    if n < 10 {
        seq![digit_char(n)]
    } else {
        digits(n / 10).push(digit_char(n % 10))
    }
}

/// Decimal form of an integer, with a leading `-` when negative.
pub open spec fn decimal(n: int) -> Seq<char> {
    if n < 0 {
        seq!['-'] + digits((-n) as nat)
    } else {
        digits(n as nat)
    }
}

/// A generated scalar that can be embedded in statement text.
#[derive(Debug, Clone, PartialEq, Eq)]
pub enum Value {
    Text(String),
    Integer(i64),
    Boolean(bool),
}

/// The SQL literal of a value: text quoted, numbers in decimal, booleans as
/// `true` / `false`.
pub open spec fn literal(v: Value) -> Seq<char> {
    match v {
        Value::Text(s) => quoted(s@),
        Value::Integer(n) => decimal(n as int),
        Value::Boolean(b) => if b {
            seq!['t', 'r', 'u', 'e']
        } else {
            seq!['f', 'a', 'l', 's', 'e']
        },
    }
}

/// A type whose values can stand as literals in an `INSERT` statement.
pub trait IntoValue {
    /// The literal text of `self`.
    spec fn literal_text(&self) -> Seq<char>;

    /// Renders `self` as a SQL literal.
    fn as_value(&self) -> (r: String)
        ensures
            r@ == self.literal_text(),
    ;
}

impl IntoValue for String {
    open spec fn literal_text(&self) -> Seq<char> {
        quoted(self@)
    }

    fn as_value(&self) -> (r: String) {
        render_text(self.as_str())
    }
}

impl IntoValue for i64 {
    open spec fn literal_text(&self) -> Seq<char> {
        decimal(*self as int)
    }

    fn as_value(&self) -> (r: String) {
        render_integer(*self)
    }
}

impl IntoValue for bool {
    open spec fn literal_text(&self) -> Seq<char> {
        literal(Value::Boolean(*self))
    }

    fn as_value(&self) -> (r: String) {
        render_boolean(*self)
    }
}

impl IntoValue for Value {
    open spec fn literal_text(&self) -> Seq<char> {
        literal(*self)
    }

    fn as_value(&self) -> (r: String) {
        match self {
            Value::Text(s) => render_text(s.as_str()),
            Value::Integer(n) => render_integer(*n),
            Value::Boolean(b) => render_boolean(*b),
        }
    }
}

/// Quotes `s`, doubling each quote character inside it.
pub fn render_text(s: &str) -> (r: String)
    ensures
        r@ == quoted(s@),
{
    let n = s.unicode_len();
    let mut body = String::new();
    let mut i: usize = 0;
    while i < n
        invariant
            n == s@.len(),
            i <= n,
            body@ == escape_text(s@.subrange(0, i as int)),
        decreases n - i,
    {
        proof {
            reveal_strlit("\"\"");
        }
        let c = s.get_char(i);
        let one = s.substring_char(i, i + 1);
        assert(s@.subrange(0, i + 1).drop_last() =~= s@.subrange(0, i as int));
        assert(one@ =~= seq![c]);
        if c == '"' {
            assert("\"\""@ =~= seq![quote_char(), quote_char()]);
            body.append("\"\"");
        } else {
            body.append(one);
        }
        i = i + 1;
    }
    assert(s@.subrange(0, n as int) =~= s@);
    proof {
        reveal_strlit("\"");
    }
    assert("\""@ =~= seq![quote_char()]);
    let mut r = String::from_str("\"");
    r.append(body.as_str());
    r.append("\"");
    r
}

/// The digit character for `d < 10`, as a one-character string.
fn digit_str(d: u64) -> (r: &'static str)
    requires
        d < 10,
    ensures
        r@ == seq![digit_char(d as nat)],
{
    let all = "0123456789";
    proof {
        reveal_strlit("0123456789");
    }
    assert(all@ =~= seq!['0', '1', '2', '3', '4', '5', '6', '7', '8', '9']);
    let r = all.substring_char(d as usize, d as usize + 1);
    assert(r@ =~= seq![digit_char(d as nat)]);
    r
}

/// Appends the decimal digits of `n` to `out`.
fn push_digits(n: u64, out: &mut String)
    ensures
        final(out)@ == old(out)@ + digits(n as nat),
    decreases n,
{
    if n >= 10 {
        push_digits(n / 10, out);
    }
    out.append(digit_str(n % 10));
    assert(final(out)@ =~= old(out)@ + digits(n as nat));
}

/// Renders an integer in decimal.
pub fn render_integer(n: i64) -> (r: String)
    ensures
        r@ == decimal(n as int),
{
    if n < 0 {
        let magnitude: u64 = (-(n + 1)) as u64 + 1;
        proof {
            reveal_strlit("-");
        }
        let mut r = String::from_str("-");
        push_digits(magnitude, &mut r);
        assert(r@ =~= decimal(n as int));
        r
    } else {
        let mut r = String::new();
        push_digits(n as u64, &mut r);
        assert(r@ =~= decimal(n as int));
        r
    }
}

/// Renders a boolean as `true` or `false`.
pub fn render_boolean(b: bool) -> (r: String)
    ensures
        r@ == literal(Value::Boolean(b)),
{
    proof {
        reveal_strlit("true");
        reveal_strlit("false");
    }
    if b {
        let r = String::from_str("true");
        assert(r@ =~= seq!['t', 'r', 'u', 'e']);
        r
    } else {
        let r = String::from_str("false");
        assert(r@ =~= seq!['f', 'a', 'l', 's', 'e']);
        r
    }
}

} // verus!
