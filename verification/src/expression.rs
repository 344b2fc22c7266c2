//! Tag parameter values and `$` expressions.
//!
//! A parameter that does not start with `$` is a literal: an integer when
//! it is the canonical decimal text of an `i64`, the inside of a quoted
//! string, or else the text itself. A parameter starting with `$` is an
//! expression: one operand, or two operands joined by one binary operator.
//! An operand is an integer, a quoted string or a variable name (with or
//! without `$`); an unset variable reads as `Null`.
use crate::error::Error;
use crate::text::{chars_of, trim, trim_range, parse_signed, parse_signed_chars, int_text, i64_text, string_from, to_owned_string, concat};
use crate::variable::{Value, ValueModel, VariableStore, StoreView, var_get, value_int, value_bool, value_text};
use vstd::prelude::*;

verus! {

/// The binary operators of an expression.
#[derive(Clone, Copy)]
pub enum BinOp {
    Eq,
    Ne,
    Le,
    Ge,
    Lt,
    Gt,
    And,
    Or,
    Add,
    Sub,
    Mul,
    Div,
    Rem,
}

/// The `i64` that `p` is the canonical decimal text of.
pub open spec fn canonical_int(p: Seq<char>) -> Option<i64> {
    match parse_signed(p, i64::MIN as int, i64::MAX as int) {
        Some(n) => if int_text(n) == p {
            Some(n as i64)
        } else {
            None
        },
        None => None,
    }
}

/// Whether `p` is enclosed in a matching pair of `'` or `"`.
pub open spec fn quoted(p: Seq<char>) -> bool {
    p.len() >= 2 && ((p[0] == '\'' && p.last() == '\'') || (p[0] == '"' && p.last() == '"'))
}

/// The value of a literal parameter.
pub open spec fn literal_model(p: Seq<char>) -> ValueModel {
    match canonical_int(p) {
        Some(n) => ValueModel::Int(n),
        None => if quoted(p) {
            ValueModel::Str(p.subrange(1, p.len() - 1))
        } else {
            ValueModel::Str(p)
        },
    }
}

/// Characters that start an operator.
pub open spec fn is_op_char(c: char) -> bool {
    c == '=' || c == '!' || c == '<' || c == '>' || c == '+' || c == '-' || c == '*' || c == '/'
        || c == '%' || c == '&' || c == '|'
}

/// Index of the first operator character at or after `i`, not inside
/// quotes and not at index 0; `e.len()` when there is none.
pub open spec fn op_pos(e: Seq<char>, i: int, quote: Option<char>) -> int
    decreases e.len() - i,
{
    if i < 0 || i >= e.len() {
        e.len() as int
    } else {
        match quote {
            Some(q) => if e[i] == q {
                op_pos(e, i + 1, None)
            } else {
                op_pos(e, i + 1, quote)
            },
            None => if e[i] == '\'' || e[i] == '"' {
                op_pos(e, i + 1, Some(e[i]))
            } else if i >= 1 && is_op_char(e[i]) {
                i
            } else {
                op_pos(e, i + 1, None)
            },
        }
    }
}

/// The operator written at index `i`, and its length.
pub open spec fn op_at(e: Seq<char>, i: int) -> Option<(BinOp, int)> {
    let c = e[i];
    let d = if i + 1 < e.len() {
        e[i + 1]
    } else {
        ' '
    };
    if c == '=' && d == '=' {
        Some((BinOp::Eq, 2))
    } else if c == '!' && d == '=' {
        Some((BinOp::Ne, 2))
    } else if c == '<' && d == '=' {
        Some((BinOp::Le, 2))
    } else if c == '>' && d == '=' {
        Some((BinOp::Ge, 2))
    } else if c == '&' && d == '&' {
        Some((BinOp::And, 2))
    } else if c == '|' && d == '|' {
        Some((BinOp::Or, 2))
    } else if c == '<' {
        Some((BinOp::Lt, 1))
    } else if c == '>' {
        Some((BinOp::Gt, 1))
    } else if c == '+' {
        Some((BinOp::Add, 1))
    } else if c == '-' {
        Some((BinOp::Sub, 1))
    } else if c == '*' {
        Some((BinOp::Mul, 1))
    } else if c == '/' {
        Some((BinOp::Div, 1))
    } else if c == '%' {
        Some((BinOp::Rem, 1))
    } else {
        None
    }
}

/// The value of one operand.
pub open spec fn operand_model(vars: StoreView, o: Seq<char>) -> Result<ValueModel, Seq<char>> {
    let t = trim(o);
    if t.len() == 0 {
        Err("missing operand"@)
    } else {
        match canonical_int(t) {
            Some(n) => Ok(ValueModel::Int(n)),
            None => if quoted(t) {
                Ok(ValueModel::Str(t.subrange(1, t.len() - 1)))
            } else if op_pos(t, 0, None) < t.len() {
                Err("unsupported expression"@)
            } else {
                let name = if t[0] == '$' {
                    t.drop_first()
                } else {
                    t
                };
                match var_get(vars, name) {
                    Some(v) => Ok(v),
                    None => Ok(ValueModel::Null),
                }
            },
        }
    }
}

/// A value read as a number, 0 when it is not one.
pub open spec fn num(v: ValueModel) -> int {
    match value_int(v) {
        Some(n) => n,
        None => 0,
    }
}

/// Equality of two values: as numbers when both read as numbers, else as
/// text.
pub open spec fn values_equal(l: ValueModel, r: ValueModel) -> bool {
    if value_int(l) is Some && value_int(r) is Some {
        value_int(l) == value_int(r)
    } else {
        value_text(l) == value_text(r)
    }
}

/// An `i64` result, or the overflow message.
pub open spec fn int_result(r: Option<i64>) -> Result<ValueModel, Seq<char>> {
    match r {
        Some(n) => Ok(ValueModel::Int(n)),
        None => Err("invalid arithmetic"@),
    }
}

/// The result of applying `op` to two values.
pub open spec fn apply_op(op: BinOp, l: ValueModel, r: ValueModel) -> Result<ValueModel, Seq<char>> {
    let a = num(l) as i64;
    let b = num(r) as i64;
    match op {
        BinOp::Eq => Ok(ValueModel::Bool(values_equal(l, r))),
        BinOp::Ne => Ok(ValueModel::Bool(!values_equal(l, r))),
        BinOp::Le => Ok(ValueModel::Bool(num(l) <= num(r))),
        BinOp::Ge => Ok(ValueModel::Bool(num(l) >= num(r))),
        BinOp::Lt => Ok(ValueModel::Bool(num(l) < num(r))),
        BinOp::Gt => Ok(ValueModel::Bool(num(l) > num(r))),
        BinOp::And => Ok(ValueModel::Bool(value_bool(l) && value_bool(r))),
        BinOp::Or => Ok(ValueModel::Bool(value_bool(l) || value_bool(r))),
        BinOp::Add => if value_int(l) is Some && value_int(r) is Some {
            int_result(a.checked_add(b))
        } else {
            Ok(ValueModel::Str(value_text(l) + value_text(r)))
        },
        BinOp::Sub => int_result(a.checked_sub(b)),
        BinOp::Mul => int_result(a.checked_mul(b)),
        BinOp::Div => int_result(a.checked_div(b)),
        BinOp::Rem => int_result(a.checked_rem(b)),
    }
}

/// The value of an expression (the text after `$`).
pub open spec fn eval_spec(vars: StoreView, raw: Seq<char>) -> Result<ValueModel, Seq<char>> {
    let e = trim(raw);
    let i = op_pos(e, 0, None);
    if i >= e.len() {
        operand_model(vars, e)
    } else {
        match op_at(e, i) {
            None => Err("unknown operator"@),
            Some((op, n)) => match operand_model(vars, e.subrange(0, i)) {
                Err(m) => Err(m),
                Ok(l) => match operand_model(vars, e.subrange(i + n, e.len() as int)) {
                    Err(m) => Err(m),
                    Ok(r) => apply_op(op, l, r),
                },
            },
        }
    }
}

/// The value of a tag parameter.
pub open spec fn resolve_spec(vars: StoreView, p: Seq<char>) -> Result<ValueModel, Seq<char>> {
    if p.len() > 0 && p[0] == '$' {
        eval_spec(vars, p.drop_first())
    } else {
        Ok(literal_model(p))
    }
}

/// Bounds of [`op_pos`].
proof fn lemma_op_pos(e: Seq<char>, i: int, quote: Option<char>)
    requires
        0 <= i <= e.len(),
    ensures
        i <= op_pos(e, i, quote) <= e.len(),
        op_pos(e, i, quote) < e.len() ==> op_pos(e, i, quote) >= 1,
    decreases e.len() - i,
{
    if i < e.len() {
        match quote {
            Some(q) => if e[i] == q {
                lemma_op_pos(e, i + 1, None);
            } else {
                lemma_op_pos(e, i + 1, quote);
            },
            None => if e[i] == '\'' || e[i] == '"' {
                lemma_op_pos(e, i + 1, Some(e[i]));
            } else if i >= 1 && is_op_char(e[i]) {
            } else {
                lemma_op_pos(e, i + 1, None);
            },
        }
    }
}

fn is_op_character(c: char) -> (r: bool)
    ensures
        r == is_op_char(c),
{
    c == '=' || c == '!' || c == '<' || c == '>' || c == '+' || c == '-' || c == '*' || c == '/'
        || c == '%' || c == '&' || c == '|'
}

fn find_op(e: &[char]) -> (r: usize)
    ensures
        r == op_pos(e@, 0, None),
        r <= e@.len(),
{
    let mut i: usize = 0;
    let mut quote: Option<char> = None;
    while i < e.len()
        invariant
            i <= e@.len(),
            op_pos(e@, 0, None) == op_pos(e@, i as int, quote),
        decreases e.len() - i,
    {
        let c = e[i];
        match quote {
            Some(q) => {
                if c == q {
                    quote = None;
                }
            },
            None => {
                if c == '\'' || c == '"' {
                    quote = Some(c);
                } else if i >= 1 && is_op_character(c) {
                    return i;
                }
            },
        }
        i += 1;
    }
    proof {
        lemma_op_pos(e@, 0, None);
    }
    i
}

fn read_op(e: &[char], i: usize) -> (r: Option<(BinOp, usize)>)
    requires
        i < e@.len(),
    ensures
        match op_at(e@, i as int) {
            Some((op, n)) => r matches Some((o, m)) && o == op && m == n,
            None => r is None,
        },
{
    let c = e[i];
    let d = if i + 1 < e.len() {
        e[i + 1]
    } else {
        ' '
    };
    if c == '=' && d == '=' {
        Some((BinOp::Eq, 2))
    } else if c == '!' && d == '=' {
        Some((BinOp::Ne, 2))
    } else if c == '<' && d == '=' {
        Some((BinOp::Le, 2))
    } else if c == '>' && d == '=' {
        Some((BinOp::Ge, 2))
    } else if c == '&' && d == '&' {
        Some((BinOp::And, 2))
    } else if c == '|' && d == '|' {
        Some((BinOp::Or, 2))
    } else if c == '<' {
        Some((BinOp::Lt, 1))
    } else if c == '>' {
        Some((BinOp::Gt, 1))
    } else if c == '+' {
        Some((BinOp::Add, 1))
    } else if c == '-' {
        Some((BinOp::Sub, 1))
    } else if c == '*' {
        Some((BinOp::Mul, 1))
    } else if c == '/' {
        Some((BinOp::Div, 1))
    } else if c == '%' {
        Some((BinOp::Rem, 1))
    } else {
        None
    }
}

/// The canonical `i64` written in `v`, if any.
fn canonical_int_exec(v: &[char]) -> (r: Option<i64>)
    ensures
        r == canonical_int(v@),
{
    match parse_signed_chars(v, i64::MIN, i64::MAX) {
        Some(n) => {
            let t = chars_of(i64_text(n).as_str());
            if t.len() != v.len() {
                return None;
            }
            let mut i: usize = 0;
            while i < t.len()
                invariant
                    i <= t@.len(),
                    t@.len() == v@.len(),
                    t@ == int_text(n as int),
                    parse_signed(v@, i64::MIN as int, i64::MAX as int) == Some(n as int),
                    forall|k: int| 0 <= k < i ==> t@[k] == v@[k],
                decreases t.len() - i,
            {
                if t[i] != v[i] {
                    assert(t@[i as int] != v@[i as int]);
                    return None;
                }
                i += 1;
            }
            assert(t@ =~= v@);
            Some(n)
        },
        None => None,
    }
}

fn is_quoted(v: &[char]) -> (r: bool)
    ensures
        r == quoted(v@),
{
    v.len() >= 2 && ((v[0] == '\'' && v[v.len() - 1] == '\'') || (v[0] == '"' && v[v.len() - 1]
        == '"'))
}

/// The value of a literal parameter.
fn literal_value(v: &[char]) -> (r: Value)
    ensures
        r@ == literal_model(v@),
{
    match canonical_int_exec(v) {
        Some(n) => Value::Int(n),
        None => {
            if is_quoted(v) {
                Value::String(string_from(v, 1, v.len() - 1))
            } else {
                assert(v@.subrange(0, v@.len() as int) =~= v@);
                Value::String(string_from(v, 0, v.len()))
            }
        },
    }
}

/// Evaluates the operation `op` on two values.
pub fn apply_binary(op: BinOp, l: &Value, r: &Value) -> (res: Result<Value, Error>)
    ensures
        match apply_op(op, l@, r@) {
            Ok(m) => res matches Ok(v) && v@ == m,
            Err(msg) => res matches Err(Error::ExpressionError(e)) && e@ == msg,
        },
{
    let li = l.as_int();
    let ri = r.as_int();
    let a: i64 = match li {
        Some(x) => x,
        None => 0,
    };
    let b: i64 = match ri {
        Some(x) => x,
        None => 0,
    };
    let both = li.is_some() && ri.is_some();
    let v = match op {
        BinOp::Eq => Value::Bool(values_equal_exec(l, r)),
        BinOp::Ne => Value::Bool(!values_equal_exec(l, r)),
        BinOp::Le => Value::Bool(a <= b),
        BinOp::Ge => Value::Bool(a >= b),
        BinOp::Lt => Value::Bool(a < b),
        BinOp::Gt => Value::Bool(a > b),
        BinOp::And => Value::Bool(l.as_bool() && r.as_bool()),
        BinOp::Or => Value::Bool(l.as_bool() || r.as_bool()),
        BinOp::Add => {
            if both {
                return int_value(a.checked_add(b));
            } else {
                let ls = l.as_string();
                let rs = r.as_string();
                Value::String(concat(ls.as_str(), rs.as_str()))
            }
        },
        BinOp::Sub => {
            return int_value(a.checked_sub(b));
        },
        BinOp::Mul => {
            return int_value(a.checked_mul(b));
        },
        BinOp::Div => {
            return int_value(a.checked_div(b));
        },
        BinOp::Rem => {
            return int_value(a.checked_rem(b));
        },
    };
    Ok(v)
}

fn int_value(r: Option<i64>) -> (res: Result<Value, Error>)
    ensures
        match int_result(r) {
            Ok(m) => res matches Ok(v) && v@ == m,
            Err(msg) => res matches Err(Error::ExpressionError(e)) && e@ == msg,
        },
{
    match r {
        Some(n) => Ok(Value::Int(n)),
        None => Err(Error::ExpressionError(to_owned_string("invalid arithmetic"))),
    }
}

fn values_equal_exec(l: &Value, r: &Value) -> (b: bool)
    ensures
        b == values_equal(l@, r@),
{
    match (l.as_int(), r.as_int()) {
        (Some(a), Some(b)) => a == b,
        _ => {
            let ls = chars_of(l.as_string().as_str());
            let rs = chars_of(r.as_string().as_str());
            if ls.len() != rs.len() {
                return false;
            }
            let mut i: usize = 0;
            while i < ls.len()
                invariant
                    i <= ls@.len(),
                    ls@.len() == rs@.len(),
                    ls@ == value_text(l@),
                    rs@ == value_text(r@),
                    !(value_int(l@) is Some && value_int(r@) is Some),
                    forall|k: int| 0 <= k < i ==> ls@[k] == rs@[k],
                decreases ls.len() - i,
            {
                if ls[i] != rs[i] {
                    assert(ls@[i as int] != rs@[i as int]);
                    return false;
                }
                i += 1;
            }
            assert(ls@ =~= rs@);
            true
        },
    }
}

/// Read access to the variables for evaluating parameters.
pub struct ExpressionEvaluator<'a> {
    variables: &'a VariableStore,
}

impl<'a> ExpressionEvaluator<'a> {
    /// An evaluator reading `variables`.
    pub fn new(variables: &'a VariableStore) -> (r: Self)
        ensures
            r.vars() == variables@,
    {
        ExpressionEvaluator { variables }
    }

    /// The variables this evaluator reads.
    pub closed spec fn vars(&self) -> StoreView {
        self.variables@
    }

    fn operand(&self, o: &[char]) -> (r: Result<Value, Error>)
        ensures
            match operand_model(self.vars(), o@) {
                Ok(m) => r matches Ok(v) && v@ == m,
                Err(msg) => r matches Err(Error::ExpressionError(e)) && e@ == msg,
            },
    {
        let (a, b) = trim_range(o, 0, o.len());
        assert(o@.subrange(0, o@.len() as int) =~= o@);
        let t = copy_chars(o, a, b);
        if t.len() == 0 {
            return Err(Error::ExpressionError(to_owned_string("missing operand")));
        }
        match canonical_int_exec(t.as_slice()) {
            Some(n) => Ok(Value::Int(n)),
            None => {
                if is_quoted(t.as_slice()) {
                    Ok(Value::String(string_from(t.as_slice(), 1, t.len() - 1)))
                } else if find_op(t.as_slice()) < t.len() {
                    Err(Error::ExpressionError(to_owned_string("unsupported expression")))
                } else {
                    let start: usize = if t[0] == '$' {
                        1
                    } else {
                        0
                    };
                    assert(t@.subrange(1, t@.len() as int) =~= t@.drop_first());
                    assert(t@.subrange(0, t@.len() as int) =~= t@);
                    let name = string_from(t.as_slice(), start, t.len());
                    match self.variables.get(name.as_str()) {
                        Some(v) => Ok(v.duplicate()),
                        None => Ok(Value::Null),
                    }
                }
            },
        }
    }

    /// The value of an expression (the text after `$`).
    pub fn evaluate(&self, raw: &[char]) -> (r: Result<Value, Error>)
        ensures
            match eval_spec(self.vars(), raw@) {
                Ok(m) => r matches Ok(v) && v@ == m,
                Err(msg) => r matches Err(Error::ExpressionError(e)) && e@ == msg,
            },
    {
        let (a, b) = trim_range(raw, 0, raw.len());
        assert(raw@.subrange(0, raw@.len() as int) =~= raw@);
        let e = copy_chars(raw, a, b);
        let i = find_op(e.as_slice());
        if i >= e.len() {
            return self.operand(e.as_slice());
        }
        match read_op(e.as_slice(), i) {
            None => Err(Error::ExpressionError(to_owned_string("unknown operator"))),
            Some((op, n)) => {
                let left = copy_chars(e.as_slice(), 0, i);
                let lv = self.operand(left.as_slice())?;
                let right = copy_chars(e.as_slice(), i + n, e.len());
                let rv = self.operand(right.as_slice())?;
                apply_binary(op, &lv, &rv)
            },
        }
    }

    /// The value of a tag parameter: a literal, or an expression after `$`.
    pub fn resolve_param(&self, param: &str) -> (r: Result<Value, Error>)
        ensures
            match resolve_spec(self.vars(), param@) {
                Ok(m) => r matches Ok(v) && v@ == m,
                Err(msg) => r matches Err(Error::ExpressionError(e)) && e@ == msg,
            },
    {
        let v = chars_of(param);
        if v.len() > 0 && v[0] == '$' {
            let rest = copy_chars(v.as_slice(), 1, v.len());
            assert(rest@ =~= v@.drop_first());
            self.evaluate(rest.as_slice())
        } else {
            Ok(literal_value(v.as_slice()))
        }
    }
}

fn copy_chars(v: &[char], lo: usize, hi: usize) -> (r: Vec<char>)
    requires
        lo <= hi <= v@.len(),
    ensures
        r@ == v@.subrange(lo as int, hi as int),
{
    let mut r: Vec<char> = Vec::new();
    let mut i = lo;
    while i < hi
        invariant
            lo <= i <= hi <= v@.len(),
            r@ == v@.subrange(lo as int, i as int),
        decreases hi - i,
    {
        r.push(v[i]);
        i += 1;
        assert(r@ =~= v@.subrange(lo as int, i as int));
    }
    r
}

// ---------------------------------------------------------------------
// Laws of arithmetic and comparison
// ---------------------------------------------------------------------

/// On two integers the arithmetic operators compute the sum, the
/// difference and the product when it fits in an `i64` (an error
/// otherwise), the quotient and remainder of a non-negative number by a
/// positive one, and an error for a division by zero; the comparisons
/// compare the integers.
pub proof fn law_integer_operators(x: i64, y: i64)
    ensures
        i64::MIN <= x + y <= i64::MAX ==> apply_op(BinOp::Add, ValueModel::Int(x), ValueModel::Int(y)) == Ok::<ValueModel, Seq<char>>(ValueModel::Int((x + y) as i64)),
        !(i64::MIN <= x + y <= i64::MAX) ==> apply_op(BinOp::Add, ValueModel::Int(x), ValueModel::Int(y)) is Err,
        i64::MIN <= x - y <= i64::MAX ==> apply_op(BinOp::Sub, ValueModel::Int(x), ValueModel::Int(y)) == Ok::<ValueModel, Seq<char>>(ValueModel::Int((x - y) as i64)),
        !(i64::MIN <= x - y <= i64::MAX) ==> apply_op(BinOp::Sub, ValueModel::Int(x), ValueModel::Int(y)) is Err,
        i64::MIN <= x * y <= i64::MAX ==> apply_op(BinOp::Mul, ValueModel::Int(x), ValueModel::Int(y)) == Ok::<ValueModel, Seq<char>>(ValueModel::Int((x * y) as i64)),
        !(i64::MIN <= x * y <= i64::MAX) ==> apply_op(BinOp::Mul, ValueModel::Int(x), ValueModel::Int(y)) is Err,
        x >= 0 && y > 0 ==> apply_op(BinOp::Div, ValueModel::Int(x), ValueModel::Int(y)) == Ok::<ValueModel, Seq<char>>(ValueModel::Int((x / y) as i64)),
        x >= 0 && y > 0 ==> apply_op(BinOp::Rem, ValueModel::Int(x), ValueModel::Int(y)) == Ok::<ValueModel, Seq<char>>(ValueModel::Int((x % y) as i64)),
        y == 0 ==> apply_op(BinOp::Div, ValueModel::Int(x), ValueModel::Int(y)) is Err,
        y == 0 ==> apply_op(BinOp::Rem, ValueModel::Int(x), ValueModel::Int(y)) is Err,
        apply_op(BinOp::Lt, ValueModel::Int(x), ValueModel::Int(y)) == Ok::<ValueModel, Seq<char>>(ValueModel::Bool(x < y)),
        apply_op(BinOp::Le, ValueModel::Int(x), ValueModel::Int(y)) == Ok::<ValueModel, Seq<char>>(ValueModel::Bool(x <= y)),
        apply_op(BinOp::Gt, ValueModel::Int(x), ValueModel::Int(y)) == Ok::<ValueModel, Seq<char>>(ValueModel::Bool(x > y)),
        apply_op(BinOp::Ge, ValueModel::Int(x), ValueModel::Int(y)) == Ok::<ValueModel, Seq<char>>(ValueModel::Bool(x >= y)),
        apply_op(BinOp::Eq, ValueModel::Int(x), ValueModel::Int(y)) == Ok::<ValueModel, Seq<char>>(ValueModel::Bool(x == y)),
        apply_op(BinOp::Ne, ValueModel::Int(x), ValueModel::Int(y)) == Ok::<ValueModel, Seq<char>>(ValueModel::Bool(x != y)),
{
    assert(num(ValueModel::Int(x)) == x);
    assert(num(ValueModel::Int(y)) == y);
    if x >= 0 && y > 0 {
        assert(0 <= x % y < y) by (nonlinear_arith)
            requires
                x >= 0,
                y > 0,
        ;
        assert(0 <= x / y <= x) by (nonlinear_arith)
            requires
                x >= 0,
                y > 0,
        ;
        if x == 0 {
            assert(x % y == 0 && x / y == 0) by (nonlinear_arith)
                requires
                    x == 0,
                    y > 0,
            ;
        }
    }
}

/// The operator that a single character `c` writes between two operands
/// that do not start with `=`.
pub open spec fn single_char_op(c: char) -> Option<BinOp> {
    if c == '+' {
        Some(BinOp::Add)
    } else if c == '-' {
        Some(BinOp::Sub)
    } else if c == '*' {
        Some(BinOp::Mul)
    } else if c == '/' {
        Some(BinOp::Div)
    } else if c == '%' {
        Some(BinOp::Rem)
    } else {
        None
    }
}

/// An operand written as it is: not empty, not starting with whitespace,
/// with no operator character and no quote.
pub open spec fn plain_operand(o: Seq<char>) -> bool {
    &&& o.len() > 0
    &&& !crate::text::is_ws(o[0])
    &&& forall|k: int| 0 <= k < o.len() ==> !is_op_char(#[trigger] o[k]) && o[k] != '\'' && o[k] != '"'
}

/// The operator search passes over a plain operand.
proof fn lemma_op_pos_plain(e: Seq<char>, l: Seq<char>, i: int)
    requires
        0 <= i <= l.len() < e.len(),
        plain_operand(l),
        e.subrange(0, l.len() as int) == l,
    ensures
        op_pos(e, i, None) == op_pos(e, l.len() as int, None),
    decreases l.len() - i,
{
    if i < l.len() {
        assert(e[i] == l[i]);
        lemma_op_pos_plain(e, l, i + 1);
    }
}

/// An expression `l c r`, with `l` a plain operand, `c` one of `+ - * / %`
/// and `r` ending in a non-space, applies that operator to the values of
/// `l` and `r`.
pub proof fn lemma_eval_split(vars: StoreView, l: Seq<char>, c: char, r: Seq<char>, op: BinOp)
    requires
        plain_operand(l),
        r.len() > 0,
        !crate::text::is_ws(r.last()),
        single_char_op(c) == Some(op),
    ensures
        eval_spec(vars, l + seq![c] + r) == (match operand_model(vars, l) {
            Err(m) => Err(m),
            Ok(a) => match operand_model(vars, r) {
                Err(m) => Err(m),
                Ok(b) => apply_op(op, a, b),
            },
        }),
{
    let e = l + seq![c] + r;
    let n = l.len() as int;
    assert(e[0] == l[0]);
    assert(e.last() == r.last());
    assert(crate::text::trim_start(e) == e);
    assert(crate::text::trim_end(e) == e);
    assert(trim(e) == e);
    assert(e.subrange(0, n) =~= l);
    assert(e[n] == c);
    lemma_op_pos_plain(e, l, 0);
    assert(op_pos(e, n, None) == n);
    assert(op_at(e, n) == Some((op, 1int)));
    assert(e.subrange(n + 1, e.len() as int) =~= r);
}

/// Evaluating `$l-r`, where `l` is a plain operand reading as the integer
/// `x` (a variable or a number) and `r` reads as the integer `y`, gives
/// `x - y` when it fits in an `i64`; likewise `+` gives `x + y` and `*`
/// gives `x * y`.
pub proof fn law_eval_integer_arithmetic(vars: StoreView, l: Seq<char>, r: Seq<char>, x: i64, y: i64)
    requires
        plain_operand(l),
        r.len() > 0,
        !crate::text::is_ws(r.last()),
        operand_model(vars, l) == Ok::<ValueModel, Seq<char>>(ValueModel::Int(x)),
        operand_model(vars, r) == Ok::<ValueModel, Seq<char>>(ValueModel::Int(y)),
    ensures
        i64::MIN <= x - y <= i64::MAX ==> resolve_spec(vars, seq!['$'] + l + seq!['-'] + r) == Ok::<ValueModel, Seq<char>>(ValueModel::Int((x - y) as i64)),
        i64::MIN <= x + y <= i64::MAX ==> resolve_spec(vars, seq!['$'] + l + seq!['+'] + r) == Ok::<ValueModel, Seq<char>>(ValueModel::Int((x + y) as i64)),
        i64::MIN <= x * y <= i64::MAX ==> resolve_spec(vars, seq!['$'] + l + seq!['*'] + r) == Ok::<ValueModel, Seq<char>>(ValueModel::Int((x * y) as i64)),
{
    law_integer_operators(x, y);
    lemma_eval_dollar(vars, l, '-', r, BinOp::Sub);
    lemma_eval_dollar(vars, l, '+', r, BinOp::Add);
    lemma_eval_dollar(vars, l, '*', r, BinOp::Mul);
}

/// `$l c r` resolves as `l c r` evaluates.
proof fn lemma_eval_dollar(vars: StoreView, l: Seq<char>, c: char, r: Seq<char>, op: BinOp)
    requires
        plain_operand(l),
        r.len() > 0,
        !crate::text::is_ws(r.last()),
        single_char_op(c) == Some(op),
    ensures
        resolve_spec(vars, seq!['$'] + l + seq![c] + r) == eval_spec(vars, l + seq![c] + r),
        eval_spec(vars, l + seq![c] + r) == (match operand_model(vars, l) {
            Err(m) => Err(m),
            Ok(a) => match operand_model(vars, r) {
                Err(m) => Err(m),
                Ok(b) => apply_op(op, a, b),
            },
        }),
{
    lemma_eval_split(vars, l, c, r, op);
    assert((seq!['$'] + l + seq![c] + r).drop_first() =~= l + seq![c] + r);
}

} // verus!
