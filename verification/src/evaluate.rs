//! Computing the value of an enum member at transform time.
//!
//! The grammar is narrow on purpose: literals, parentheses, references to
//! earlier members, templates without interpolation, and unary and binary
//! operators over those. Anything else is unresolvable, which is an
//! outcome and no failure: the member is then left to be computed at run
//! time.

use crate::ast::{BinaryOp, Expr, ExprKindView, ExprView, Lit, LitView, UnaryOp};
use crate::enum_to_obj::{ArithOp, EnumToObjVisitor};
use crate::number::{bit_result, lemma_of_int, BitOp, Number, MAX_INDEX};
use vstd::arithmetic::div_mod::lemma_fundamental_div_mod;
use vstd::prelude::*;

verus! {

/// A value the evaluator can hold.
#[derive(Debug, PartialEq, Eq)]
pub enum Literal {
    Num(Number),
    Str(String),
    Bool(bool),
    Tpl(String),
    BigInt(String),
}

pub enum LiteralView {
    Num(Number),
    Str(Seq<char>),
    Bool(bool),
    Tpl(Seq<char>),
    BigInt(Seq<char>),
}

impl View for Literal {
    type V = LiteralView;

    open spec fn view(&self) -> LiteralView {
        match self {
            Literal::Num(n) => LiteralView::Num(*n),
            Literal::Str(s) => LiteralView::Str(s@),
            Literal::Bool(b) => LiteralView::Bool(*b),
            Literal::Tpl(s) => LiteralView::Tpl(s@),
            Literal::BigInt(s) => LiteralView::BigInt(s@),
        }
    }
}

impl Literal {
    pub fn duplicate(&self) -> (r: Literal)
        ensures
            r == *self,
    {
        match self {
            Literal::Num(n) => Literal::Num(*n),
            Literal::Str(s) => Literal::Str(s.clone()),
            Literal::Bool(b) => Literal::Bool(*b),
            Literal::Tpl(s) => Literal::Tpl(s.clone()),
            Literal::BigInt(s) => Literal::BigInt(s.clone()),
        }
    }
}

pub open spec fn initializer_view(init: Option<&Expr>) -> Option<ExprView> {
    match init {
        Some(e) => Some(e@),
        None => None,
    }
}

/// The outcome of an initializer that cannot be computed at transform time.
#[derive(Clone, Copy, Debug, PartialEq, Eq)]
pub struct Unresolvable;

pub open spec fn value_view(v: Option<Literal>) -> Option<LiteralView> {
    match v {
        Some(l) => Some(l@),
        None => None,
    }
}

/// What is known of the members seen so far: for each name, its value, or
/// `None` where the member exists but its value is not known until run time.
///
/// The table only grows; a name entered again takes the later value.
pub struct EnumValues {
    entries: Vec<(String, Option<Literal>)>,
}

pub closed spec fn table_of(entries: Seq<(String, Option<Literal>)>) -> Map<
    Seq<char>,
    Option<LiteralView>,
>
    decreases entries.len(),
{
    if entries.len() == 0 {
        Map::empty()
    } else {
        table_of(entries.drop_last()).insert(entries.last().0@, value_view(entries.last().1))
    }
}

impl View for EnumValues {
    type V = Map<Seq<char>, Option<LiteralView>>;

    closed spec fn view(&self) -> Map<Seq<char>, Option<LiteralView>> {
        table_of(self.entries@)
    }
}

impl EnumValues {
    pub fn new() -> (r: EnumValues)
        ensures
            r@ == Map::<Seq<char>, Option<LiteralView>>::empty(),
    {
        EnumValues { entries: Vec::new() }
    }

    pub fn insert(&mut self, name: String, value: Option<Literal>)
        ensures
            final(self)@ == old(self)@.insert(name@, value_view(value)),
    {
        let ghost before = self.entries@;
        self.entries.push((name, value));
        assert(self.entries@.drop_last() =~= before);
    }

    /// The entry of a name: `None` where no member of that name was seen.
    pub fn get(&self, name: &String) -> (r: Option<&Option<Literal>>)
        ensures
            r is Some <==> self@.dom().contains(name@),
            r matches Some(v) ==> self@[name@] == value_view(*v),
    {
        let mut i: usize = self.entries.len();
        assert(self.entries@.subrange(0, i as int) =~= self.entries@);
        while i > 0
            invariant
                i <= self.entries.len(),
                self@.dom().contains(name@) <==> table_of(
                    self.entries@.subrange(0, i as int),
                ).dom().contains(name@),
                self@.dom().contains(name@) ==> self@[name@] == table_of(
                    self.entries@.subrange(0, i as int),
                )[name@],
            decreases i,
        {
            let ghost upto = self.entries@.subrange(0, i as int);
            assert(upto.drop_last() =~= self.entries@.subrange(0, i - 1));
            i -= 1;
            if self.entries[i].0 == *name {
                return Some(&self.entries[i].1);
            }
        }
        None
    }

    pub fn contains_key(&self, name: &String) -> (r: bool)
        ensures
            r == self@.dom().contains(name@),
    {
        self.get(name).is_some()
    }
}

/// The bitwise operator that a binary operator is, if any.
pub open spec fn as_bit_op(op: BinaryOp) -> Option<BitOp> {
    match op {
        BinaryOp::BitAnd => Some(BitOp::And),
        BinaryOp::BitOr => Some(BitOp::Or),
        BinaryOp::BitXor => Some(BitOp::Xor),
        BinaryOp::LShift => Some(BitOp::ShiftLeft),
        BinaryOp::RShift => Some(BitOp::ShiftRight),
        BinaryOp::ZeroFillRShift => Some(BitOp::ShiftRightZeroFill),
        _ => None,
    }
}

/// The arithmetic operator that a binary operator is, if any.
pub open spec fn as_arith_op(op: BinaryOp) -> Option<ArithOp> {
    match op {
        BinaryOp::Add => Some(ArithOp::Add),
        BinaryOp::Sub => Some(ArithOp::Sub),
        BinaryOp::Mul => Some(ArithOp::Mul),
        BinaryOp::Div => Some(ArithOp::Div),
        _ => None,
    }
}

/// A unary operator on a value: `+` keeps it; `-`, `!` and `~` take a
/// number, and `!` gives the number 1 for zero and 0 for anything else.
pub open spec fn unary_result(op: UnaryOp, v: LiteralView) -> Option<LiteralView> {
    match op {
        UnaryOp::Plus => Some(v),
        UnaryOp::Minus => match v {
            LiteralView::Num(n) => Some(LiteralView::Num(n.negated())),
            _ => None,
        },
        UnaryOp::Bang => match v {
            LiteralView::Num(n) => Some(
                LiteralView::Num(
                    Number::of_int(
                        if n.is_zero() {
                            1
                        } else {
                            0
                        },
                    ),
                ),
            ),
            _ => None,
        },
        UnaryOp::Tilde => match v {
            LiteralView::Num(n) => Some(LiteralView::Num(Number::of_int(-n.int32() - 1))),
            _ => None,
        },
        UnaryOp::Other => None,
    }
}

fn apply_unary(op: UnaryOp, v: Literal) -> (r: Result<Literal, Unresolvable>)
    ensures
        r matches Ok(l) ==> unary_result(op, v@) == Some(l@),
        r is Err ==> unary_result(op, v@) is None,
{
    match op {
        UnaryOp::Plus => Ok(v),
        UnaryOp::Minus => match v {
            Literal::Num(n) => Ok(Literal::Num(n.negate())),
            _ => Err(Unresolvable),
        },
        UnaryOp::Bang => match v {
            Literal::Num(n) => Ok(
                Literal::Num(
                    Number::from_int(
                        if n.is_zero_value() {
                            1
                        } else {
                            0
                        },
                    ),
                ),
            ),
            _ => Err(Unresolvable),
        },
        UnaryOp::Tilde => match v {
            Literal::Num(n) => {
                let x: i64 = n.to_int32() as i64;
                Ok(Literal::Num(Number::from_int(-x - 1)))
            },
            _ => Err(Unresolvable),
        },
        UnaryOp::Other => Err(Unresolvable),
    }
}

fn bit_op_of(op: BinaryOp) -> (r: Option<BitOp>)
    ensures
        r == as_bit_op(op),
{
    match op {
        BinaryOp::BitAnd => Some(BitOp::And),
        BinaryOp::BitOr => Some(BitOp::Or),
        BinaryOp::BitXor => Some(BitOp::Xor),
        BinaryOp::LShift => Some(BitOp::ShiftLeft),
        BinaryOp::RShift => Some(BitOp::ShiftRight),
        BinaryOp::ZeroFillRShift => Some(BitOp::ShiftRightZeroFill),
        _ => None,
    }
}

fn arith_op_of(op: BinaryOp) -> (r: Option<ArithOp>)
    ensures
        r == as_arith_op(op),
{
    match op {
        BinaryOp::Add => Some(ArithOp::Add),
        BinaryOp::Sub => Some(ArithOp::Sub),
        BinaryOp::Mul => Some(ArithOp::Mul),
        BinaryOp::Div => Some(ArithOp::Div),
        _ => None,
    }
}

/// What an operator gives for two whole numbers, where that is a whole
/// number of at most 53 bits and not zero: the floating-point result is
/// then this whole number, exactly.
pub open spec fn whole_result(op: ArithOp, x: int, y: int) -> Option<int> {
    let exact = match op {
        ArithOp::Add => Some(x + y),
        ArithOp::Sub => Some(x - y),
        ArithOp::Mul => Some(x * y),
        ArithOp::Div => if y != 0 && x % y == 0 {
            Some(x / y)
        } else {
            None
        },
    };
    match exact {
        Some(v) => if v != 0 && -MAX_INDEX <= v <= MAX_INDEX {
            Some(v)
        } else {
            None
        },
        None => None,
    }
}

/// A multiple of a number divides by it without remainder.
proof fn lemma_exact_multiple(x: int, y: int, s: int)
    requires
        y != 0,
        x == s * y,
    ensures
        x % y == 0,
        x / y == s,
{
    assert(x % y == 0 && x / y == s) by (nonlinear_arith)
        requires
            y != 0,
            x == s * y,
    ;
}

/// What divides without remainder is a multiple.
proof fn lemma_divisible(x: int, y: int)
    requires
        y != 0,
        x % y == 0,
    ensures
        x == (x / y) * y,
{
    assert(x == (x / y) * y) by (nonlinear_arith)
        requires
            y != 0,
            x % y == 0,
    ;
}

/// The quotient of two whole numbers, where the division leaves nothing.
fn whole_quotient(x: i64, y: i64) -> (r: Option<i64>)
    requires
        -MAX_INDEX <= x <= MAX_INDEX,
        -MAX_INDEX <= y <= MAX_INDEX,
    ensures
        r matches Some(v) ==> y != 0 && x as int % y as int == 0 && v == x as int / y as int,
        r is None ==> y == 0 || x as int % y as int != 0,
{
    if y == 0 {
        return None;
    }
    let ax: u64 = if x < 0 {
        (-x) as u64
    } else {
        x as u64
    };
    let ay: u64 = if y < 0 {
        (-y) as u64
    } else {
        y as u64
    };
    let q: u64 = ax / ay;
    let rest: u64 = ax % ay;
    let opposite = (x < 0) != (y < 0);
    let s: i64 = if opposite {
        -(q as i64)
    } else {
        q as i64
    };
    proof {
        lemma_fundamental_div_mod(ax as int, ay as int);
        if rest == 0 {
            assert(x == s * y) by (nonlinear_arith)
                requires
                    ax == ay * q,
                    ax == if x < 0 {
                        -x
                    } else {
                        x as int
                    },
                    ay == if y < 0 {
                        -y
                    } else {
                        y as int
                    },
                    s == if (x < 0) != (y < 0) {
                        -q
                    } else {
                        q as int
                    },
            ;
            lemma_exact_multiple(x as int, y as int, s as int);
        } else if x as int % y as int == 0 {
            lemma_divisible(x as int, y as int);
            let t = x as int / y as int;
            let at = if t < 0 {
                -t
            } else {
                t
            };
            assert(ax == at * ay) by (nonlinear_arith)
                requires
                    x == t * y,
                    ax == if x < 0 {
                        -x
                    } else {
                        x as int
                    },
                    ay == if y < 0 {
                        -y
                    } else {
                        y as int
                    },
                    at == if t < 0 {
                        -t
                    } else {
                        t
                    },
            ;
            lemma_exact_multiple(ax as int, ay as int, at);
        }
    }
    if rest != 0 {
        return None;
    }
    Some(s)
}

fn whole_arith(op: ArithOp, x: i64, y: i64) -> (r: Option<i64>)
    requires
        -MAX_INDEX <= x <= MAX_INDEX,
        -MAX_INDEX <= y <= MAX_INDEX,
    ensures
        r matches Some(v) ==> whole_result(op, x as int, y as int) == Some(v as int),
        r is None ==> whole_result(op, x as int, y as int) is None,
{
    let exact: i128 = match op {
        ArithOp::Add => x as i128 + y as i128,
        ArithOp::Sub => x as i128 - y as i128,
        ArithOp::Mul => {
            assert(-0x400_0000_0000_0000_0000_0000_0000 <= x * y
                <= 0x400_0000_0000_0000_0000_0000_0000) by (nonlinear_arith)
                requires
                    -0x20_0000_0000_0000 <= x <= 0x20_0000_0000_0000,
                    -0x20_0000_0000_0000 <= y <= 0x20_0000_0000_0000,
            ;
            x as i128 * y as i128
        },
        ArithOp::Div => match whole_quotient(x, y) {
            Some(v) => v as i128,
            None => {
                return None;
            },
        },
    };
    if exact != 0 && -(MAX_INDEX as i128) <= exact && exact <= MAX_INDEX as i128 {
        Some(exact as i64)
    } else {
        None
    }
}

fn joined(a: String, b: &String) -> (r: String)
    ensures
        r@ == a@ + b@,
{
    let mut r = a;
    r.append(b.as_str());
    r
}

impl<A: Fn(ArithOp, Number, Number) -> Number, T: Fn(Number) -> String> EnumToObjVisitor<A, T> {
    /// What one of `+ - * /` gives for two numbers: where `whole_result`
    /// has the result it is that whole number, and else it is what `arith`
    /// gives.
    pub open spec fn arith_result(&self, op: ArithOp, a: Number, b: Number) -> Number {
        match (a.whole_number(), b.whole_number()) {
            (Some(x), Some(y)) => match whole_result(op, x, y) {
                Some(v) => Number::of_int(v),
                None => self.arith_of(op, a, b),
            },
            _ => self.arith_of(op, a, b),
        }
    }

    /// Applies one of `+ - * /` to two numbers.
    pub fn arithmetic(&self, op: ArithOp, a: Number, b: Number) -> (r: Number)
        requires
            self.wf(),
        ensures
            r == self.arith_result(op, a, b),
    {
        if let Some(x) = a.to_integer() {
            if let Some(y) = b.to_integer() {
                if let Some(v) = whole_arith(op, x, y) {
                    return Number::from_int(v);
                }
            }
        }
        self.apply_arith(op, a, b)
    }

    /// A binary operator on two values.
    ///
    /// On two numbers, `+ - * /` are those of the floating-point value, and
    /// `& | ^ << >> >>>` work on the 32-bit integers. `+` joins two strings,
    /// or a string and the decimal text of a number. Nothing else has a
    /// value.
    pub open spec fn binary_result(&self, op: BinaryOp, a: LiteralView, b: LiteralView) -> Option<
        LiteralView,
    > {
        match (a, b) {
            (LiteralView::Num(x), LiteralView::Num(y)) => match (as_arith_op(op), as_bit_op(op)) {
                (Some(arith), _) => Some(LiteralView::Num(self.arith_result(arith, x, y))),
                (_, Some(bit)) => Some(LiteralView::Num(Number::of_int(bit_result(bit, x, y)))),
                _ => None,
            },
            (LiteralView::Str(s), LiteralView::Str(t)) => if op == BinaryOp::Add {
                Some(LiteralView::Str(s + t))
            } else {
                None
            },
            (LiteralView::Num(x), LiteralView::Str(t)) => if op == BinaryOp::Add {
                Some(LiteralView::Str(self.decimal_text(x) + t))
            } else {
                None
            },
            (LiteralView::Str(s), LiteralView::Num(y)) => if op == BinaryOp::Add {
                Some(LiteralView::Str(s + self.decimal_text(y)))
            } else {
                None
            },
            _ => None,
        }
    }

    /// The value of an initializer, given the values of the members before
    /// it; `None` where it has none at transform time.
    pub open spec fn evaluated(
        &self,
        e: ExprView,
        values: Map<Seq<char>, Option<LiteralView>>,
    ) -> Option<LiteralView>
        decreases e,
    {
        match e.kind {
            ExprKindView::Lit(LitView::Str(s)) => Some(LiteralView::Str(s)),
            ExprKindView::Lit(LitView::Num(n)) => Some(LiteralView::Num(n)),
            ExprKindView::Paren(inner) => self.evaluated(*inner, values),
            ExprKindView::Ident(name) => if values.dom().contains(name) {
                values[name]
            } else {
                None
            },
            ExprKindView::Tpl(quasis, exprs) => if exprs.len() == 0 && quasis.len() == 1 {
                match quasis[0] {
                    Some(s) => Some(LiteralView::Str(s)),
                    None => None,
                }
            } else {
                None
            },
            ExprKindView::Unary(op, arg) => match self.evaluated(*arg, values) {
                Some(v) => unary_result(op, v),
                None => None,
            },
            ExprKindView::Bin(op, left, right) => match (
                self.evaluated(*left, values),
                self.evaluated(*right, values),
            ) {
                (Some(a), Some(b)) => self.binary_result(op, a, b),
                _ => None,
            },
            _ => None,
        }
    }

    /// The value of a member: that of its initializer, or, without one, the
    /// default index.
    pub open spec fn evaluation(
        &self,
        default_index: Number,
        init: Option<ExprView>,
        values: Map<Seq<char>, Option<LiteralView>>,
    ) -> Option<LiteralView> {
        match init {
            Some(e) => self.evaluated(e, values),
            None => Some(LiteralView::Num(default_index)),
        }
    }

    /// One more than a number. For a whole number this is the next whole
    /// number; for any other it is what `+` gives for it and 1.
    pub open spec fn successor_of(&self, n: Number) -> Number {
        match n.whole_number() {
            Some(i) => if i < MAX_INDEX {
                Number::of_int(i + 1)
            } else {
                self.arith_of(ArithOp::Add, n, Number::of_int(1))
            },
            None => self.arith_of(ArithOp::Add, n, Number::of_int(1)),
        }
    }

    /// The default index of the member after one of this value: one more
    /// than a number, and unchanged after anything else.
    pub open spec fn next_default(&self, default_index: Number, value: Option<LiteralView>)
        -> Number {
        match value {
            Some(LiteralView::Num(n)) => self.successor_of(n),
            _ => default_index,
        }
    }

    /// After the whole number `i` comes `i + 1`.
    pub proof fn lemma_successor_of_whole(&self, i: int)
        requires
            -MAX_INDEX <= i < MAX_INDEX,
        ensures
            self.successor_of(Number::of_int(i)) == Number::of_int(i + 1),
    {
        lemma_of_int(i);
    }

    /// One more than a number.
    pub fn successor(&self, n: Number) -> (r: Number)
        requires
            self.wf(),
        ensures
            r == self.successor_of(n),
    {
        match n.to_integer() {
            Some(i) => {
                if i < MAX_INDEX {
                    Number::from_int(i + 1)
                } else {
                    self.apply_arith(ArithOp::Add, n, Number::from_int(1))
                }
            },
            None => self.apply_arith(ArithOp::Add, n, Number::from_int(1)),
        }
    }

    /// Applies a binary operator to two values.
    pub fn apply_binary(&self, op: BinaryOp, a: Literal, b: Literal) -> (r: Result<
        Literal,
        Unresolvable,
    >)
        requires
            self.wf(),
        ensures
            r matches Ok(l) ==> self.binary_result(op, a@, b@) == Some(l@),
            r is Err ==> self.binary_result(op, a@, b@) is None,
    {
        match (a, b) {
            (Literal::Num(x), Literal::Num(y)) => {
                if let Some(arith) = arith_op_of(op) {
                    Ok(Literal::Num(self.arithmetic(arith, x, y)))
                } else if let Some(bit) = bit_op_of(op) {
                    Ok(Literal::Num(Number::bit_op(bit, x, y)))
                } else {
                    Err(Unresolvable)
                }
            },
            (Literal::Str(s), Literal::Str(t)) => match op {
                BinaryOp::Add => Ok(Literal::Str(joined(s, &t))),
                _ => Err(Unresolvable),
            },
            (Literal::Num(x), Literal::Str(t)) => match op {
                BinaryOp::Add => Ok(Literal::Str(joined(self.number_text(x), &t))),
                _ => Err(Unresolvable),
            },
            (Literal::Str(s), Literal::Num(y)) => match op {
                BinaryOp::Add => {
                    let text = self.number_text(y);
                    Ok(Literal::Str(joined(s, &text)))
                },
                _ => Err(Unresolvable),
            },
            _ => Err(Unresolvable),
        }
    }

    /// Computes the value of an initializer.
    fn evaluate_expr(&self, expr: &Expr, values: &EnumValues) -> (r: Result<Literal, Unresolvable>)
        requires
            self.wf(),
        ensures
            r matches Ok(l) ==> self.evaluated(expr@, values@) == Some(l@),
            r is Err ==> self.evaluated(expr@, values@) is None,
        decreases expr,
    {
        if let Some(lit) = expr.as_lit() {
            return match lit {
                Lit::Str(s) => Ok(Literal::Str(s.clone())),
                Lit::Num(n) => Ok(Literal::Num(*n)),
                _ => Err(Unresolvable),
            };
        }
        if let Some(inner) = expr.as_paren() {
            return self.evaluate_expr(inner, values);
        }
        if let Some(name) = expr.as_ident() {
            return match values.get(name) {
                Some(Some(v)) => Ok(v.duplicate()),
                _ => Err(Unresolvable),
            };
        }
        if let Some((quasis, exprs)) = expr.as_tpl() {
            if exprs.len() == 0 && quasis.len() == 1 {
                return match &quasis[0] {
                    Some(s) => Ok(Literal::Str(s.clone())),
                    None => Err(Unresolvable),
                };
            }
            return Err(Unresolvable);
        }
        if let Some((op, arg)) = expr.as_unary() {
            return match self.evaluate_expr(arg, values) {
                Ok(v) => apply_unary(op, v),
                Err(e) => Err(e),
            };
        }
        if let Some((op, left, right)) = expr.as_bin() {
            let l = self.evaluate_expr(left, values)?;
            let r = self.evaluate_expr(right, values)?;
            return self.apply_binary(op, l, r);
        }
        Err(Unresolvable)
    }

    /// Computes the value of a member.
    ///
    /// Without an initializer the value is the default index; with one, it
    /// is what the initializer evaluates to, or `Unresolvable`.
    pub fn evaluate(&self, default_index: Number, init: Option<&Expr>, values: &EnumValues) -> (r:
        Result<Literal, Unresolvable>)
        requires
            self.wf(),
        ensures
            r matches Ok(l) ==> self.evaluation(default_index, initializer_view(init), values@)
                == Some(l@),
            r is Err ==> self.evaluation(default_index, initializer_view(init), values@) is None,
    {
        match init {
            Some(expr) => self.evaluate_expr(expr, values),
            None => Ok(Literal::Num(default_index)),
        }
    }
}

} // verus!
