use vstd::prelude::*;

verus! {

/// A closed-form formula over a list of real-valued inputs.
///
/// The intended reading is double-precision arithmetic: `Input(i)` is the
/// `i`-th input, `Int(n)` the number `n` converted exactly, `Pi` the double
/// nearest to pi, and each operation node one rounded floating-point
/// operation (`Powf` is `x.powf(y)`).
#[derive(Debug, PartialEq, Eq)]
pub enum Expr {
    Input(usize),
    Int(u32),
    Pi,
    Add(Box<Expr>, Box<Expr>),
    Sub(Box<Expr>, Box<Expr>),
    Mul(Box<Expr>, Box<Expr>),
    Div(Box<Expr>, Box<Expr>),
    Sin(Box<Expr>),
    Cos(Box<Expr>),
    Powf(Box<Expr>, Box<Expr>),
}

pub open spec fn plus(a: Expr, b: Expr) -> Expr {
    Expr::Add(Box::new(a), Box::new(b))
}

pub open spec fn minus(a: Expr, b: Expr) -> Expr {
    Expr::Sub(Box::new(a), Box::new(b))
}

pub open spec fn times(a: Expr, b: Expr) -> Expr {
    Expr::Mul(Box::new(a), Box::new(b))
}

pub open spec fn over(a: Expr, b: Expr) -> Expr {
    Expr::Div(Box::new(a), Box::new(b))
}

pub open spec fn sine(a: Expr) -> Expr {
    Expr::Sin(Box::new(a))
}

pub open spec fn cosine(a: Expr) -> Expr {
    Expr::Cos(Box::new(a))
}

pub open spec fn power(a: Expr, b: Expr) -> Expr {
    Expr::Powf(Box::new(a), Box::new(b))
}

/// Whether the formula reads input `i` anywhere.
pub open spec fn mentions(e: Expr, i: usize) -> bool
    decreases e,
{
    match e {
        Expr::Input(j) => j == i,
        Expr::Int(_) => false,
        Expr::Pi => false,
        Expr::Add(a, b) => mentions(*a, i) || mentions(*b, i),
        Expr::Sub(a, b) => mentions(*a, i) || mentions(*b, i),
        Expr::Mul(a, b) => mentions(*a, i) || mentions(*b, i),
        Expr::Div(a, b) => mentions(*a, i) || mentions(*b, i),
        Expr::Sin(a) => mentions(*a, i),
        Expr::Cos(a) => mentions(*a, i),
        Expr::Powf(a, b) => mentions(*a, i) || mentions(*b, i),
    }
}

/// The formula with every read of input `from` replaced by a read of input `to`.
pub open spec fn rename(e: Expr, from: usize, to: usize) -> Expr
    decreases e,
{
    match e {
        Expr::Input(j) => if j == from { Expr::Input(to) } else { Expr::Input(j) },
        Expr::Int(n) => Expr::Int(n),
        Expr::Pi => Expr::Pi,
        Expr::Add(a, b) => plus(rename(*a, from, to), rename(*b, from, to)),
        Expr::Sub(a, b) => minus(rename(*a, from, to), rename(*b, from, to)),
        Expr::Mul(a, b) => times(rename(*a, from, to), rename(*b, from, to)),
        Expr::Div(a, b) => over(rename(*a, from, to), rename(*b, from, to)),
        Expr::Sin(a) => sine(rename(*a, from, to)),
        Expr::Cos(a) => cosine(rename(*a, from, to)),
        Expr::Powf(a, b) => power(rename(*a, from, to), rename(*b, from, to)),
    }
}

/// Every input that the formula reads lies below `n`.
pub open spec fn inputs_below(e: Expr, n: usize) -> bool {
    forall|i: usize| mentions(e, i) ==> i < n
}

/// Renaming an input that a formula does not read leaves the formula as it is.
pub proof fn lemma_rename_unmentioned(e: Expr, from: usize, to: usize)
    requires
        !mentions(e, from),
    ensures
        rename(e, from, to) == e,
    decreases e,
{
    match e {
        Expr::Add(a, b) | Expr::Sub(a, b) | Expr::Mul(a, b) | Expr::Div(a, b) | Expr::Powf(a, b) => {
            lemma_rename_unmentioned(*a, from, to);
            lemma_rename_unmentioned(*b, from, to);
        },
        Expr::Sin(a) | Expr::Cos(a) => {
            lemma_rename_unmentioned(*a, from, to);
        },
        _ => {},
    }
}

impl Expr {
    /// A fresh copy of the formula.
    pub fn duplicate(&self) -> (r: Expr)
        ensures
            r == *self,
        decreases self,
    {
        match self {
            Expr::Input(i) => Expr::Input(*i),
            Expr::Int(n) => Expr::Int(*n),
            Expr::Pi => Expr::Pi,
            Expr::Add(a, b) => Expr::add(a.duplicate(), b.duplicate()),
            Expr::Sub(a, b) => Expr::sub(a.duplicate(), b.duplicate()),
            Expr::Mul(a, b) => Expr::mul(a.duplicate(), b.duplicate()),
            Expr::Div(a, b) => Expr::div(a.duplicate(), b.duplicate()),
            Expr::Sin(a) => Expr::sin(a.duplicate()),
            Expr::Cos(a) => Expr::cos(a.duplicate()),
            Expr::Powf(a, b) => Expr::powf(a.duplicate(), b.duplicate()),
        }
    }

    pub fn input(i: usize) -> (r: Expr)
        ensures
            r == Expr::Input(i),
    {
        Expr::Input(i)
    }

    pub fn constant(n: u32) -> (r: Expr)
        ensures
            r == Expr::Int(n),
    {
        Expr::Int(n)
    }

    pub fn pi() -> (r: Expr)
        ensures
            r == Expr::Pi,
    {
        Expr::Pi
    }

    pub fn add(a: Expr, b: Expr) -> (r: Expr)
        ensures
            r == plus(a, b),
    {
        Expr::Add(Box::new(a), Box::new(b))
    }

    pub fn sub(a: Expr, b: Expr) -> (r: Expr)
        ensures
            r == minus(a, b),
    {
        Expr::Sub(Box::new(a), Box::new(b))
    }

    pub fn mul(a: Expr, b: Expr) -> (r: Expr)
        ensures
            r == times(a, b),
    {
        Expr::Mul(Box::new(a), Box::new(b))
    }

    pub fn div(a: Expr, b: Expr) -> (r: Expr)
        ensures
            r == over(a, b),
    {
        Expr::Div(Box::new(a), Box::new(b))
    }

    pub fn sin(a: Expr) -> (r: Expr)
        ensures
            r == sine(a),
    {
        Expr::Sin(Box::new(a))
    }

    pub fn cos(a: Expr) -> (r: Expr)
        ensures
            r == cosine(a),
    {
        Expr::Cos(Box::new(a))
    }

    pub fn powf(a: Expr, b: Expr) -> (r: Expr)
        ensures
            r == power(a, b),
    {
        Expr::Powf(Box::new(a), Box::new(b))
    }
}

} // verus!
