//! Thermal expansion of a honeycomb core.
use crate::error::Error;
use crate::expr::{cosine, inputs_below, mentions, minus, over, times, Expr};
use vstd::prelude::*;

verus! {

/// Position of the length of the cell's inclined side among the inputs.
pub const L_CELL_SIDE_SIZE: usize = 0;

/// Position of the length of the cell's vertical side among the inputs.
pub const H_CELL_SIDE_SIZE: usize = 1;

/// Position of the wall thickness among the inputs; no present model reads it.
pub const WALL_THICKNESS: usize = 2;

/// Position of the cell angle, in radians, among the inputs.
pub const ANGLE: usize = 3;

/// Position of the wall material's expansion coefficient among the inputs.
pub const ALPHA_FOR_HONEYCOMB: usize = 4;

/// Number of inputs that the formulas may read.
pub const INPUT_COUNT: usize = 5;

/// The honeycomb expansion models, numbered from one.
#[derive(Debug, Clone, Copy, PartialEq, Eq, Structural)]
pub enum Model {
    /// Vanin's model.
    Vanin,
}

impl Model {
    /// The number that selects this model.
    pub open spec fn number(self) -> u8 {
        match self {
            Model::Vanin => 1,
        }
    }

    /// The model with the given number, if there is one.
    pub fn from_u8(n: u8) -> (r: Option<Model>)
        ensures
            r is Some <==> n == 1,
            r matches Some(m) ==> m.number() == n,
    {
        if n == 1 {
            Some(Model::Vanin)
        } else {
            None
        }
    }
}

pub open spec fn alpha() -> Expr {
    Expr::Input(ALPHA_FOR_HONEYCOMB)
}

/// `h / l`.
pub open spec fn side_ratio() -> Expr {
    over(Expr::Input(H_CELL_SIDE_SIZE), Expr::Input(L_CELL_SIDE_SIZE))
}

/// `(h / l * alpha - cos(angle) * alpha) / (h / l - cos(angle))`.
pub open spec fn vanin_secondary() -> Expr {
    let c = cosine(Expr::Input(ANGLE));
    over(minus(times(side_ratio(), alpha()), times(c, alpha())), minus(side_ratio(), c))
}

/// The formulas of `[alpha1, alpha2, alpha3]` under the given model.
pub open spec fn formulas(model: Model) -> Seq<Expr> {
    match model {
        Model::Vanin => seq![alpha(), vanin_secondary(), alpha()],
    }
}

fn make_alpha() -> (r: Expr)
    ensures
        r == alpha(),
{
    Expr::input(ALPHA_FOR_HONEYCOMB)
}

fn make_side_ratio() -> (r: Expr)
    ensures
        r == side_ratio(),
{
    Expr::div(Expr::input(H_CELL_SIDE_SIZE), Expr::input(L_CELL_SIDE_SIZE))
}

fn make_vanin_secondary() -> (r: Expr)
    ensures
        r == vanin_secondary(),
{
    let c = Expr::cos(Expr::input(ANGLE));
    let num = Expr::sub(
        Expr::mul(make_side_ratio(), make_alpha()),
        Expr::mul(c.duplicate(), make_alpha()),
    );
    Expr::div(num, Expr::sub(make_side_ratio(), c))
}

/// The formulas of the thermal expansion coefficients
/// `[alpha1, alpha2, alpha3]` of a honeycomb core under the model numbered
/// `number_of_model`, over the inputs at `L_CELL_SIDE_SIZE`,
/// `H_CELL_SIDE_SIZE`, `WALL_THICKNESS`, `ANGLE` and `ALPHA_FOR_HONEYCOMB`.
pub fn thermal_expansion_for_honeycomb(number_of_model: u8) -> (r: Result<[Expr; 3], Error>)
    ensures
        r is Err <==> number_of_model != 1,
        r matches Err(e) ==> e == Error::UnknownModel,
        r matches Ok(a) ==> exists|m: Model|
            m.number() == number_of_model && a@ == formulas(m),
        r matches Ok(a) ==> a@[0] == Expr::Input(ALPHA_FOR_HONEYCOMB) && a@[2] == Expr::Input(
            ALPHA_FOR_HONEYCOMB,
        ),
        r matches Ok(a) ==> forall|i: int| 0 <= i < 3 ==> !mentions(#[trigger] a@[i], WALL_THICKNESS),
        r matches Ok(a) ==> forall|i: int| 0 <= i < 3 ==> inputs_below(#[trigger] a@[i], INPUT_COUNT),
{
    let model = match Model::from_u8(number_of_model) {
        Some(m) => m,
        None => return Err(Error::UnknownModel),
    };
    match model {
        Model::Vanin => {
            let alpha1 = make_alpha();
            let alpha2 = make_vanin_secondary();
            let alpha3 = make_alpha();
            let r = [alpha1, alpha2, alpha3];
            assert(r@ =~= formulas(model));
            assert(!mentions(vanin_secondary(), WALL_THICKNESS)) by {
                reveal_with_fuel(mentions, 5);
            }
            assert(inputs_below(vanin_secondary(), INPUT_COUNT)) by {
                reveal_with_fuel(mentions, 5);
            }
            Ok(r)
        },
    }
}

} // verus!
