//! Thermal conductivity of a unidirectional fibre composite.
use crate::error::Error;
use crate::expr::{inputs_below, mentions, minus, over, plus, power, sine, times, Expr};
use vstd::prelude::*;

verus! {

/// Position of the fibre volume fraction among the inputs.
pub const FIBRE_CONTENT: usize = 0;

/// Position of the fibre's thermal conductivity among the inputs.
pub const K_FOR_FIBER: usize = 1;

/// Position of the matrix's thermal conductivity among the inputs.
pub const K_FOR_MATRIX: usize = 2;

/// Number of inputs that the formulas read.
pub const INPUT_COUNT: usize = 3;

/// The conductivity models, numbered from one.
#[derive(Debug, Clone, Copy, PartialEq, Eq, Structural)]
pub enum Model {
    /// Volume-weighted arithmetic mean along the fibres, harmonic mean across them.
    RuleOfMixtures,
    /// Vanin's estimate for fibres in tetragonal packing.
    Vanin,
}

impl Model {
    /// The number that selects this model.
    pub open spec fn number(self) -> u8 {
        match self {
            Model::RuleOfMixtures => 1,
            Model::Vanin => 2,
        }
    }

    /// The model with the given number, if there is one.
    pub fn from_u8(n: u8) -> (r: Option<Model>)
        ensures
            r is Some <==> 1 <= n <= 2,
            r matches Some(m) ==> m.number() == n,
    {
        if n == 1 {
            Some(Model::RuleOfMixtures)
        } else if n == 2 {
            Some(Model::Vanin)
        } else {
            None
        }
    }
}

pub open spec fn fc() -> Expr {
    Expr::Input(FIBRE_CONTENT)
}

pub open spec fn kf() -> Expr {
    Expr::Input(K_FOR_FIBER)
}

pub open spec fn km() -> Expr {
    Expr::Input(K_FOR_MATRIX)
}

pub open spec fn one() -> Expr {
    Expr::Int(1)
}

/// `fc * kf + (1 - fc) * km`: the volume-weighted arithmetic mean.
pub open spec fn arithmetic_mean() -> Expr {
    plus(times(fc(), kf()), times(minus(one(), fc()), km()))
}

/// `1 / (fc / kf + (1 - fc) / km)`: the volume-weighted harmonic mean.
pub open spec fn harmonic_mean() -> Expr {
    over(one(), plus(over(fc(), kf()), over(minus(one(), fc()), km())))
}

/// `kf / km`.
pub open spec fn ratio() -> Expr {
    over(kf(), km())
}

/// `(1 - fc) * kf / km`.
pub open spec fn matrix_share_ratio() -> Expr {
    over(times(minus(one(), fc()), kf()), km())
}

/// `km * ((1 + fc + (1 - fc) kf / km) / (1 - fc + (1 - fc) kf / km))`: the
/// zeroth-order transverse estimate.
pub open spec fn zero_order() -> Expr {
    times(
        km(),
        over(
            plus(plus(one(), fc()), matrix_share_ratio()),
            plus(minus(one(), fc()), matrix_share_ratio()),
        ),
    )
}

/// `(1 - kf / km) / (1 - fc + (1 + fc) kf / km)`.
pub open spec fn mismatch() -> Expr {
    over(
        minus(one(), ratio()),
        plus(minus(one(), fc()), over(times(plus(one(), fc()), kf()), km())),
    )
}

/// `(1 - kf / km) / (1 + kf / km)`.
pub open spec fn contrast() -> Expr {
    over(minus(one(), ratio()), plus(one(), ratio()))
}

/// The packing exponent of the tetragonal lattice.
pub open spec fn packing() -> Expr {
    Expr::Int(6)
}

/// `pi / 2`.
pub open spec fn half_pi() -> Expr {
    over(Expr::Pi, Expr::Int(2))
}

/// `n n (n - 1) k0 / km * m * m * sin(pi/2) sin(pi/2) / (pi/2)^n
///   * (fc fc - fc^(2n) c c)`, evaluated from left to right.
pub open spec fn packing_correction() -> Expr {
    let n = packing();
    let head = over(times(times(times(n, n), minus(n, one())), zero_order()), km());
    let angular = times(sine(half_pi()), sine(half_pi()));
    let tail = minus(
        times(fc(), fc()),
        times(times(power(fc(), times(Expr::Int(2), n)), contrast()), contrast()),
    );
    times(over(times(times(times(head, mismatch()), mismatch()), angular), power(half_pi(), n)), tail)
}

/// `k0 * (1 + correction)`: Vanin's transverse conductivity.
pub open spec fn vanin_transverse() -> Expr {
    times(zero_order(), plus(one(), packing_correction()))
}

/// The formulas of `[k1, k2, k3]` under the given model.
pub open spec fn formulas(model: Model) -> Seq<Expr> {
    match model {
        Model::RuleOfMixtures => seq![arithmetic_mean(), harmonic_mean(), harmonic_mean()],
        Model::Vanin => seq![arithmetic_mean(), vanin_transverse(), vanin_transverse()],
    }
}

proof fn lemma_formulas_read_known_inputs(m: Model)
    ensures
        forall|i: int| 0 <= i < 3 ==> inputs_below(#[trigger] formulas(m)[i], INPUT_COUNT),
{
    reveal_with_fuel(mentions, 20);
}

fn make_fc() -> (r: Expr)
    ensures
        r == fc(),
{
    Expr::input(FIBRE_CONTENT)
}

fn make_kf() -> (r: Expr)
    ensures
        r == kf(),
{
    Expr::input(K_FOR_FIBER)
}

fn make_km() -> (r: Expr)
    ensures
        r == km(),
{
    Expr::input(K_FOR_MATRIX)
}

fn make_one() -> (r: Expr)
    ensures
        r == one(),
{
    Expr::constant(1)
}

fn make_one_minus_fc() -> (r: Expr)
    ensures
        r == minus(one(), fc()),
{
    Expr::sub(make_one(), make_fc())
}

fn make_arithmetic_mean() -> (r: Expr)
    ensures
        r == arithmetic_mean(),
{
    Expr::add(Expr::mul(make_fc(), make_kf()), Expr::mul(make_one_minus_fc(), make_km()))
}

fn make_harmonic_mean() -> (r: Expr)
    ensures
        r == harmonic_mean(),
{
    let fibre = Expr::div(make_fc(), make_kf());
    let matrix = Expr::div(make_one_minus_fc(), make_km());
    Expr::div(make_one(), Expr::add(fibre, matrix))
}

fn make_ratio() -> (r: Expr)
    ensures
        r == ratio(),
{
    Expr::div(make_kf(), make_km())
}

fn make_matrix_share_ratio() -> (r: Expr)
    ensures
        r == matrix_share_ratio(),
{
    Expr::div(Expr::mul(make_one_minus_fc(), make_kf()), make_km())
}

fn make_zero_order() -> (r: Expr)
    ensures
        r == zero_order(),
{
    let num = Expr::add(Expr::add(make_one(), make_fc()), make_matrix_share_ratio());
    let den = Expr::add(make_one_minus_fc(), make_matrix_share_ratio());
    Expr::mul(make_km(), Expr::div(num, den))
}

fn make_mismatch() -> (r: Expr)
    ensures
        r == mismatch(),
{
    let num = Expr::sub(make_one(), make_ratio());
    let weighted = Expr::div(Expr::mul(Expr::add(make_one(), make_fc()), make_kf()), make_km());
    Expr::div(num, Expr::add(make_one_minus_fc(), weighted))
}

fn make_contrast() -> (r: Expr)
    ensures
        r == contrast(),
{
    Expr::div(Expr::sub(make_one(), make_ratio()), Expr::add(make_one(), make_ratio()))
}

fn make_half_pi() -> (r: Expr)
    ensures
        r == half_pi(),
{
    Expr::div(Expr::pi(), Expr::constant(2))
}

fn make_packing_correction() -> (r: Expr)
    ensures
        r == packing_correction(),
{
    let n = Expr::constant(6);
    let n_minus_one = Expr::sub(n.duplicate(), make_one());
    let head = Expr::div(
        Expr::mul(Expr::mul(Expr::mul(n.duplicate(), n.duplicate()), n_minus_one), make_zero_order()),
        make_km(),
    );
    let angular = Expr::mul(Expr::sin(make_half_pi()), Expr::sin(make_half_pi()));
    let fc_power = Expr::powf(make_fc(), Expr::mul(Expr::constant(2), n.duplicate()));
    let tail = Expr::sub(
        Expr::mul(make_fc(), make_fc()),
        Expr::mul(Expr::mul(fc_power, make_contrast()), make_contrast()),
    );
    let scaled = Expr::mul(Expr::mul(Expr::mul(head, make_mismatch()), make_mismatch()), angular);
    Expr::mul(Expr::div(scaled, Expr::powf(make_half_pi(), n)), tail)
}

fn make_vanin_transverse() -> (r: Expr)
    ensures
        r == vanin_transverse(),
{
    Expr::mul(make_zero_order(), Expr::add(make_one(), make_packing_correction()))
}

/// The formulas of the thermal conductivities `[k1, k2, k3]` of a
/// unidirectional composite, along the fibres and across them, under the
/// model numbered `number_of_model`, over the inputs at `FIBRE_CONTENT`,
/// `K_FOR_FIBER` and `K_FOR_MATRIX`.
pub fn thermal_conductivity_for_unidirectional_composite(number_of_model: u8) -> (r: Result<
    [Expr; 3],
    Error,
>)
    ensures
        r is Err <==> number_of_model == 0 || number_of_model > 2,
        r matches Err(e) ==> e == Error::UnknownModel,
        r matches Ok(k) ==> exists|m: Model|
            m.number() == number_of_model && k@ == formulas(m),
        r matches Ok(k) ==> k@[1] == k@[2],
        r matches Ok(k) ==> forall|i: int| 0 <= i < 3 ==> inputs_below(#[trigger] k@[i], INPUT_COUNT),
{
    let model = match Model::from_u8(number_of_model) {
        Some(m) => m,
        None => return Err(Error::UnknownModel),
    };
    match model {
        Model::RuleOfMixtures => {
            let k1 = make_arithmetic_mean();
            let k2 = make_harmonic_mean();
            let k3 = make_harmonic_mean();
            let r = [k1, k2, k3];
            assert(r@ =~= formulas(model));
            proof {
                lemma_formulas_read_known_inputs(model);
            }
            Ok(r)
        },
        Model::Vanin => {
            let k1 = make_arithmetic_mean();
            let k2 = make_vanin_transverse();
            let k3 = make_vanin_transverse();
            let r = [k1, k2, k3];
            assert(r@ =~= formulas(model));
            proof {
                lemma_formulas_read_known_inputs(model);
            }
            Ok(r)
        },
    }
}

} // verus!
