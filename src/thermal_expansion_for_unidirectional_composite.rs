//! Thermal expansion of a unidirectional fibre composite.
use crate::error::Error;
use crate::expr::{inputs_below, mentions, minus, over, plus, rename, times, Expr};
use vstd::prelude::*;

verus! {

/// Position of the fibre volume fraction among the inputs.
pub const FIBRE_CONTENT: usize = 0;

/// Position of the fibre's Young's modulus among the inputs.
pub const E_FOR_FIBER: usize = 1;

/// Position of the fibre's Poisson's ratio among the inputs.
pub const NU_FOR_FIBER: usize = 2;

/// Position of the fibre's expansion coefficient among the inputs.
pub const ALPHA_FOR_FIBER: usize = 3;

/// Position of the matrix's Young's modulus among the inputs.
pub const E_FOR_MATRIX: usize = 4;

/// Position of the matrix's Poisson's ratio among the inputs.
pub const NU_FOR_MATRIX: usize = 5;

/// Position of the matrix's expansion coefficient among the inputs.
pub const ALPHA_FOR_MATRIX: usize = 6;

/// Position of the composite's Young's modulus along the fibres, as the
/// elastic-modulus model returns it first.
pub const E1: usize = 7;

/// Position of the secondary Young's modulus, the elastic model's second result.
pub const E2: usize = 8;

/// Position of the tertiary Young's modulus, the elastic model's third result.
pub const E3: usize = 9;

/// Position of the elastic model's fourth result, the numerator of the
/// secondary-to-primary Poisson's ratio.
pub const NU21_NUM: usize = 10;

/// Position of the elastic model's fifth result, the numerator of the
/// tertiary-to-primary Poisson's ratio.
pub const NU31_NUM: usize = 11;

/// Number of inputs that the formulas may read: the seven material
/// parameters followed by the five results of the elastic model.
pub const INPUT_COUNT: usize = 12;

/// The number of the unidirectional elastic-modulus model whose five results
/// the formulas read, whichever expansion model is chosen.
pub const ELASTIC_MODEL: u8 = 2;

/// The expansion models, numbered from one.
#[derive(Debug, Clone, Copy, PartialEq, Eq, Structural)]
pub enum Model {
    /// Vanin's model.
    Vanin,
}

impl Model {
    /// The number that selects this model.
    pub open spec fn number(self) -> u8 {
        match self {
            Model::Vanin => 1,
        }
    }

    /// The model with the given number, if there is one.
    pub fn from_u8(n: u8) -> (r: Option<Model>)
        ensures
            r is Some <==> n == 1,
            r matches Some(m) ==> m.number() == n,
    {
        if n == 1 {
            Some(Model::Vanin)
        } else {
            None
        }
    }
}

/// What computing the expansion takes: the elastic model to run, the inputs
/// to hand it, and the formulas that read its five results.
pub struct ExpansionPlan {
    /// Number of the elastic-modulus model to run.
    pub elastic_model: u8,
    /// Positions of the inputs handed to the elastic model, in its order:
    /// fibre content, fibre modulus, fibre ratio, matrix modulus, matrix ratio.
    pub elastic_inputs: [usize; 5],
    /// Formulas of `[alpha1, alpha2, alpha3]`.
    pub alphas: [Expr; 3],
}

pub open spec fn input(i: usize) -> Expr {
    Expr::Input(i)
}

pub open spec fn one() -> Expr {
    Expr::Int(1)
}

/// `e / (2 (1 + nu))`: a shear modulus.
pub open spec fn shear(e: usize, nu: usize) -> Expr {
    over(input(e), times(Expr::Int(2), plus(one(), input(nu))))
}

/// `3 - 4 nu`: a Kolosov constant.
pub open spec fn kolosov(nu: usize) -> Expr {
    minus(Expr::Int(3), times(Expr::Int(4), input(nu)))
}

/// `1 - fc`.
pub open spec fn matrix_share() -> Expr {
    minus(one(), input(FIBRE_CONTENT))
}

/// `2 - fc + fc chi_m + (1 - fc) (chi_f + 1) g_m / g_f`.
pub open spec fn mismatch_denominator() -> Expr {
    let fc = input(FIBRE_CONTENT);
    plus(
        plus(minus(Expr::Int(2), fc), times(fc, kolosov(NU_FOR_MATRIX))),
        over(
            times(
                times(matrix_share(), plus(kolosov(NU_FOR_FIBER), one())),
                shear(E_FOR_MATRIX, NU_FOR_MATRIX),
            ),
            shear(E_FOR_FIBER, NU_FOR_FIBER),
        ),
    )
}

/// `8 g_m (nu_f - nu_m) (1 - fc) (1 + nu_f) / denominator`.
pub open spec fn mismatch() -> Expr {
    let num = times(
        times(
            times(
                times(Expr::Int(8), shear(E_FOR_MATRIX, NU_FOR_MATRIX)),
                minus(input(NU_FOR_FIBER), input(NU_FOR_MATRIX)),
            ),
            matrix_share(),
        ),
        plus(one(), input(NU_FOR_FIBER)),
    );
    over(num, mismatch_denominator())
}

/// `alpha_m - alpha_f`.
pub open spec fn alpha_gap() -> Expr {
    minus(input(ALPHA_FOR_MATRIX), input(ALPHA_FOR_FIBER))
}

/// `alpha_m - (alpha_m - alpha_f) fc / e1 (e_f + mismatch)`.
pub open spec fn primary() -> Expr {
    minus(
        input(ALPHA_FOR_MATRIX),
        times(
            over(times(alpha_gap(), input(FIBRE_CONTENT)), input(E1)),
            plus(input(E_FOR_FIBER), mismatch()),
        ),
    )
}

/// `num e1 / e`: an effective Poisson's ratio from an elastic result.
pub open spec fn poisson(num: usize, e: usize) -> Expr {
    over(times(input(num), input(E1)), input(e))
}

/// `alpha_m + (alpha_m - alpha1) nu - (alpha_m - alpha_f) (1 + nu_f)
///   (nu_m - nu) / (nu_m - nu_f)`.
pub open spec fn transverse(nu: Expr) -> Expr {
    let am = input(ALPHA_FOR_MATRIX);
    minus(
        plus(am, times(minus(am, primary()), nu)),
        over(
            times(times(alpha_gap(), plus(one(), input(NU_FOR_FIBER))), minus(input(NU_FOR_MATRIX), nu)),
            minus(input(NU_FOR_MATRIX), input(NU_FOR_FIBER)),
        ),
    )
}

/// The formulas of `[alpha1, alpha2, alpha3]` under the given model.
pub open spec fn formulas(model: Model) -> Seq<Expr> {
    match model {
        Model::Vanin => seq![
            primary(),
            transverse(poisson(NU21_NUM, E2)),
            transverse(poisson(NU31_NUM, E3)),
        ],
    }
}

/// The primary formula reads none of the elastic results but the first.
proof fn lemma_primary_reads_e1_only()
    ensures
        !mentions(primary(), E2),
        !mentions(primary(), E3),
        !mentions(primary(), NU21_NUM),
        !mentions(primary(), NU31_NUM),
{
    reveal_with_fuel(mentions, 12);
}

/// The secondary and tertiary formulas are the same formula: the tertiary
/// one reads the third elastic result where the secondary one reads the
/// second, and the fifth where it reads the fourth. So the two expansions
/// agree whenever the elastic model gives equal secondary and tertiary
/// moduli and equal Poisson numerators, as for a transversely isotropic
/// composite.
pub proof fn lemma_transverse_formulas_differ_only_in_elastic_results(m: Model)
    ensures
        rename(rename(formulas(m)[1], E2, E3), NU21_NUM, NU31_NUM) == formulas(m)[2],
{
    lemma_primary_reads_e1_only();
    crate::expr::lemma_rename_unmentioned(primary(), E2, E3);
    crate::expr::lemma_rename_unmentioned(primary(), NU21_NUM, NU31_NUM);
    reveal_with_fuel(rename, 6);
    reveal_with_fuel(mentions, 6);
}

proof fn lemma_formulas_read_known_inputs(m: Model)
    ensures
        forall|i: int| 0 <= i < 3 ==> inputs_below(#[trigger] formulas(m)[i], INPUT_COUNT),
{
    reveal_with_fuel(mentions, 20);
}

fn make_input(i: usize) -> (r: Expr)
    ensures
        r == input(i),
{
    Expr::input(i)
}

fn make_one() -> (r: Expr)
    ensures
        r == one(),
{
    Expr::constant(1)
}

fn make_shear(e: usize, nu: usize) -> (r: Expr)
    ensures
        r == shear(e, nu),
{
    Expr::div(make_input(e), Expr::mul(Expr::constant(2), Expr::add(make_one(), make_input(nu))))
}

fn make_kolosov(nu: usize) -> (r: Expr)
    ensures
        r == kolosov(nu),
{
    Expr::sub(Expr::constant(3), Expr::mul(Expr::constant(4), make_input(nu)))
}

fn make_matrix_share() -> (r: Expr)
    ensures
        r == matrix_share(),
{
    Expr::sub(make_one(), make_input(FIBRE_CONTENT))
}

fn make_mismatch(g_for_fiber: Expr, g_for_matrix: Expr, chi_for_fiber: Expr, chi_for_matrix: Expr) -> (r: Expr)
    requires
        g_for_fiber == shear(E_FOR_FIBER, NU_FOR_FIBER),
        g_for_matrix == shear(E_FOR_MATRIX, NU_FOR_MATRIX),
        chi_for_fiber == kolosov(NU_FOR_FIBER),
        chi_for_matrix == kolosov(NU_FOR_MATRIX),
    ensures
        r == mismatch(),
{
    let num = Expr::mul(
        Expr::mul(
            Expr::mul(
                Expr::mul(Expr::constant(8), g_for_matrix.duplicate()),
                Expr::sub(make_input(NU_FOR_FIBER), make_input(NU_FOR_MATRIX)),
            ),
            make_matrix_share(),
        ),
        Expr::add(make_one(), make_input(NU_FOR_FIBER)),
    );
    let den = Expr::add(
        Expr::add(
            Expr::sub(Expr::constant(2), make_input(FIBRE_CONTENT)),
            Expr::mul(make_input(FIBRE_CONTENT), chi_for_matrix),
        ),
        Expr::div(
            Expr::mul(Expr::mul(make_matrix_share(), Expr::add(chi_for_fiber, make_one())), g_for_matrix),
            g_for_fiber,
        ),
    );
    Expr::div(num, den)
}

fn make_alpha_gap() -> (r: Expr)
    ensures
        r == alpha_gap(),
{
    Expr::sub(make_input(ALPHA_FOR_MATRIX), make_input(ALPHA_FOR_FIBER))
}

fn make_transverse(alpha1: &Expr, nu: Expr) -> (r: Expr)
    requires
        *alpha1 == primary(),
    ensures
        r == transverse(nu),
{
    let am = make_input(ALPHA_FOR_MATRIX);
    let head = Expr::add(am, Expr::mul(Expr::sub(make_input(ALPHA_FOR_MATRIX), alpha1.duplicate()), nu.duplicate()));
    let gap = Expr::mul(
        Expr::mul(make_alpha_gap(), Expr::add(make_one(), make_input(NU_FOR_FIBER))),
        Expr::sub(make_input(NU_FOR_MATRIX), nu),
    );
    Expr::sub(head, Expr::div(gap, Expr::sub(make_input(NU_FOR_MATRIX), make_input(NU_FOR_FIBER))))
}

/// What computing the thermal expansion coefficients `[alpha1, alpha2,
/// alpha3]` of a unidirectional composite takes under the model numbered
/// `number_of_model`: the shear moduli and Kolosov constants of fibre and
/// matrix, then the five results of the elastic model `ELASTIC_MODEL` on the
/// fibre content and the elastic constants of fibre and matrix, then the
/// expansion formulas over all of them.
pub fn thermal_expansion_for_unidirectional_composite(number_of_model: u8) -> (r: Result<
    ExpansionPlan,
    Error,
>)
    ensures
        r is Err <==> number_of_model != 1,
        r matches Err(e) ==> e == Error::UnknownModel,
        r matches Ok(p) ==> p.elastic_model == ELASTIC_MODEL,
        r matches Ok(p) ==> p.elastic_inputs@ == seq![
            FIBRE_CONTENT,
            E_FOR_FIBER,
            NU_FOR_FIBER,
            E_FOR_MATRIX,
            NU_FOR_MATRIX,
        ],
        r matches Ok(p) ==> exists|m: Model|
            m.number() == number_of_model && p.alphas@ == formulas(m),
        r matches Ok(p) ==> p.alphas@[2] == rename(rename(p.alphas@[1], E2, E3), NU21_NUM, NU31_NUM),
        r matches Ok(p) ==> forall|i: int|
            0 <= i < 3 ==> inputs_below(#[trigger] p.alphas@[i], INPUT_COUNT),
{
    let model = match Model::from_u8(number_of_model) {
        Some(m) => m,
        None => return Err(Error::UnknownModel),
    };
    let g_for_fiber = make_shear(E_FOR_FIBER, NU_FOR_FIBER);
    let g_for_matrix = make_shear(E_FOR_MATRIX, NU_FOR_MATRIX);
    let chi_for_fiber = make_kolosov(NU_FOR_FIBER);
    let chi_for_matrix = make_kolosov(NU_FOR_MATRIX);
    let elastic_inputs = [FIBRE_CONTENT, E_FOR_FIBER, NU_FOR_FIBER, E_FOR_MATRIX, NU_FOR_MATRIX];
    let nu21 = Expr::div(Expr::mul(make_input(NU21_NUM), make_input(E1)), make_input(E2));
    let nu31 = Expr::div(Expr::mul(make_input(NU31_NUM), make_input(E1)), make_input(E3));
    match model {
        Model::Vanin => {
            let share = Expr::div(Expr::mul(make_alpha_gap(), make_input(FIBRE_CONTENT)), make_input(E1));
            let stiffness = Expr::add(
                make_input(E_FOR_FIBER),
                make_mismatch(g_for_fiber, g_for_matrix, chi_for_fiber, chi_for_matrix),
            );
            let alpha1 = Expr::sub(make_input(ALPHA_FOR_MATRIX), Expr::mul(share, stiffness));
            let alpha2 = make_transverse(&alpha1, nu21);
            let alpha3 = make_transverse(&alpha1, nu31);
            let alphas = [alpha1, alpha2, alpha3];
            proof {
                assert(alphas@ =~= formulas(model));
                lemma_transverse_formulas_differ_only_in_elastic_results(model);
                lemma_formulas_read_known_inputs(model);
            }
            assert(elastic_inputs@ =~= seq![FIBRE_CONTENT, E_FOR_FIBER, NU_FOR_FIBER, E_FOR_MATRIX, NU_FOR_MATRIX]);
            Ok(ExpansionPlan { elastic_model: ELASTIC_MODEL, elastic_inputs, alphas })
        },
    }
}

} // verus!
