use mat_props::error::Error;
use mat_props::expr::Expr;
use mat_props::thermal_conductivity_for_unidirectional_composite as conductivity;
use mat_props::thermal_expansion_for_honeycomb as honeycomb;
use mat_props::thermal_expansion_for_unidirectional_composite as composite;

fn eval(e: &Expr, inputs: &[f64]) -> f64 {
    match e {
        Expr::Input(i) => inputs[*i],
        Expr::Int(n) => *n as f64,
        Expr::Pi => std::f64::consts::PI,
        Expr::Add(a, b) => eval(a, inputs) + eval(b, inputs),
        Expr::Sub(a, b) => eval(a, inputs) - eval(b, inputs),
        Expr::Mul(a, b) => eval(a, inputs) * eval(b, inputs),
        Expr::Div(a, b) => eval(a, inputs) / eval(b, inputs),
        Expr::Sin(a) => eval(a, inputs).sin(),
        Expr::Cos(a) => eval(a, inputs).cos(),
        Expr::Powf(a, b) => eval(a, inputs).powf(eval(b, inputs)),
    }
}

fn eval3(es: &[Expr; 3], inputs: &[f64]) -> [f64; 3] {
    [eval(&es[0], inputs), eval(&es[1], inputs), eval(&es[2], inputs)]
}

fn conductivity_of(model: u8, fibre_content: f64, k_fiber: f64, k_matrix: f64) -> [f64; 3] {
    let formulas =
        conductivity::thermal_conductivity_for_unidirectional_composite(model).unwrap();
    eval3(&formulas, &[fibre_content, k_fiber, k_matrix])
}

fn honeycomb_of(model: u8, l: f64, h: f64, wall: f64, angle: f64, alpha: f64) -> [f64; 3] {
    let formulas = honeycomb::thermal_expansion_for_honeycomb(model).unwrap();
    eval3(&formulas, &[l, h, wall, angle, alpha])
}

/// Stands in for the elastic-modulus model: a transversely isotropic
/// rule-of-mixtures estimate, enough to exercise the expansion formulas.
fn elastic_results(inputs: [f64; 5]) -> [f64; 5] {
    let [fc, ef, nuf, em, num] = inputs;
    let e1 = fc * ef + (1.0 - fc) * em;
    let e2 = 1.0 / (fc / ef + (1.0 - fc) / em);
    let nu = fc * nuf + (1.0 - fc) * num;
    [e1, e2, e2, nu * e2 / e1, nu * e2 / e1]
}

#[test]
fn thermal_conductivity_for_unidirectional_composite_test() {
    let [k1, k2, k3] = conductivity_of(2, 0.2, 100.0, 1.0);
    assert_eq!(k1, 20.8);
    assert_eq!(k2, 1.3300670235932428);
    assert_eq!(k3, 1.3300670235932428);
}

#[test]
fn thermal_expansion_for_honeycomb_test() {
    let [alpha1, alpha2, alpha3] =
        honeycomb_of(1, 9.24, 8.4619, 0.4, std::f64::consts::PI / 6.0, 20e-5);
    assert_eq!(alpha1, 0.0002);
    assert_eq!(alpha2, 0.00019999999999999966);
    assert_eq!(alpha3, 0.0002);
}

#[test]
fn composite_expansion_plan_names_elastic_model_two() {
    let plan = composite::thermal_expansion_for_unidirectional_composite(1).unwrap();
    assert_eq!(plan.elastic_model, 2);
    assert_eq!(
        plan.elastic_inputs,
        [
            composite::FIBRE_CONTENT,
            composite::E_FOR_FIBER,
            composite::NU_FOR_FIBER,
            composite::E_FOR_MATRIX,
            composite::NU_FOR_MATRIX
        ]
    );
}

#[test]
fn composite_expansion_transverse_directions_agree() {
    let plan = composite::thermal_expansion_for_unidirectional_composite(1).unwrap();
    let params = [0.2, 100.0, 0.3, 1e-6, 5.0, 0.2, 20e-5];
    let handed: Vec<f64> = plan.elastic_inputs.iter().map(|&i| params[i]).collect();
    let moduli = elastic_results([handed[0], handed[1], handed[2], handed[3], handed[4]]);
    let mut inputs = params.to_vec();
    inputs.extend_from_slice(&moduli);
    assert_eq!(inputs.len(), composite::INPUT_COUNT);
    let [alpha1, alpha2, alpha3] = eval3(&plan.alphas, &inputs);
    assert_eq!(alpha2, alpha3);
    assert!(alpha1 > 1e-6 && alpha1 < 20e-5);
    assert!(alpha2 > alpha1);
}

#[test]
fn composite_expansion_with_equal_phases_is_the_common_coefficient() {
    let plan = composite::thermal_expansion_for_unidirectional_composite(1).unwrap();
    let params = [0.4, 5.0, 0.2, 7e-5, 5.0, 0.3, 7e-5];
    let moduli = elastic_results([0.4, 5.0, 0.2, 5.0, 0.3]);
    let mut inputs = params.to_vec();
    inputs.extend_from_slice(&moduli);
    let [alpha1, alpha2, alpha3] = eval3(&plan.alphas, &inputs);
    assert_eq!(alpha1, 7e-5);
    assert_eq!(alpha2, 7e-5);
    assert_eq!(alpha3, 7e-5);
}

#[test]
fn unknown_model_numbers_are_refused() {
    for n in [0u8, 3, 7, 255] {
        assert_eq!(
            conductivity::thermal_conductivity_for_unidirectional_composite(n).unwrap_err(),
            Error::UnknownModel
        );
    }
    for n in [0u8, 2, 255] {
        assert_eq!(honeycomb::thermal_expansion_for_honeycomb(n).unwrap_err(), Error::UnknownModel);
        assert!(matches!(
            composite::thermal_expansion_for_unidirectional_composite(n),
            Err(Error::UnknownModel)
        ));
    }
}

#[test]
fn model_zero_is_unknown_for_every_kind() {
    assert!(conductivity::thermal_conductivity_for_unidirectional_composite(0).is_err());
    assert!(honeycomb::thermal_expansion_for_honeycomb(0).is_err());
    assert!(composite::thermal_expansion_for_unidirectional_composite(0).is_err());
}

#[test]
fn registries_map_numbers_to_models() {
    assert_eq!(
        conductivity::Model::from_u8(1),
        Some(conductivity::Model::RuleOfMixtures)
    );
    assert_eq!(conductivity::Model::from_u8(2), Some(conductivity::Model::Vanin));
    assert_eq!(conductivity::Model::from_u8(3), None);
    assert_eq!(honeycomb::Model::from_u8(1), Some(honeycomb::Model::Vanin));
    assert_eq!(honeycomb::Model::from_u8(0), None);
    assert_eq!(composite::Model::from_u8(1), Some(composite::Model::Vanin));
    assert_eq!(composite::Model::from_u8(2), None);
}

#[test]
fn rule_of_mixtures_at_pure_matrix_and_pure_fibre() {
    assert_eq!(conductivity_of(1, 0.0, 100.0, 1.0), [1.0, 1.0, 1.0]);
    assert_eq!(conductivity_of(1, 1.0, 100.0, 1.0), [100.0, 100.0, 100.0]);
    assert_eq!(conductivity_of(1, 0.0, 3.0, 0.5), [0.5, 0.5, 0.5]);
    assert_eq!(conductivity_of(1, 1.0, 3.0, 0.5), [3.0, 3.0, 3.0]);
}

#[test]
fn rule_of_mixtures_means() {
    let [k1, k2, k3] = conductivity_of(1, 0.5, 3.0, 1.0);
    assert_eq!(k1, 2.0);
    assert_eq!(k2, 1.5);
    assert_eq!(k2, k3);
}

#[test]
fn vanin_transverse_directions_agree() {
    for (fc, kf, km) in [(0.2, 100.0, 1.0), (0.5, 2.0, 7.0), (0.7, 0.3, 40.0)] {
        let [k1, k2, k3] = conductivity_of(2, fc, kf, km);
        assert_eq!(k1, fc * kf + (1.0 - fc) * km);
        assert_eq!(k2, k3);
    }
}

#[test]
fn rule_of_mixtures_with_zero_matrix_conductivity_is_not_an_error() {
    let [k1, k2, k3] = conductivity_of(1, 0.2, 100.0, 0.0);
    assert_eq!(k1, 20.0);
    assert_eq!(k2, 0.0);
    assert_eq!(k3, 0.0);
    let [_, k2, _] = conductivity_of(1, 1.0, 100.0, 0.0);
    assert!(k2.is_nan());
}

#[test]
fn honeycomb_ignores_wall_thickness() {
    let angle = std::f64::consts::PI / 6.0;
    let a = honeycomb_of(1, 9.24, 8.4619, 0.4, angle, 20e-5);
    let b = honeycomb_of(1, 9.24, 8.4619, 123.0, angle, 20e-5);
    let c = honeycomb_of(1, 9.24, 8.4619, f64::NAN, angle, 20e-5);
    assert_eq!(a, b);
    assert_eq!(a, c);
    let [alpha1, _, alpha3] = honeycomb_of(1, 2.0, 5.0, 1.0, 0.3, 3e-5);
    assert_eq!(alpha1, 3e-5);
    assert_eq!(alpha3, 3e-5);
}

#[test]
fn honeycomb_secondary_formula_value() {
    let [_, alpha2, _] = honeycomb_of(1, 2.0, 4.0, 1.0, std::f64::consts::FRAC_PI_2, 1.0);
    assert!((alpha2 - 1.0).abs() < 1e-15);
}
