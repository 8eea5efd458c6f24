use random_art::operations::Operation;
use random_art::renderer::FileRenderer;
use random_art::renderer::WindowRenderer;

#[test]
fn constant_glsl_is_a_vec3_literal() {
    let t = Operation::Constant(500_000);
    assert_eq!(t.to_glsl(), "vec3(0.500000, 0.500000, 0.500000)");
}

#[test]
fn negative_constant_prints_with_sign_and_padding() {
    let t = Operation::Constant(-250_000);
    assert_eq!(t.to_text(), "-0.250000");
    let t = Operation::Constant(-1_000_000);
    assert_eq!(t.to_text(), "-1.000000");
    let t = Operation::Constant(0);
    assert_eq!(t.to_text(), "0.000000");
    let t = Operation::Constant(7);
    assert_eq!(t.to_text(), "0.000007");
}

#[test]
fn sum_of_coordinates_glsl() {
    let t = Operation::Sum(Box::new(Operation::VarX), Box::new(Operation::VarY));
    assert_eq!(t.to_glsl(), "((vec3(x,x,x)) + (vec3(y,y,y)))");
}

#[test]
fn mod_glsl_uses_glsl_mod_call() {
    let t = Operation::Mod(Box::new(Operation::VarX), Box::new(Operation::VarT));
    assert_eq!(t.to_glsl(), "mod(vec3(x,x,x), vec3(t,t,t))");
}

#[test]
fn circle_glsl_is_a_distance_call() {
    let t = Operation::Circle(100_000, -200_000);
    assert_eq!(
        t.to_glsl(),
        "vec3(distance(vec2(x, y), vec2(0.100000, -0.200000)))"
    );
}

#[test]
fn inverse_glsl_negates_around_zero() {
    let t = Operation::Inverse(Box::new(Operation::VarY));
    assert_eq!(t.to_glsl(), "(vec3(0.0, 0.0, 0.0) - vec3(y,y,y))");
}

#[test]
fn smooth_mix_glsl_weights_by_length_on_both_sides() {
    let t = Operation::SmoothMix(
        Box::new(Operation::VarT),
        Box::new(Operation::VarX),
        Box::new(Operation::VarY),
    );
    assert_eq!(
        t.to_glsl(),
        "((length(vec3(t,t,t)) * vec3(x,x,x)) + ((1.0 - length(vec3(t,t,t))) * vec3(y,y,y)))"
    );
}

#[test]
fn binary_mask_glsl_compares_length_to_threshold() {
    let t = Operation::BinaryMask(
        Box::new(Operation::VarT),
        Box::new(Operation::VarX),
        Box::new(Operation::VarY),
        500_000,
    );
    assert_eq!(
        t.to_glsl(),
        "(length(vec3(t,t,t)) > 0.500000 ? vec3(x,x,x) : vec3(y,y,y))"
    );
}

#[test]
fn per_channel_mask_glsl_compares_each_channel() {
    let t = Operation::PerChannelMask(
        Box::new(Operation::VarT),
        Box::new(Operation::VarX),
        Box::new(Operation::VarY),
        0,
    );
    assert_eq!(
        t.to_glsl(),
        "vec3((vec3(t,t,t).x > 0.000000 ? vec3(x,x,x).x : vec3(y,y,y).x), \
         (vec3(t,t,t).y > 0.000000 ? vec3(x,x,x).y : vec3(y,y,y).y), \
         (vec3(t,t,t).z > 0.000000 ? vec3(x,x,x).z : vec3(y,y,y).z))"
    );
}

#[test]
fn shaping_functions_glsl_call_the_template_helpers() {
    let w = Operation::Well(Box::new(Operation::VarX));
    assert_eq!(
        w.to_glsl(),
        "vec3(well_fn(vec3(x,x,x).x), well_fn(vec3(x,x,x).y), well_fn(vec3(x,x,x).z))"
    );
    let t = Operation::Tent(Box::new(Operation::VarY));
    assert_eq!(
        t.to_glsl(),
        "vec3(tent_fn(vec3(y,y,y).x), tent_fn(vec3(y,y,y).y), tent_fn(vec3(y,y,y).z))"
    );
}

#[test]
fn rgb_glsl_recombines_one_channel_of_each_child() {
    let t = Operation::RGB(
        Box::new(Operation::VarX),
        Box::new(Operation::VarY),
        Box::new(Operation::VarT),
    );
    assert_eq!(t.to_glsl(), "vec3(vec3(x,x,x).x, vec3(y,y,y).y, vec3(t,t,t).z)");
}

#[test]
fn text_rendering_uses_infix_and_named_calls() {
    let t = Operation::Sum(
        Box::new(Operation::Product(
            Box::new(Operation::VarX),
            Box::new(Operation::Constant(500_000)),
        )),
        Box::new(Operation::Sine(Box::new(Operation::VarT))),
    );
    assert_eq!(t.to_text(), "((x * 0.500000) + sin(t))");
    let m = Operation::Mod(
        Box::new(Operation::Constant(-1_000_000)),
        Box::new(Operation::Constant(3_000_000)),
    );
    assert_eq!(m.to_text(), "(-1.000000 % 3.000000)");
}

#[test]
fn arity_counts_child_slots() {
    assert_eq!(Operation::VarX.arity(), 0);
    assert_eq!(Operation::Constant(1).arity(), 0);
    assert_eq!(Operation::Circle(0, 0).arity(), 0);
    assert_eq!(Operation::Sine(Box::new(Operation::VarX)).arity(), 1);
    assert_eq!(
        Operation::Sum(Box::new(Operation::VarX), Box::new(Operation::VarY)).arity(),
        2
    );
    assert_eq!(
        Operation::SmoothMix(
            Box::new(Operation::VarX),
            Box::new(Operation::VarY),
            Box::new(Operation::VarT)
        )
        .arity(),
        3
    );
}

#[test]
fn file_renderer_keeps_its_path() {
    let r = FileRenderer::new(String::from("generated/random_art.png"));
    assert_eq!(r.path().as_str(), "generated/random_art.png");
}

#[test]
fn window_renderer_constructs() {
    let _ = WindowRenderer::new();
}
