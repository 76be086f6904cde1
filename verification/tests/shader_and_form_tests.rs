use field_grid::differential::{DerivativeTerm, Form, FormBasis};
use field_grid::grid::{build_indices, SegmentDir};
use field_grid::plane_wave::{
    axis_name, cross_axis_layout, find_plane_wave, PlaneWaveProbe, SignedComponent, WaveDirection,
};
use field_grid::shader_source::{replace_str, ClassicShader, GridShader};

#[test]
fn grid_shader_substitutes_coordinate_equations() {
    let template = "pos = vec3({{x}}, {{y}}, {{z}}); w = {{x}};".to_string();
    let mut shader = GridShader::new(template.clone());
    assert_eq!(shader.vertex_src(), template.as_str());
    shader.edit_eqs(&["u*cos(v)".to_string(), "u*sin(v)".to_string(), "w".to_string()]);
    assert_eq!(shader.vertex_src(), "pos = vec3(u*cos(v), u*sin(v), w); w = u*cos(v);");
    shader.edit_eqs(&["x".to_string(), "y".to_string(), "z".to_string()]);
    assert_eq!(shader.vertex_src(), "pos = vec3(x, y, z); w = x;");
    assert_eq!(shader.position_attribute, "position");
    assert_eq!(shader.projection_matrix, "projection_matrix");
    assert_eq!(shader.transformation_matrix, "transformation_matrix");
    assert_eq!(shader.view_matrix, "view_matrix");
    assert_eq!(shader.color, "segment_color");
    assert_eq!(shader.tangent_mix, "tangent_mix");
    assert_eq!(shader.tangent_anchor_abstract, "tangent_anchor_abstract");
    assert_eq!(shader.tangent_basis_x, "tangent_basis_x");
    assert_eq!(shader.tangent_basis_y, "tangent_basis_y");
    assert_eq!(shader.tangent_basis_z, "tangent_basis_z");
}

#[test]
fn replace_matches_std_replace() {
    for (s, pat, with) in [
        ("aaaa", "aa", "b"),
        ("abcabc", "bc", "{{bc}}"),
        ("", "x", "y"),
        ("xyz", "xyzw", "q"),
        ("{{x}}{{x}}", "{{x}}", ""),
        ("é{{y}}ü", "{{y}}", "ß"),
    ] {
        assert_eq!(replace_str(s, pat, with), s.replace(pat, with));
    }
}

#[test]
fn classic_shader_names_its_interface() {
    let shader = ClassicShader::new();
    assert_eq!(shader.position_attribute, "position");
    assert_eq!(shader.projection_matrix, "projection_matrix");
    assert_eq!(shader.transformation_matrix, "transformation_matrix");
    assert_eq!(shader.view_matrix, "view_matrix");
    assert_eq!(shader.color, "color");
}

#[test]
fn edge_indices_join_consecutive_vertices() {
    assert_eq!(build_indices(3), vec![[0, 1], [1, 2], [2, 3]]);
    assert!(build_indices(0).is_empty());
    assert_eq!(SegmentDir::default(), SegmentDir::X);
}

#[test]
fn axis_names_follow_coordinates() {
    assert_eq!(axis_name(0), "x");
    assert_eq!(axis_name(1), "y");
    assert_eq!(axis_name(2), "z");
}

#[test]
fn hodge_star_permutes_components_and_is_an_involution() {
    let one = Form::new_otn(vec!["a".to_string(), "b".to_string(), "c".to_string()], 1);
    let two = one.hodge_star_otn_3d();
    assert_eq!(two.n_forms(), 2);
    assert_eq!(two.exprs, vec!["c".to_string(), "a".to_string(), "b".to_string()]);
    let back = two.hodge_star_otn_3d();
    assert_eq!(back.n_forms(), 1);
    assert_eq!(back.exprs, one.exprs);
    assert_eq!(back.basis(), FormBasis::Orthonormal);

    let zero = Form::new_otn(vec!["f".to_string()], 0);
    let three = zero.hodge_star_otn_3d();
    assert_eq!(three.n_forms(), 3);
    assert_eq!(three.get_expr(0), "f");
}

#[test]
fn forms_keep_their_coframe_tag() {
    let natural = Form::new(vec![1u8, 2, 3], 1);
    assert_eq!(natural.basis(), FormBasis::Natural);
    let tagged = natural.with_basis(FormBasis::Orthonormal);
    assert_eq!(tagged.basis(), FormBasis::Orthonormal);
    assert_eq!(tagged.n_forms(), 1);
    assert_eq!(*tagged.get_expr(2), 3);
    let explicit = Form::new_in_basis(vec![4u8], 3, FormBasis::Natural);
    explicit.expect_basis(FormBasis::Natural);
    assert_eq!(explicit.n_forms(), 3);
}

fn layout_of(degree: usize) -> (usize, Vec<DerivativeTerm>) {
    let components = if degree == 0 || degree == 3 { 1 } else { 3 };
    Form::new(vec![0u8; components], degree).derivative_layout()
}

#[test]
fn exterior_derivative_layout_matches_grad_curl_div() {
    let (degree, grad) = layout_of(0);
    assert_eq!(degree, 1);
    assert_eq!(grad.len(), 3);
    for (i, t) in grad.iter().enumerate() {
        assert_eq!((t.target, t.source, t.variable, t.negative), (i, 0, i, false));
    }
    let (degree, curl) = layout_of(1);
    assert_eq!(degree, 2);
    let curl: Vec<_> = curl.iter().map(|t| (t.target, t.source, t.variable, t.negative)).collect();
    assert_eq!(
        curl,
        vec![(0, 1, 0, false), (0, 0, 1, true), (1, 2, 1, false), (1, 1, 2, true), (2, 0, 2, false), (2, 2, 0, true)]
    );
    let (degree, div) = layout_of(2);
    assert_eq!(degree, 3);
    let div: Vec<_> = div.iter().map(|t| (t.target, t.source, t.variable)).collect();
    assert_eq!(div, vec![(0, 1, 0), (0, 2, 1), (0, 0, 2)]);
    let (degree, none) = layout_of(3);
    assert_eq!(degree, 0);
    assert!(none.is_empty());
}

/// Coefficient of the derivative along `a` then `b` of component `s` in component `c` of
/// `d(d w)`, computed from the two layouts.
fn dd_coefficient(degree: usize, c: usize, s: usize, a: usize, b: usize) -> i32 {
    let (mid, inner) = layout_of(degree);
    let (_, outer) = layout_of(mid);
    let sign = |t: &DerivativeTerm| if t.negative { -1 } else { 1 };
    outer
        .iter()
        .filter(|o| o.target == c && o.variable == b)
        .map(|o| {
            sign(o)
                * inner
                    .iter()
                    .filter(|i| i.target == o.source && i.source == s && i.variable == a)
                    .map(sign)
                    .sum::<i32>()
        })
        .sum()
}

#[test]
fn exterior_derivative_applied_twice_cancels() {
    let mut nonzero = 0;
    for degree in 0..=3 {
        for c in 0..3 {
            for s in 0..3 {
                for a in 0..3 {
                    for b in 0..3 {
                        let forward = dd_coefficient(degree, c, s, a, b);
                        assert_eq!(forward + dd_coefficient(degree, c, s, b, a), 0);
                        if forward != 0 {
                            nonzero += 1;
                        }
                    }
                }
            }
        }
    }
    // Curl of a gradient and divergence of a curl each have six non-cancelled second
    // derivatives before commuting them.
    assert_eq!(nonzero, 12);
}

fn probe_for_wave_along_x(forward: bool) -> PlaneWaveProbe {
    // E = (0, cos(x - d t), 0): vanishing x component, constant across y and z.
    let d = if forward { 0 } else { 1 };
    let mut residual = [[[false; 2]; 3]; 3];
    for e in 0..3 {
        residual[e][0][d] = true;
    }
    // The zero components are waves along every axis and direction.
    residual[0] = [[true; 2]; 3];
    residual[2] = [[true; 2]; 3];
    PlaneWaveProbe {
        time_dependent: true,
        component_zero: [true, false, true],
        constant_along: [[true; 3], [false, true, true], [true; 3]],
        wave_residual_zero: residual,
    }
}

#[test]
fn plane_wave_search_finds_axis_and_direction() {
    assert_eq!(find_plane_wave(&probe_for_wave_along_x(true)), Some((0, WaveDirection::Forward)));
    assert_eq!(find_plane_wave(&probe_for_wave_along_x(false)), Some((0, WaveDirection::Backward)));
}

#[test]
fn plane_wave_search_rejects_static_and_non_wave_fields() {
    let mut static_field = probe_for_wave_along_x(true);
    static_field.time_dependent = false;
    assert_eq!(find_plane_wave(&static_field), None);

    let mut varies_across = probe_for_wave_along_x(true);
    varies_across.constant_along[1][2] = false;
    assert_eq!(find_plane_wave(&varies_across), None);

    let mut no_zero_component = probe_for_wave_along_x(true);
    no_zero_component.component_zero = [false; 3];
    assert_eq!(find_plane_wave(&no_zero_component), None);
}

#[test]
fn plane_wave_search_prefers_lower_axis_then_forward() {
    let all = PlaneWaveProbe {
        time_dependent: true,
        component_zero: [false, true, true],
        constant_along: [[true; 3]; 3],
        wave_residual_zero: [[[true; 2]; 3]; 3],
    };
    assert_eq!(find_plane_wave(&all), Some((1, WaveDirection::Forward)));
}

fn apply(layout: [SignedComponent; 3], v: [i64; 3]) -> [i64; 3] {
    layout.map(|c| match c {
        SignedComponent::Zero => 0,
        SignedComponent::Plus(i) => v[i],
        SignedComponent::Minus(i) => -v[i],
    })
}

#[test]
fn cross_axis_layout_is_the_signed_axis_cross_product() {
    let v = [2, 3, 5];
    assert_eq!(apply(cross_axis_layout(0, WaveDirection::Forward), v), [0, -5, 3]);
    assert_eq!(apply(cross_axis_layout(1, WaveDirection::Forward), v), [5, 0, -2]);
    assert_eq!(apply(cross_axis_layout(2, WaveDirection::Forward), v), [-3, 2, 0]);
    assert_eq!(apply(cross_axis_layout(2, WaveDirection::Backward), v), [3, -2, 0]);
}

#[test]
fn cross_axis_layout_twice_negates_transverse_fields() {
    for axis in 0..3 {
        for direction in [WaveDirection::Forward, WaveDirection::Backward] {
            let mut v = [7, -4, 9];
            v[axis] = 0;
            let layout = cross_axis_layout(axis, direction);
            assert_eq!(apply(layout, apply(layout, v)), v.map(|x| -x));
        }
    }
}
