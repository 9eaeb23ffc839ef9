use abwaves::math::{Dir2, Scalar, Vec2};
use abwaves::wave::{HeightFn, Wave};
use abwaves::{AbWaves, Color, Rgba8, Shading};

fn scalar(v: f32) -> Scalar {
    Scalar { bits: v.to_bits() }
}

fn vec2(x: f32, y: f32) -> Vec2 {
    Vec2 { x: scalar(x), y: scalar(y) }
}

/// A flat boundary through `origin` with the given up direction.
fn flat_wave(origin: (f32, f32), up: (f32, f32)) -> Wave {
    Wave {
        origin: vec2(origin.0, origin.1),
        up: Dir2::new_unchecked(vec2(up.0, up.1)),
        series: vec![HeightFn::new_const(scalar(0.0))],
    }
}

/// The height of a flat (constant-zero series) wave at a point, computed
/// as the model states it: the dot product of (point - origin) with up.
fn flat_height(origin: (f32, f32), up: (f32, f32), p: (f32, f32)) -> f32 {
    (p.0 - origin.0) * up.0 + (p.1 - origin.1) * up.1
}

const BLACK: Rgba8 = Rgba8 { r: 0, g: 0, b: 0, a: 255 };
const WHITE: Rgba8 = Rgba8 { r: 255, g: 255, b: 255, a: 255 };
const GREY: Rgba8 = Rgba8 { r: 127, g: 127, b: 127, a: 255 };

#[test]
fn construction_needs_one_more_color() {
    let waves = vec![flat_wave((0.5, 0.5), (0.0, -1.0))];
    assert!(AbWaves::new(vec![Color::Solid(BLACK)], waves).is_none());

    let waves = vec![flat_wave((0.5, 0.5), (0.0, -1.0))];
    assert!(AbWaves::new(vec![], waves).is_none());

    let waves = vec![
        flat_wave((0.5, 0.25), (0.0, -1.0)),
        flat_wave((0.5, 0.75), (0.0, -1.0)),
    ];
    assert!(AbWaves::new(vec![Color::Solid(BLACK), Color::Solid(WHITE)], waves).is_none());
}

#[test]
fn construction_succeeds_with_matching_counts() {
    let stack = AbWaves::new(vec![Color::Solid(BLACK)], vec![]).unwrap();
    assert_eq!(stack.colors().len(), 1);
    assert_eq!(stack.waves().len(), 0);

    let waves = vec![flat_wave((0.5, 0.5), (0.0, -1.0))];
    let stack = AbWaves::new(vec![Color::Solid(BLACK), Color::Solid(WHITE)], waves).unwrap();
    assert_eq!(stack.colors().len(), 2);
    assert_eq!(stack.waves().len(), 1);
    assert_eq!(stack.colors()[1], Color::Solid(WHITE));
}

/// A stack with no wave at all puts every point in its only region.
#[test]
fn empty_stack_has_one_region() {
    let stack = AbWaves::new(vec![Color::Solid(GREY)], vec![]).unwrap();
    assert_eq!(stack.region_index(&vec![]), 0);
}

/// One flat horizontal boundary through (0.5, 0.5), up toward smaller y:
/// the point (0.5, 0.4) has height 0.1 and falls in the upper region,
/// the point (0.5, 0.6) has height -0.1 and falls in the lower one.
#[test]
fn one_band_classifies_both_sides() {
    let origin = (0.5, 0.5);
    let up = (0.0, -1.0);
    let stack = AbWaves::new(
        vec![Color::Solid(BLACK), Color::Solid(WHITE)],
        vec![flat_wave(origin, up)],
    )
    .unwrap();

    let h_above = flat_height(origin, up, (0.5, 0.4));
    assert!(h_above > 0.0);
    let below = vec![h_above <= 0.0];
    assert_eq!(stack.region_index(&below), 1);
    assert_eq!(stack.shading_of(&below), Shading::Flat(WHITE));

    let h_below = flat_height(origin, up, (0.5, 0.6));
    assert!(h_below <= 0.0);
    let below = vec![h_below <= 0.0];
    assert_eq!(stack.region_index(&below), 0);
    assert_eq!(stack.shading_of(&below), Shading::Flat(BLACK));
}

/// Two flat boundaries with one up direction, origins stacked along it;
/// three colors. Sweeping a point along the up axis crosses exactly
/// three contiguous regions, ordered as the wave origins are.
#[test]
fn two_bands_make_three_contiguous_regions() {
    let up = (0.0, -1.0);
    let o0 = (0.5, 0.75);
    let o1 = (0.5, 0.25);
    let stack = AbWaves::new(
        vec![Color::Solid(BLACK), Color::Solid(GREY), Color::Solid(WHITE)],
        vec![flat_wave(o0, up), flat_wave(o1, up)],
    )
    .unwrap();

    let mut seen: Vec<usize> = vec![];
    let samples = 19usize;
    // Sweep along the up direction, from large y to small y.
    for i in (0..samples).rev() {
        let y = (i as f32 + 0.5) / samples as f32;
        let p = (0.5, y);
        let below = vec![
            flat_height(o0, up, p) <= 0.0,
            flat_height(o1, up, p) <= 0.0,
        ];
        let region = stack.region_index(&below);
        if seen.last() != Some(&region) {
            seen.push(region);
        }
    }
    // The sweep leaves region 0 at the first boundary and region 1 at
    // the second: three contiguous runs, in wave-origin order.
    assert_eq!(seen, vec![0, 1, 2]);
}

/// A gradient region is shaded by the boundary that was crossed to enter
/// it: region 0 by wave 0 with the height negated, region i by wave i-1.
#[test]
fn gradient_shading_names_the_entering_wave() {
    let up = (0.0, -1.0);
    let o0 = (0.5, 0.75);
    let o1 = (0.5, 0.25);
    let start = BLACK;
    let end = WHITE;
    let scale = scalar(0.5);
    let stack = AbWaves::new(
        vec![
            Color::GradientByHeight(start, end, scale),
            Color::GradientByHeight(start, end, scale),
            Color::GradientByHeight(start, end, scale),
        ],
        vec![flat_wave(o0, up), flat_wave(o1, up)],
    )
    .unwrap();

    // Region 0: below wave 0.
    let s = stack.shading_of(&vec![true, true]);
    assert_eq!(
        s,
        Shading::Gradient { start, end, scale, wave: 0, negate: true }
    );

    // Region 1: above wave 0, below wave 1.
    let s = stack.shading_of(&vec![false, true]);
    assert_eq!(
        s,
        Shading::Gradient { start, end, scale, wave: 0, negate: false }
    );

    // Region 2: below no wave.
    let s = stack.shading_of(&vec![false, false]);
    assert_eq!(
        s,
        Shading::Gradient { start, end, scale, wave: 1, negate: false }
    );
}
