use warper::controls::{Controls, Coordinates, Message};
use warper::noise::{ColorMap, Fractal, NoiseFunction, NoiseFunctionName, NoiseMessage};
use warper::render::{NoiseOpts, plan_render};

#[test]
fn noise_opts_builders() {
    let o = NoiseOpts::with_wh(1200, 1000);
    assert_eq!(o.width, 1200);
    assert_eq!(o.height, 1000);
    assert_eq!(o.factor, 1_000_000);
    assert_eq!(o.x_scale, 1_000_000);
    assert_eq!(o.y_scale, 1_000_000);
    let o = o.factor(500_000_000).x_scale(3_000_000).y_scale(4_000_000);
    assert_eq!(o.factor, 500_000_000);
    assert_eq!(o.x_scale, 3_000_000);
    assert_eq!(o.y_scale, 4_000_000);
}

#[test]
fn synced_cartesian_plan_shares_channel_and_options() {
    let c = Controls::default();
    let plan = plan_render(&c, 1200, 1000);
    assert_eq!(plan.passes.len(), 1);
    let pass = plan.passes[0];
    assert_eq!(pass.coordinates, Coordinates::Cartesian);
    assert_eq!(pass.theta, NoiseFunction::Fbm(Fractal { octaves: 1, frequency: 1_000_000, seed: 0 }));
    assert_eq!(pass.radius, pass.theta);
    assert_eq!(pass.theta_opts.factor, 500_000_000);
    assert_eq!(pass.radius_opts, pass.theta_opts);
    assert_eq!(plan.hue_rotation, 0);
}

#[test]
fn synced_polar_plan_scales_the_radius_factor_thirty_fold() {
    let mut c = Controls::default();
    c.update(Message::CoordinatesMessage(Coordinates::Polar));
    let plan = plan_render(&c, 800, 600);
    let pass = plan.passes[0];
    assert_eq!(pass.coordinates, Coordinates::Polar);
    assert_eq!(pass.theta_opts.factor, 500_000_000);
    assert_eq!(pass.radius_opts.factor, 15_000_000_000);
    assert_eq!(pass.radius_opts.width, 800);
    assert_eq!(pass.radius_opts.height, 600);
}

#[test]
fn synced_image_channel_forces_the_red_green_map() {
    let mut c = Controls::default();
    c.update(Message::Angle(NoiseMessage::Function(NoiseFunctionName::Image)));
    let plan = plan_render(&c, 640, 480);
    let pass = plan.passes[0];
    assert_eq!(pass.theta, NoiseFunction::Image(ColorMap::Lightness));
    assert_eq!(pass.radius, NoiseFunction::Image(ColorMap::RedGreen));
}

#[test]
fn independent_radius_channel_gets_its_own_options_and_seed() {
    let mut c = Controls::default();
    c.update(Message::Sync(false));
    c.update(Message::Radius(NoiseMessage::Function(NoiseFunctionName::Ridged)));
    c.update(Message::Radius(NoiseMessage::Octaves(3)));
    let plan = plan_render(&c, 1200, 1000);
    let pass = plan.passes[0];
    assert_eq!(
        pass.radius,
        NoiseFunction::Ridged(Fractal { octaves: 3, frequency: 1_000_000, seed: 98713 })
    );
    assert_eq!(pass.radius_opts.factor, 1_000_000_000);
    assert_eq!(pass.radius_opts.x_scale, 8_000_000);
}

#[test]
fn warp_twice_appends_one_cartesian_pass_over_the_same_channels() {
    let mut c = Controls::default();
    c.update(Message::CoordinatesMessage(Coordinates::Polar));
    c.update(Message::WarpTwice(true));
    let plan = plan_render(&c, 1200, 1000);
    assert_eq!(plan.passes.len(), 2);
    let first = plan.passes[0];
    let second = plan.passes[1];
    assert_eq!(first.coordinates, Coordinates::Polar);
    assert_eq!(second.coordinates, Coordinates::Cartesian);
    assert_eq!(second.theta, first.theta);
    assert_eq!(second.radius, first.radius);
    assert_eq!(second.theta_opts, first.theta_opts);
    assert_eq!(second.radius_opts, first.radius_opts);
}

#[test]
fn disabling_warp_twice_leaves_a_single_pass() {
    let mut c = Controls::default();
    c.update(Message::WarpTwice(true));
    c.update(Message::WarpTwice(false));
    let plan = plan_render(&c, 1200, 1000);
    assert_eq!(plan.passes.len(), 1);
}
