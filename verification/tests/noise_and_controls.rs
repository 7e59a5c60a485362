use warper::controls::{Action, Controls, Coordinates, Message};
use warper::noise::{
    ColorMap, Fractal, NoiseControls, NoiseFunction, NoiseFunctionName, NoiseMessage, Sin,
    Sinusoidal, choose_noise,
};

#[test]
fn default_noise_controls() {
    let c = NoiseControls::default();
    assert_eq!(c.function, Some(NoiseFunctionName::Fbm));
    assert_eq!(c.factor, 50_000_000);
    assert_eq!(c.scale_x, 8_000_000);
    assert_eq!(c.scale_y, 8_000_000);
    assert_eq!(c.octaves, 1);
    assert_eq!(c.frequency, 1_000_000);
    assert_eq!(c.sin_x_freq, 1_000_000);
    assert_eq!(c.sin_y_freq, 1_000_000);
    assert_eq!(c.img_noise_path, "");
    assert_eq!(c.img_color_map, Some(ColorMap::Lightness));
    assert!(!c.dirty);
}

#[test]
fn noise_update_marks_dirty() {
    let mut c = NoiseControls::default();
    c.update(NoiseMessage::Factor(75_000_000));
    assert_eq!(c.factor, 75_000_000);
    assert!(c.dirty);
}

#[test]
fn noise_update_image_resets_scales() {
    let mut c = NoiseControls::default().set_noise_scale_x(3_000_000).set_noise_scale_y(
        4_000_000,
    );
    c.update(NoiseMessage::Function(NoiseFunctionName::Image));
    assert_eq!(c.function, Some(NoiseFunctionName::Image));
    assert_eq!(c.scale_x, 1_000_000);
    assert_eq!(c.scale_y, 1_000_000);
    assert!(c.dirty);
    let mut d = NoiseControls::default();
    d.update(NoiseMessage::Function(NoiseFunctionName::Billow));
    assert_eq!(d.scale_x, 8_000_000);
}

#[test]
fn noise_update_path_typing_is_not_dirty() {
    let mut c = NoiseControls::default();
    c.update(NoiseMessage::ImgNoisePathSet("tex.png".to_string()));
    assert_eq!(c.img_noise_path, "tex.png");
    assert!(!c.dirty);
    c.update(NoiseMessage::ImgNoisePath);
    assert!(c.dirty);
}

#[test]
fn choose_noise_fractal_families() {
    let c = NoiseControls::default().set_ocataves(4).set_frequency(2_500_000);
    let fractal = Fractal { octaves: 4, frequency: 2_500_000, seed: 0 };
    assert_eq!(choose_noise(&c), NoiseFunction::Fbm(fractal));
    assert_eq!(
        choose_noise(&c.clone().set_noise_function(NoiseFunctionName::Billow)),
        NoiseFunction::Billow(fractal)
    );
    assert_eq!(
        choose_noise(&c.clone().set_noise_function(NoiseFunctionName::Ridged)),
        NoiseFunction::Ridged(fractal)
    );
    assert_eq!(
        choose_noise(&c.clone().set_noise_function(NoiseFunctionName::Curl)),
        NoiseFunction::Curl(fractal)
    );
    assert_eq!(
        choose_noise(&c.clone().set_noise_function(NoiseFunctionName::SinFbm)),
        NoiseFunction::SinFbm(Sin { source: fractal })
    );
}

#[test]
fn choose_noise_cylinders_frequency_is_half_the_octaves() {
    let c = NoiseControls::default().set_noise_function(NoiseFunctionName::Cylinders)
        .set_ocataves(3);
    assert_eq!(choose_noise(&c), NoiseFunction::Cylinders(1_500_000));
}

#[test]
fn choose_noise_sinusoidal_value_and_image() {
    let c = NoiseControls::default().set_noise_function(NoiseFunctionName::Sinusoidal)
        .set_sin_x_freq(2_000_000).set_sin_y_freq(500_000);
    assert_eq!(
        choose_noise(&c),
        NoiseFunction::Sinusoidal(Sinusoidal { x_freq: 2_000_000, y_freq: 500_000 })
    );
    let v = NoiseControls::default().set_noise_function(NoiseFunctionName::Value);
    assert_eq!(choose_noise(&v), NoiseFunction::Value(0));
    let m = NoiseControls::default().set_noise_function(NoiseFunctionName::Magnet);
    assert_eq!(choose_noise(&m), NoiseFunction::Magnet);
    let mut i = NoiseControls::default().set_noise_function(NoiseFunctionName::Image);
    i.update(NoiseMessage::ImgColorMap(ColorMap::YellowBlue));
    assert_eq!(choose_noise(&i), NoiseFunction::Image(ColorMap::YellowBlue));
}

#[test]
fn set_seed_only_reaches_seedable_families() {
    let fractal = Fractal { octaves: 2, frequency: 1_000_000, seed: 0 };
    let seeded = Fractal { octaves: 2, frequency: 1_000_000, seed: 41 };
    assert_eq!(NoiseFunction::Fbm(fractal).set_seed(41), NoiseFunction::Fbm(seeded));
    assert_eq!(NoiseFunction::Ridged(fractal).set_seed(41), NoiseFunction::Ridged(seeded));
    assert_eq!(NoiseFunction::Value(0).set_seed(41), NoiseFunction::Value(41));
    assert_eq!(
        NoiseFunction::Cylinders(500_000).set_seed(41),
        NoiseFunction::Cylinders(500_000)
    );
    assert_eq!(
        NoiseFunction::SinFbm(Sin { source: fractal }).set_seed(41),
        NoiseFunction::SinFbm(Sin { source: fractal })
    );
    assert_eq!(
        NoiseFunction::Image(ColorMap::Lightness).set_seed(41),
        NoiseFunction::Image(ColorMap::Lightness)
    );
    assert_eq!(NoiseFunction::Magnet.set_seed(41), NoiseFunction::Magnet);
    assert!(NoiseFunction::Fbm(fractal).reseedable());
    assert!(!NoiseFunction::Magnet.reseedable());
    assert!(!NoiseFunction::Sinusoidal(Sinusoidal::default()).reseedable());
}

#[test]
fn constructors_carry_their_fields() {
    let c = NoiseControls::new(
        Some(NoiseFunctionName::Ridged),
        70_000_000,
        2_000_000,
        3_000_000,
        5,
        4_000_000,
        1_500_000,
        2_500_000,
        "tex.png".to_string(),
        Some(ColorMap::RedGreen),
        true,
    );
    assert_eq!(c.function, Some(NoiseFunctionName::Ridged));
    assert_eq!(c.factor, 70_000_000);
    assert_eq!(c.octaves, 5);
    assert_eq!(c.img_noise_path, "tex.png");
    assert!(c.dirty);
    assert_eq!(Sinusoidal::new(2_000_000, 3_000_000), Sinusoidal { x_freq: 2_000_000, y_freq: 3_000_000 });
    assert_eq!(Sinusoidal::default(), Sinusoidal { x_freq: 1_000_000, y_freq: 1_000_000 });
    let f = Fractal { octaves: 1, frequency: 1_000_000, seed: 0 };
    assert_eq!(Sin::new(f), Sin { source: f });
}

#[test]
fn names_of_kinds_and_coordinate_systems() {
    assert_eq!(NoiseFunctionName::Fbm.name(), "Fbm");
    assert_eq!(NoiseFunctionName::Magnet.name(), "Magnet");
    assert_eq!(NoiseFunctionName::SinFbm.name(), "SinFbm");
    assert_eq!(NoiseFunctionName::Image.name(), "Image");
    assert_eq!(Coordinates::Polar.name(), "Polar");
    assert_eq!(Coordinates::Absolute.name(), "Absolute");
}

#[test]
fn default_controls() {
    let c = Controls::default();
    assert_eq!(c.img_path, "");
    assert_eq!(c.theta_noise.factor, 500_000_000);
    assert_eq!(c.radius_noise.factor, 1_000_000_000);
    assert_eq!(c.hue_rotation, 0);
    assert_eq!(c.coordinates, Some(Coordinates::Cartesian));
    assert!(!c.exporting);
    assert_eq!(c.export_width, "inches / pixels");
    assert_eq!(c.export_height, "inches / pixels");
    assert!(c.sync);
    assert!(!c.warp_twice);
}

#[test]
fn controls_update_redraw_messages() {
    let mut c = Controls::default();
    assert_eq!(c.update(Message::HueRotation(90_000_000)), Action::Redraw);
    assert_eq!(c.hue_rotation, 90_000_000);
    assert_eq!(c.update(Message::CoordinatesMessage(Coordinates::Polar)), Action::Redraw);
    assert_eq!(c.coordinates, Some(Coordinates::Polar));
    assert_eq!(c.update(Message::Sync(false)), Action::Redraw);
    assert!(!c.sync);
    assert_eq!(c.update(Message::WarpTwice(true)), Action::Redraw);
    assert!(c.warp_twice);
    assert_eq!(c.update(Message::Null), Action::Nothing);
}

#[test]
fn controls_update_channel_messages() {
    let mut c = Controls::default();
    assert_eq!(c.update(Message::Angle(NoiseMessage::Factor(60_000_000))), Action::Redraw);
    assert_eq!(c.theta_noise.factor, 60_000_000);
    assert_eq!(
        c.update(Message::Radius(NoiseMessage::ImgNoisePathSet("a.png".to_string()))),
        Action::Nothing
    );
    assert_eq!(c.radius_noise.img_noise_path, "a.png");
    assert_eq!(
        c.update(Message::Angle(NoiseMessage::ImgNoisePath)),
        Action::ReloadAngleImage
    );
    assert_eq!(
        c.update(Message::Radius(NoiseMessage::ImgNoisePath)),
        Action::ReloadRadiusImage
    );
}

#[test]
fn controls_update_export_and_paths() {
    let mut c = Controls::default();
    assert_eq!(c.update(Message::WidthSet("2".to_string())), Action::Nothing);
    assert_eq!(c.update(Message::HeightSet("3".to_string())), Action::Nothing);
    assert_eq!(c.export_width, "2");
    assert_eq!(c.export_height, "3");
    assert_eq!(c.update(Message::Export), Action::StartExport);
    assert!(c.exporting);
    assert_eq!(c.update(Message::ExportComplete), Action::Nothing);
    assert!(!c.exporting);
    assert_eq!(c.update(Message::PathSet("img.jpg".to_string())), Action::Nothing);
    assert_eq!(c.img_path, "img.jpg");
    assert_eq!(c.update(Message::ImgPath), Action::ReloadSourceImage);
}
