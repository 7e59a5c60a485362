//! Noise-channel configuration and generator selection.
//!
//! A noise channel is described by [`NoiseControls`]: which generator family
//! to use, its amplitude factor, input coordinate scales, octave count,
//! frequency, sinusoidal frequencies, and — for image-sampled noise — the
//! source path and colour map.  Edits arrive as [`NoiseMessage`] values and
//! are applied by [`NoiseControls::update`].
//!
//! [`choose_noise`] turns a snapshot of the controls into a [`NoiseFunction`]:
//! an exact description of the concrete generator to build.  Evaluating a
//! generator is floating-point work done by the surrounding application; this
//! module pins down which generator is built, with which parameters, and
//! which generator families respond to reseeding.

use vstd::prelude::*;

verus! {

use crate::fixed::MICROS_PER_UNIT;

/// How a sampled image pixel is reduced to a scalar noise value.
#[derive(Clone, Copy, Debug, PartialEq, Eq, Structural, Hash)]
pub enum ColorMap {
    Lightness,
    RedGreen,
    YellowBlue,
}

/// The selectable noise generator families.
#[derive(Clone, Copy, Debug, PartialEq, Eq, Structural, Hash)]
pub enum NoiseFunctionName {
    Fbm,
    Billow,
    Ridged,
    Value,
    Cylinders,
    Curl,
    Magnet,
    Sinusoidal,
    SinFbm,
    Image,
}

impl NoiseFunctionName {
    /// The display label of the family.
    pub fn name(&self) -> (s: String)
        ensures
            s@ == self.spec_name(),
    {
        match self {
            NoiseFunctionName::Fbm => "Fbm".to_owned(),
            NoiseFunctionName::Billow => "Billow".to_owned(),
            NoiseFunctionName::Ridged => "Ridged".to_owned(),
            NoiseFunctionName::Value => "Value".to_owned(),
            NoiseFunctionName::Cylinders => "Cylinders".to_owned(),
            NoiseFunctionName::Curl => "Curl".to_owned(),
            NoiseFunctionName::Magnet => "Magnet".to_owned(),
            NoiseFunctionName::Sinusoidal => "Sinusoidal".to_owned(),
            NoiseFunctionName::SinFbm => "SinFbm".to_owned(),
            NoiseFunctionName::Image => "Image".to_owned(),
        }
    }

    /// The display label of the family, as a sequence of characters.
    pub open spec fn spec_name(&self) -> Seq<char> {
        match self {
            NoiseFunctionName::Fbm => "Fbm"@,
            NoiseFunctionName::Billow => "Billow"@,
            NoiseFunctionName::Ridged => "Ridged"@,
            NoiseFunctionName::Value => "Value"@,
            NoiseFunctionName::Cylinders => "Cylinders"@,
            NoiseFunctionName::Curl => "Curl"@,
            NoiseFunctionName::Magnet => "Magnet"@,
            NoiseFunctionName::Sinusoidal => "Sinusoidal"@,
            NoiseFunctionName::SinFbm => "SinFbm"@,
            NoiseFunctionName::Image => "Image"@,
        }
    }
}

/// One edit of a noise channel.  Fractional payloads are in millionths.
#[derive(Clone, Debug)]
pub enum NoiseMessage {
    Function(NoiseFunctionName),
    Factor(i64),
    ScaleX(i64),
    ScaleY(i64),
    Octaves(i32),
    Frequency(i64),
    SinXFreq(i64),
    SinYFreq(i64),
    ImgNoisePathSet(String),
    ImgNoisePath,
    ImgColorMap(ColorMap),
    Null,
}

/// The configuration of one noise channel.  Fractional fields are in
/// millionths of a unit.  The raster behind image-sampled noise is owned by
/// the application; this snapshot carries only its path and colour map.
#[derive(Clone, Debug)]
pub struct NoiseControls {
    pub function: Option<NoiseFunctionName>,
    pub factor: i64,
    pub scale_x: i64,
    pub scale_y: i64,
    pub octaves: i32,
    pub frequency: i64,
    pub sin_x_freq: i64,
    pub sin_y_freq: i64,
    pub img_noise_path: String,
    pub img_color_map: Option<ColorMap>,
    pub dirty: bool,
}

/// The startup configuration of a channel, at the given amplitude factor:
/// fractal Brownian motion, both coordinate scales 8, one octave, all
/// frequencies 1, an empty image path, lightness colour map, nothing pending.
pub open spec fn is_default_noise_controls_with_factor(c: NoiseControls, factor: int) -> bool {
    &&& c.function == Some(NoiseFunctionName::Fbm)
    &&& c.factor == factor
    &&& c.scale_x == 8_000_000int
    &&& c.scale_y == 8_000_000int
    &&& c.octaves == 1int
    &&& c.frequency == 1_000_000int
    &&& c.sin_x_freq == 1_000_000int
    &&& c.sin_y_freq == 1_000_000int
    &&& c.img_noise_path@ == Seq::<char>::empty()
    &&& c.img_color_map == Some(ColorMap::Lightness)
    &&& c.dirty == false
}

/// The startup configuration of a channel: the defaults at factor 50.
pub open spec fn is_default_noise_controls(c: NoiseControls) -> bool {
    is_default_noise_controls_with_factor(c, 50_000_000)
}

impl Default for NoiseControls {
    fn default() -> (c: Self)
        ensures
            is_default_noise_controls(c),
    {
        NoiseControls {
            function: Some(NoiseFunctionName::Fbm),
            factor: 50_000_000,
            scale_x: 8_000_000,
            scale_y: 8_000_000,
            octaves: 1,
            frequency: 1_000_000,
            sin_x_freq: 1_000_000,
            sin_y_freq: 1_000_000,
            img_noise_path: String::new(),
            img_color_map: Some(ColorMap::Lightness),
            dirty: false,
        }
    }
}

/// The state of a channel after applying one edit message.
///
/// Every edit marks the channel dirty — in need of a redraw — except
/// `ImgNoisePathSet`, which only records the typed path.  Selecting the
/// image generator resets both coordinate scales to 1, since image sampling
/// uses raster coordinates directly.  `ImgNoisePath` asks the application to
/// reload the raster at the recorded path; the snapshot itself is unchanged
/// apart from the dirty mark.
pub open spec fn spec_noise_update(c: NoiseControls, m: NoiseMessage) -> NoiseControls {
    let d = NoiseControls { dirty: true, ..c };
    match m {
        NoiseMessage::Function(n) => if n == NoiseFunctionName::Image {
            NoiseControls {
                function: Some(n),
                scale_x: 1_000_000,
                scale_y: 1_000_000,
                ..d
            }
        } else {
            NoiseControls { function: Some(n), ..d }
        },
        NoiseMessage::Factor(f) => NoiseControls { factor: f, ..d },
        NoiseMessage::ScaleX(s) => NoiseControls { scale_x: s, ..d },
        NoiseMessage::ScaleY(s) => NoiseControls { scale_y: s, ..d },
        NoiseMessage::Octaves(o) => NoiseControls { octaves: o, ..d },
        NoiseMessage::Frequency(f) => NoiseControls { frequency: f, ..d },
        NoiseMessage::SinXFreq(f) => NoiseControls { sin_x_freq: f, ..d },
        NoiseMessage::SinYFreq(f) => NoiseControls { sin_y_freq: f, ..d },
        NoiseMessage::ImgNoisePathSet(p) => NoiseControls {
            img_noise_path: p,
            dirty: false,
            ..c
        },
        NoiseMessage::ImgNoisePath => d,
        NoiseMessage::ImgColorMap(cm) => NoiseControls { img_color_map: Some(cm), ..d },
        NoiseMessage::Null => d,
    }
}

impl NoiseControls {
    #[allow(clippy::too_many_arguments)]
    pub fn new(
        function: Option<NoiseFunctionName>,
        factor: i64,
        scale_x: i64,
        scale_y: i64,
        octaves: i32,
        frequency: i64,
        sin_x_freq: i64,
        sin_y_freq: i64,
        img_noise_path: String,
        img_color_map: Option<ColorMap>,
        dirty: bool,
    ) -> (c: Self)
        ensures
            c == (NoiseControls {
                function,
                factor,
                scale_x,
                scale_y,
                octaves,
                frequency,
                sin_x_freq,
                sin_y_freq,
                img_noise_path,
                img_color_map,
                dirty,
            }),
    {
        NoiseControls {
            function,
            factor,
            scale_x,
            scale_y,
            octaves,
            frequency,
            sin_x_freq,
            sin_y_freq,
            img_noise_path,
            img_color_map,
            dirty,
        }
    }

    pub fn set_noise_function(self, noise_function: NoiseFunctionName) -> (c: Self)
        ensures
            c == (NoiseControls { function: Some(noise_function), ..self }),
    {
        NoiseControls { function: Some(noise_function), ..self }
    }

    pub fn set_noise_factor(self, noise_factor: i64) -> (c: Self)
        ensures
            c == (NoiseControls { factor: noise_factor, ..self }),
    {
        NoiseControls { factor: noise_factor, ..self }
    }

    pub fn set_noise_scale_x(self, noise_scale: i64) -> (c: Self)
        ensures
            c == (NoiseControls { scale_x: noise_scale, ..self }),
    {
        NoiseControls { scale_x: noise_scale, ..self }
    }

    pub fn set_noise_scale_y(self, noise_scale: i64) -> (c: Self)
        ensures
            c == (NoiseControls { scale_y: noise_scale, ..self }),
    {
        NoiseControls { scale_y: noise_scale, ..self }
    }

    pub fn set_ocataves(self, octaves: i32) -> (c: Self)
        ensures
            c == (NoiseControls { octaves, ..self }),
    {
        NoiseControls { octaves, ..self }
    }

    pub fn set_frequency(self, frequency: i64) -> (c: Self)
        ensures
            c == (NoiseControls { frequency, ..self }),
    {
        NoiseControls { frequency, ..self }
    }

    pub fn set_sin_x_freq(self, sin_x_freq: i64) -> (c: Self)
        ensures
            c == (NoiseControls { sin_x_freq, ..self }),
    {
        NoiseControls { sin_x_freq, ..self }
    }

    pub fn set_sin_y_freq(self, sin_y_freq: i64) -> (c: Self)
        ensures
            c == (NoiseControls { sin_y_freq, ..self }),
    {
        NoiseControls { sin_y_freq, ..self }
    }

    pub fn set_img_noise_path(self, img_noise_path: String) -> (c: Self)
        ensures
            c == (NoiseControls { img_noise_path, ..self }),
    {
        NoiseControls { img_noise_path, ..self }
    }

    /// Apply one edit message to this channel.
    pub fn update(&mut self, message: NoiseMessage)
        ensures
            *final(self) == spec_noise_update(*old(self), message),
    {
        self.dirty = true;
        match message {
            NoiseMessage::Function(n) => {
                self.function = Some(n);
                if n == NoiseFunctionName::Image {
                    self.scale_x = MICROS_PER_UNIT;
                    self.scale_y = MICROS_PER_UNIT;
                }
            },
            NoiseMessage::Factor(f) => {
                self.factor = f;
            },
            NoiseMessage::ScaleX(s) => {
                self.scale_x = s;
            },
            NoiseMessage::ScaleY(s) => {
                self.scale_y = s;
            },
            NoiseMessage::Octaves(octaves) => {
                self.octaves = octaves;
            },
            NoiseMessage::Frequency(frequency) => {
                self.frequency = frequency;
            },
            NoiseMessage::SinXFreq(sin_x_freq) => {
                self.sin_x_freq = sin_x_freq;
            },
            NoiseMessage::SinYFreq(sin_y_freq) => {
                self.sin_y_freq = sin_y_freq;
            },
            NoiseMessage::ImgNoisePathSet(img_noise_path) => {
                self.img_noise_path = img_noise_path;
                self.dirty = false;
            },
            NoiseMessage::ImgNoisePath => {},
            NoiseMessage::ImgColorMap(cm) => {
                self.img_color_map = Some(cm);
            },
            NoiseMessage::Null => {},
        }
    }
}

/// Parameters of a layered-octave (fractal) generator: octave count,
/// base frequency in millionths, and the seed of its permutation tables.
#[derive(Clone, Copy, Debug, PartialEq, Eq, Structural, Hash)]
pub struct Fractal {
    pub octaves: i32,
    pub frequency: i64,
    pub seed: u32,
}

/// Parameters of the sinusoidal field `0.5 * (sin(x_freq * x) + sin(y_freq * y))`.
/// Frequencies are in millionths.
#[derive(Clone, Copy, Debug, PartialEq, Eq, Structural, Hash)]
pub struct Sinusoidal {
    pub x_freq: i64,
    pub y_freq: i64,
}

impl Default for Sinusoidal {
    /// Both frequencies 1.
    fn default() -> (s: Self)
        ensures
            s == (Sinusoidal { x_freq: 1_000_000, y_freq: 1_000_000 }),
    {
        Sinusoidal { x_freq: 1_000_000, y_freq: 1_000_000 }
    }
}

impl Sinusoidal {
    pub fn new(x_freq: i64, y_freq: i64) -> (s: Self)
        ensures
            s == (Sinusoidal { x_freq, y_freq }),
    {
        Sinusoidal { x_freq, y_freq }
    }
}

/// A sine decorator over another field: evaluates the source, then applies
/// `sin(value * pi)` to its output.
#[derive(Clone, Copy, Debug, PartialEq, Eq, Structural, Hash)]
pub struct Sin<Source> {
    pub source: Source,
}

impl<Source> Sin<Source> {
    pub fn new(source: Source) -> (s: Self)
        ensures
            s == (Sin { source }),
    {
        Sin { source }
    }
}

/// An exact description of one concrete noise generator.
///
/// The fractal families carry their layering parameters; `Value` carries only
/// a seed; `Cylinders` carries its band frequency in millionths; `Curl`
/// domain-warps a fractal source; `Magnet` reads the angle to the nearest
/// of four fixed attractor points, a non-stochastic distance field with no
/// parameters; `SinFbm` is the sine decorator over a fractal source;
/// `Image` samples the channel's raster through a colour map.
#[derive(Clone, Copy, Debug, PartialEq, Eq, Structural, Hash)]
pub enum NoiseFunction {
    Fbm(Fractal),
    Billow(Fractal),
    Ridged(Fractal),
    Value(u32),
    Cylinders(i64),
    Curl(Fractal),
    Magnet,
    Sinusoidal(Sinusoidal),
    SinFbm(Sin<Fractal>),
    Image(ColorMap),
}

/// Whether the generator family keeps its own seedable permutation tables.
/// Cylinders, the sinusoidal fields and image sampling have no meaningful
/// seed; the sine decorator deliberately leaves its source's seed alone.
pub open spec fn spec_reseedable(f: NoiseFunction) -> bool {
    match f {
        NoiseFunction::Fbm(_) => true,
        NoiseFunction::Billow(_) => true,
        NoiseFunction::Ridged(_) => true,
        NoiseFunction::Value(_) => true,
        NoiseFunction::Curl(_) => true,
        NoiseFunction::Cylinders(_) => false,
        NoiseFunction::Magnet => false,
        NoiseFunction::Sinusoidal(_) => false,
        NoiseFunction::SinFbm(_) => false,
        NoiseFunction::Image(_) => false,
    }
}

/// The generator with its seed replaced, for the families that keep one;
/// the others are returned unchanged.
pub open spec fn spec_set_seed(f: NoiseFunction, seed: u32) -> NoiseFunction {
    match f {
        NoiseFunction::Fbm(p) => NoiseFunction::Fbm(Fractal { seed, ..p }),
        NoiseFunction::Billow(p) => NoiseFunction::Billow(Fractal { seed, ..p }),
        NoiseFunction::Ridged(p) => NoiseFunction::Ridged(Fractal { seed, ..p }),
        NoiseFunction::Value(_) => NoiseFunction::Value(seed),
        NoiseFunction::Curl(p) => NoiseFunction::Curl(Fractal { seed, ..p }),
        _ => f,
    }
}

impl NoiseFunction {
    /// Whether this generator responds to [`NoiseFunction::set_seed`].
    pub fn reseedable(&self) -> (r: bool)
        ensures
            r == spec_reseedable(*self),
    {
        match self {
            NoiseFunction::Fbm(_) => true,
            NoiseFunction::Billow(_) => true,
            NoiseFunction::Ridged(_) => true,
            NoiseFunction::Value(_) => true,
            NoiseFunction::Curl(_) => true,
            NoiseFunction::Cylinders(_) => false,
            NoiseFunction::Magnet => false,
            NoiseFunction::Sinusoidal(_) => false,
            NoiseFunction::SinFbm(_) => false,
            NoiseFunction::Image(_) => false,
        }
    }

    /// Replace the generator's seed where the family keeps one; leave the
    /// seedless families untouched.
    pub fn set_seed(self, seed: u32) -> (r: Self)
        ensures
            r == spec_set_seed(self, seed),
            !spec_reseedable(self) ==> r == self,
    {
        match self {
            NoiseFunction::Fbm(p) => NoiseFunction::Fbm(Fractal { seed, ..p }),
            NoiseFunction::Billow(p) => NoiseFunction::Billow(Fractal { seed, ..p }),
            NoiseFunction::Ridged(p) => NoiseFunction::Ridged(Fractal { seed, ..p }),
            NoiseFunction::Value(_) => NoiseFunction::Value(seed),
            NoiseFunction::Curl(p) => NoiseFunction::Curl(Fractal { seed, ..p }),
            other => other,
        }
    }
}

/// The generator a channel snapshot selects.
///
/// The fractal families take the snapshot's octave count and frequency with
/// a fresh (zero) seed.  The cylinder field's band frequency is half the
/// octave count.  The sinusoidal field takes the two sine frequencies.  The
/// image field takes the snapshot's colour map.
pub open spec fn spec_choose_noise(c: NoiseControls) -> NoiseFunction
    recommends
        c.function is Some,
{
    let fractal = Fractal { octaves: c.octaves, frequency: c.frequency, seed: 0 };
    match c.function->Some_0 {
        NoiseFunctionName::Fbm => NoiseFunction::Fbm(fractal),
        NoiseFunctionName::Billow => NoiseFunction::Billow(fractal),
        NoiseFunctionName::Ridged => NoiseFunction::Ridged(fractal),
        NoiseFunctionName::Value => NoiseFunction::Value(0),
        NoiseFunctionName::Cylinders => NoiseFunction::Cylinders((c.octaves * 500_000) as i64),
        NoiseFunctionName::Curl => NoiseFunction::Curl(fractal),
        NoiseFunctionName::Magnet => NoiseFunction::Magnet,
        NoiseFunctionName::Sinusoidal => NoiseFunction::Sinusoidal(
            Sinusoidal { x_freq: c.sin_x_freq, y_freq: c.sin_y_freq },
        ),
        NoiseFunctionName::SinFbm => NoiseFunction::SinFbm(Sin { source: fractal }),
        NoiseFunctionName::Image => NoiseFunction::Image(c.img_color_map->Some_0),
    }
}

/// Select the concrete generator described by a channel snapshot.
///
/// A snapshot without a selected function is a programming error, ruled out
/// before any render starts; image noise always carries a colour map.
pub fn choose_noise(controls: &NoiseControls) -> (f: NoiseFunction)
    requires
        controls.function is Some,
        controls.function == Some(NoiseFunctionName::Image) ==> controls.img_color_map is Some,
    ensures
        f == spec_choose_noise(*controls),
{
    let fractal = Fractal { octaves: controls.octaves, frequency: controls.frequency, seed: 0 };
    match controls.function.unwrap() {
        NoiseFunctionName::Fbm => NoiseFunction::Fbm(fractal),
        NoiseFunctionName::Billow => NoiseFunction::Billow(fractal),
        NoiseFunctionName::Ridged => NoiseFunction::Ridged(fractal),
        NoiseFunctionName::Value => NoiseFunction::Value(0),
        NoiseFunctionName::Cylinders => NoiseFunction::Cylinders(controls.octaves as i64 * 500_000),
        NoiseFunctionName::Curl => NoiseFunction::Curl(fractal),
        NoiseFunctionName::Magnet => NoiseFunction::Magnet,
        NoiseFunctionName::Sinusoidal => NoiseFunction::Sinusoidal(
            Sinusoidal { x_freq: controls.sin_x_freq, y_freq: controls.sin_y_freq },
        ),
        NoiseFunctionName::SinFbm => NoiseFunction::SinFbm(Sin { source: fractal }),
        NoiseFunctionName::Image => NoiseFunction::Image(controls.img_color_map.unwrap()),
    }
}

} // verus!
