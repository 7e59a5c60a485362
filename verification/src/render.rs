//! Planning of a render: from a configuration snapshot to the exact warp
//! passes to run.
//!
//! A render is one or two warp passes over the source raster.  Each pass
//! samples two noise channels — angle/X and radius/Y — through per-channel
//! [`NoiseOpts`], displaces every destination pixel according to the selected
//! coordinate system, and samples its source there.  [`plan_render`] pins
//! down everything the pass construction decides: which generator each
//! channel uses, how the synced second channel is derived (including the
//! thirty-fold radius factor in polar mode and the forced red-green colour
//! map over image noise), the fixed seed given to an independent second
//! channel, and that enabling warp-twice appends exactly one more pass that
//! re-evaluates the same two channels at the destination coordinates under
//! Cartesian mapping, sourcing the first pass's output.

use vstd::prelude::*;

verus! {

use crate::controls::Controls;
use crate::controls::Coordinates;
use crate::noise::ColorMap;
use crate::noise::NoiseControls;
use crate::noise::NoiseFunction;
use crate::noise::NoiseFunctionName;
use crate::noise::spec_choose_noise;
use crate::noise::spec_set_seed;
use crate::noise::choose_noise;

/// The seed forced onto an independently configured second channel, so that
/// two channels with identical settings still decorrelate.
pub const RADIUS_CHANNEL_SEED: u32 = 98713;

/// Factor bound accepted by the planner: one thousand million units, in
/// millionths.  Keeps the thirty-fold polar radius factor inside `i64`.
pub const MAX_FACTOR_MICROS: i64 = 1_000_000_000_000_000;

/// How raw field output is mapped into coordinate offsets: canvas extent,
/// amplitude factor, and input coordinate scales (in millionths).  The
/// sampled input is `(x_scale * x / width, y_scale * y / height)` and the
/// field's value is multiplied by `factor`.
#[derive(Clone, Copy, Debug, PartialEq, Eq, Structural, Hash)]
pub struct NoiseOpts {
    pub width: u32,
    pub height: u32,
    pub factor: i64,
    pub x_scale: i64,
    pub y_scale: i64,
}

impl NoiseOpts {
    /// Options for a canvas of the given extent, with factor and both
    /// scales 1.
    pub fn with_wh(width: u32, height: u32) -> (o: Self)
        ensures
            o == (NoiseOpts {
                width,
                height,
                factor: 1_000_000,
                x_scale: 1_000_000,
                y_scale: 1_000_000,
            }),
    {
        NoiseOpts { width, height, factor: 1_000_000, x_scale: 1_000_000, y_scale: 1_000_000 }
    }

    /// The same options with the amplitude factor replaced.
    pub fn factor(self, factor: i64) -> (o: Self)
        ensures
            o == (NoiseOpts { factor, ..self }),
    {
        NoiseOpts { factor, ..self }
    }

    /// The same options with the x input scale replaced.
    pub fn x_scale(self, x_scale: i64) -> (o: Self)
        ensures
            o == (NoiseOpts { x_scale, ..self }),
    {
        NoiseOpts { x_scale, ..self }
    }

    /// The same options with the y input scale replaced.
    pub fn y_scale(self, y_scale: i64) -> (o: Self)
        ensures
            o == (NoiseOpts { y_scale, ..self }),
    {
        NoiseOpts { y_scale, ..self }
    }
}

/// One warp pass: the two noise channels driving the displacement, their
/// option sets, and the coordinate system reading them.
#[derive(Clone, Copy, Debug, PartialEq, Eq, Structural, Hash)]
pub struct WarpPass {
    pub theta: NoiseFunction,
    pub theta_opts: NoiseOpts,
    pub radius: NoiseFunction,
    pub radius_opts: NoiseOpts,
    pub coordinates: Coordinates,
}

/// A planned render: the warp passes to chain, first pass first — each later
/// pass samples the output of the one before it — and the hue rotation (in
/// millionths of a degree) applied to every sampled colour afterwards.
#[derive(Clone, Debug)]
pub struct RenderPlan {
    pub passes: Vec<WarpPass>,
    pub hue_rotation: i64,
}

/// The option set a channel snapshot asks for on the given canvas.
pub open spec fn spec_noise_opts(c: NoiseControls, width: u32, height: u32) -> NoiseOpts {
    NoiseOpts { width, height, factor: c.factor, x_scale: c.scale_x, y_scale: c.scale_y }
}

/// The second channel of a synced render: the first channel's settings with
/// the colour map forced to red-green, so that image-driven channels still
/// decorrelate.
pub open spec fn spec_sync_radius_controls(c: NoiseControls) -> NoiseControls {
    NoiseControls { img_color_map: Some(ColorMap::RedGreen), ..c }
}

/// The option set of the second channel: under sync, the first channel's
/// options — with the factor grown thirty-fold in polar mode, where radius
/// variation must be scaled up to read against angle variation — and
/// otherwise the second channel's own options.
pub open spec fn spec_radius_opts(c: Controls, width: u32, height: u32) -> NoiseOpts {
    let theta_opts = spec_noise_opts(c.theta_noise, width, height);
    if c.sync {
        if c.coordinates == Some(Coordinates::Polar) {
            NoiseOpts { factor: (30 * theta_opts.factor) as i64, ..theta_opts }
        } else {
            theta_opts
        }
    } else {
        spec_noise_opts(c.radius_noise, width, height)
    }
}

/// The generator of the second channel: under sync, the generator of the
/// derived controls of [`spec_sync_radius_controls`]; otherwise the second
/// channel's own generator, reseeded with [`RADIUS_CHANNEL_SEED`].
pub open spec fn spec_radius_noise(c: Controls) -> NoiseFunction {
    if c.sync {
        spec_choose_noise(spec_sync_radius_controls(c.theta_noise))
    } else {
        spec_set_seed(spec_choose_noise(c.radius_noise), RADIUS_CHANNEL_SEED)
    }
}

/// The first (base) warp pass of a render.
pub open spec fn spec_base_pass(c: Controls, width: u32, height: u32) -> WarpPass {
    WarpPass {
        theta: spec_choose_noise(c.theta_noise),
        theta_opts: spec_noise_opts(c.theta_noise, width, height),
        radius: spec_radius_noise(c),
        radius_opts: spec_radius_opts(c, width, height),
        coordinates: c.coordinates->Some_0,
    }
}

/// What the planner needs of a snapshot: a selected coordinate system, a
/// selected generator (with a colour map where it samples an image) on every
/// channel a pass will read, and — only where the synced polar pass grows
/// the factor thirty-fold — a first-channel factor small enough for that
/// scaling.
pub open spec fn spec_plannable(c: Controls) -> bool {
    &&& c.coordinates is Some
    &&& c.theta_noise.function is Some
    &&& c.theta_noise.function == Some(NoiseFunctionName::Image)
        ==> c.theta_noise.img_color_map is Some
    &&& (c.sync && c.coordinates == Some(Coordinates::Polar))
        ==> -MAX_FACTOR_MICROS <= c.theta_noise.factor <= MAX_FACTOR_MICROS
    &&& !c.sync ==> {
        &&& c.radius_noise.function is Some
        &&& c.radius_noise.function == Some(NoiseFunctionName::Image)
            ==> c.radius_noise.img_color_map is Some
    }
}

/// Everything a plan decides, pinned to the snapshot and the canvas: the
/// hue rotation carried over; one pass, or two when warp-twice is enabled;
/// the first pass exactly [`spec_base_pass`]; and the second pass — the
/// chained warp over the first pass's output — the very same channels and
/// options read as Cartesian offsets at the destination coordinates.
pub open spec fn is_plan_for(plan: RenderPlan, c: Controls, width: u32, height: u32) -> bool {
    &&& plan.hue_rotation == c.hue_rotation
    &&& plan.passes@.len() == (if c.warp_twice { 2int } else { 1int })
    &&& plan.passes@[0] == spec_base_pass(c, width, height)
    &&& (c.warp_twice ==> plan.passes@[1] == (WarpPass {
        coordinates: Coordinates::Cartesian,
        ..spec_base_pass(c, width, height)
    }))
}

/// The plan is a function of the snapshot and canvas alone: two plans for
/// the same render agree pass for pass, so what is rendered cannot depend
/// on anything but the configuration.
pub proof fn lemma_plan_deterministic(
    p1: RenderPlan,
    p2: RenderPlan,
    c: Controls,
    width: u32,
    height: u32,
)
    requires
        is_plan_for(p1, c, width, height),
        is_plan_for(p2, c, width, height),
    ensures
        p1.passes@ == p2.passes@,
        p1.hue_rotation == p2.hue_rotation,
{
    assert(p1.passes@ =~= p2.passes@);
}

/// Plan the warp passes for a canvas of the given extent.
///
/// The plan holds one pass, or two when warp-twice is enabled; the second
/// pass re-evaluates the very same channels at the destination coordinates,
/// read as Cartesian offsets, over the first pass's output.
pub fn plan_render(controls: &Controls, width: u32, height: u32) -> (plan: RenderPlan)
    requires
        spec_plannable(*controls),
    ensures
        is_plan_for(plan, *controls, width, height),
{
    let theta = choose_noise(&controls.theta_noise);
    let theta_opts = NoiseOpts::with_wh(width, height)
        .factor(controls.theta_noise.factor)
        .y_scale(controls.theta_noise.scale_y)
        .x_scale(controls.theta_noise.scale_x);

    let radius_opts = if controls.sync {
        if controls.coordinates == Some(Coordinates::Polar) {
            theta_opts.factor(30 * controls.theta_noise.factor)
        } else {
            theta_opts
        }
    } else {
        NoiseOpts::with_wh(width, height)
            .factor(controls.radius_noise.factor)
            .y_scale(controls.radius_noise.scale_y)
            .x_scale(controls.radius_noise.scale_x)
    };

    let radius = if controls.sync {
        match theta {
            NoiseFunction::Image(_) => NoiseFunction::Image(ColorMap::RedGreen),
            other => other,
        }
    } else {
        choose_noise(&controls.radius_noise).set_seed(RADIUS_CHANNEL_SEED)
    };

    let coordinates = controls.coordinates.unwrap();
    let base = WarpPass { theta, theta_opts, radius, radius_opts, coordinates };

    let mut passes: Vec<WarpPass> = Vec::new();
    passes.push(base);
    if controls.warp_twice {
        passes.push(WarpPass { coordinates: Coordinates::Cartesian, ..base });
    }
    RenderPlan { passes, hue_rotation: controls.hue_rotation }
}

} // verus!
