//! The top-level configuration snapshot and its edit state machine.
//!
//! [`Controls`] aggregates the two noise channels, the coordinate system,
//! the hue rotation, the export settings and the two feature toggles.  The
//! surrounding shell feeds edits in as [`Message`] values; [`Controls::update`]
//! applies each one and answers with an [`Action`] telling the shell what
//! follow-up work — a redraw, an image reload, an export — the edit calls for.

use vstd::prelude::*;

verus! {

use crate::noise::NoiseControls;
use crate::noise::NoiseMessage;
use crate::noise::is_default_noise_controls_with_factor;
use crate::noise::spec_noise_update;

/// How the two noise-channel outputs are read as a displacement.
///
/// `Polar` feeds the first channel through as an angle and the second,
/// normalized, as a radius fraction; `Cartesian` uses the two outputs as
/// independent axis offsets added to the source coordinate; `Absolute` uses
/// them as the remapped coordinate itself.
#[derive(Clone, Copy, Debug, PartialEq, Eq, Structural, Hash)]
pub enum Coordinates {
    Polar,
    Cartesian,
    Absolute,
}

impl Coordinates {
    /// The display label of the coordinate system.
    pub fn name(&self) -> (s: String)
        ensures
            s@ == self.spec_name(),
    {
        match self {
            Coordinates::Polar => "Polar".to_owned(),
            Coordinates::Cartesian => "Cartesian".to_owned(),
            Coordinates::Absolute => "Absolute".to_owned(),
        }
    }

    /// The display label of the coordinate system, as characters.
    pub open spec fn spec_name(&self) -> Seq<char> {
        match self {
            Coordinates::Polar => "Polar"@,
            Coordinates::Cartesian => "Cartesian"@,
            Coordinates::Absolute => "Absolute"@,
        }
    }
}

/// One edit of the top-level configuration.  The hue rotation payload is in
/// millionths of a degree.
#[derive(Clone, Debug)]
pub enum Message {
    Angle(NoiseMessage),
    Radius(NoiseMessage),
    HueRotation(i64),
    Export,
    ExportComplete,
    PathSet(String),
    ImgPath,
    CoordinatesMessage(Coordinates),
    WidthSet(String),
    HeightSet(String),
    Sync(bool),
    WarpTwice(bool),
    Null,
}

/// The follow-up work one edit asks of the surrounding shell.
#[derive(Clone, Copy, Debug, PartialEq, Eq, Structural, Hash)]
pub enum Action {
    /// Nothing to do.
    Nothing,
    /// Re-render the warped image from the current snapshot.
    Redraw,
    /// Reload the first channel's noise raster from its recorded path,
    /// then re-render.
    ReloadAngleImage,
    /// Reload the second channel's noise raster from its recorded path,
    /// then re-render.
    ReloadRadiusImage,
    /// Reload the source raster from `img_path` (falling back to the bundled
    /// default on failure), then re-render.
    ReloadSourceImage,
    /// Resize the last rendered buffer per the export settings and write it
    /// out; `exporting` stays set until `ExportComplete` arrives.
    StartExport,
}

/// The whole configuration read by a render pass.  Fractional fields are in
/// millionths; `hue_rotation` is in millionths of a degree.
#[derive(Clone, Debug)]
pub struct Controls {
    pub img_path: String,
    pub theta_noise: NoiseControls,
    pub radius_noise: NoiseControls,
    pub hue_rotation: i64,
    pub coordinates: Option<Coordinates>,
    pub exporting: bool,
    pub export_width: String,
    pub export_height: String,
    pub sync: bool,
    pub warp_twice: bool,
}

/// The startup configuration: default channels except for the amplitude
/// factors (500 for the first channel, 1000 for the second), no hue rotation,
/// Cartesian coordinates, synced channels, a single warp pass, no export in
/// flight, and export size boxes holding their placeholder text.
pub open spec fn is_default_controls(c: Controls) -> bool {
    &&& c.img_path@ == Seq::<char>::empty()
    &&& is_default_noise_controls_with_factor(c.theta_noise, 500_000_000)
    &&& is_default_noise_controls_with_factor(c.radius_noise, 1_000_000_000)
    &&& c.hue_rotation == 0int
    &&& c.coordinates == Some(Coordinates::Cartesian)
    &&& c.exporting == false
    &&& c.export_width@ == "inches / pixels"@
    &&& c.export_height@ == "inches / pixels"@
    &&& c.sync == true
    &&& c.warp_twice == false
}

impl Default for Controls {
    fn default() -> (c: Self)
        ensures
            is_default_controls(c),
    {
        let theta_noise = NoiseControls::default().set_noise_factor(500_000_000);
        let radius_noise = NoiseControls::default().set_noise_factor(1_000_000_000);
        Controls {
            img_path: String::new(),
            theta_noise,
            radius_noise,
            hue_rotation: 0,
            coordinates: Some(Coordinates::Cartesian),
            exporting: false,
            export_width: "inches / pixels".to_owned(),
            export_height: "inches / pixels".to_owned(),
            sync: true,
            warp_twice: false,
        }
    }
}

/// The configuration after applying one edit message.
pub open spec fn spec_controls_update(c: Controls, m: Message) -> Controls {
    match m {
        Message::Angle(a) => Controls { theta_noise: spec_noise_update(c.theta_noise, a), ..c },
        Message::Radius(r) => Controls { radius_noise: spec_noise_update(c.radius_noise, r), ..c },
        Message::HueRotation(r) => Controls { hue_rotation: r, ..c },
        Message::Export => Controls { exporting: true, ..c },
        Message::ExportComplete => Controls { exporting: false, ..c },
        Message::PathSet(p) => Controls { img_path: p, ..c },
        Message::ImgPath => c,
        Message::CoordinatesMessage(co) => Controls { coordinates: Some(co), ..c },
        Message::WidthSet(w) => Controls { export_width: w, ..c },
        Message::HeightSet(h) => Controls { export_height: h, ..c },
        Message::Sync(b) => Controls { sync: b, ..c },
        Message::WarpTwice(b) => Controls { warp_twice: b, ..c },
        Message::Null => c,
    }
}

/// The follow-up action one edit message asks for.
///
/// A channel edit redraws only when it left the channel dirty; a channel's
/// `ImgNoisePath` submission asks for that channel's raster to be reloaded
/// first.  Setting a path or an export size is recording only.  The other
/// edits redraw at once, `ImgPath` after reloading the source raster, and
/// `Export` hands the last rendered buffer to the export pipeline.
pub open spec fn spec_controls_action(c: Controls, m: Message) -> Action {
    match m {
        Message::Angle(a) => if a is ImgNoisePath {
            Action::ReloadAngleImage
        } else if spec_noise_update(c.theta_noise, a).dirty {
            Action::Redraw
        } else {
            Action::Nothing
        },
        Message::Radius(r) => if r is ImgNoisePath {
            Action::ReloadRadiusImage
        } else if spec_noise_update(c.radius_noise, r).dirty {
            Action::Redraw
        } else {
            Action::Nothing
        },
        Message::HueRotation(_) => Action::Redraw,
        Message::Export => Action::StartExport,
        Message::ExportComplete => Action::Nothing,
        Message::PathSet(_) => Action::Nothing,
        Message::ImgPath => Action::ReloadSourceImage,
        Message::CoordinatesMessage(_) => Action::Redraw,
        Message::WidthSet(_) => Action::Nothing,
        Message::HeightSet(_) => Action::Nothing,
        Message::Sync(_) => Action::Redraw,
        Message::WarpTwice(_) => Action::Redraw,
        Message::Null => Action::Nothing,
    }
}

impl Controls {
    /// Apply one edit message and say what follow-up work it calls for.
    pub fn update(&mut self, message: Message) -> (action: Action)
        ensures
            *final(self) == spec_controls_update(*old(self), message),
            action == spec_controls_action(*old(self), message),
    {
        match message {
            Message::Angle(a) => {
                let reload = matches!(a, NoiseMessage::ImgNoisePath);
                self.theta_noise.update(a);
                if reload {
                    Action::ReloadAngleImage
                } else if self.theta_noise.dirty {
                    Action::Redraw
                } else {
                    Action::Nothing
                }
            },
            Message::Radius(r) => {
                let reload = matches!(r, NoiseMessage::ImgNoisePath);
                self.radius_noise.update(r);
                if reload {
                    Action::ReloadRadiusImage
                } else if self.radius_noise.dirty {
                    Action::Redraw
                } else {
                    Action::Nothing
                }
            },
            Message::HueRotation(r) => {
                self.hue_rotation = r;
                Action::Redraw
            },
            Message::Export => {
                self.exporting = true;
                Action::StartExport
            },
            Message::ExportComplete => {
                self.exporting = false;
                Action::Nothing
            },
            Message::PathSet(p) => {
                self.img_path = p;
                Action::Nothing
            },
            Message::ImgPath => Action::ReloadSourceImage,
            Message::CoordinatesMessage(co) => {
                self.coordinates = Some(co);
                Action::Redraw
            },
            Message::WidthSet(w) => {
                self.export_width = w;
                Action::Nothing
            },
            Message::HeightSet(h) => {
                self.export_height = h;
                Action::Nothing
            },
            Message::Sync(b) => {
                self.sync = b;
                Action::Redraw
            },
            Message::WarpTwice(b) => {
                self.warp_twice = b;
                Action::Redraw
            },
            Message::Null => Action::Nothing,
        }
    }
}

} // verus!
