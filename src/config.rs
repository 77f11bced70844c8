//! The values applied to the camera, and where they come from.
use vstd::prelude::*;

use crate::settings::{CameraSettings, DocumentEntry, entries_accepted, is_key_name, settings_of};

verus! {

/// Field of view used without a configuration: 48 degrees in radians.
pub const DEFAULT_FIELD_OF_VIEW: u32 = 0x3f56_7750;

/// Distance multiplier used without a configuration: 1.
pub const DEFAULT_DISTANCE_MULTIPLIER: u32 = 0x3f80_0000;

/// Near plane used without a configuration: 0.05.
pub const DEFAULT_RENDER_DISTANCE_START: u32 = 0x3d4c_cccd;

/// Far plane used without a configuration: 10000.
pub const DEFAULT_RENDER_DISTANCE_END: u32 = 0x461c_4000;

/// Aspect ratio used without a configuration: 16 / 9.
pub const DEFAULT_ASPECT_RATIO: u32 = 0x3fe3_8e39;

/// The five values written to the camera on every frame.
#[derive(Clone, Copy, Debug, PartialEq, Eq, Structural)]
pub struct CameraConfig {
    /// Field of view, in radians.
    pub field_of_view: u32,
    /// How far the camera is moved back along its forward direction.
    pub distance_multiplier: u32,
    /// Near plane.
    pub render_distance_start: u32,
    /// Far plane.
    pub render_distance_end: u32,
    /// Width over height.
    pub aspect_ratio: u32,
}

/// The configuration in force when there is no usable document.
pub open spec fn default_config() -> CameraConfig {
    CameraConfig {
        field_of_view: DEFAULT_FIELD_OF_VIEW,
        distance_multiplier: DEFAULT_DISTANCE_MULTIPLIER,
        render_distance_start: DEFAULT_RENDER_DISTANCE_START,
        render_distance_end: DEFAULT_RENDER_DISTANCE_END,
        aspect_ratio: DEFAULT_ASPECT_RATIO,
    }
}

/// The configuration that settings give, once their field of view is in
/// radians and their width and height are one ratio.
pub open spec fn config_of(s: CameraSettings, field_of_view_radians: u32, aspect_ratio: u32) -> CameraConfig {
    CameraConfig {
        field_of_view: field_of_view_radians,
        distance_multiplier: s.distance_multiplier,
        render_distance_start: s.render_distance_start,
        render_distance_end: s.render_distance_end,
        aspect_ratio: aspect_ratio,
    }
}

impl Default for CameraConfig {
    fn default() -> (r: CameraConfig)
        ensures
            r == default_config(),
    {
        CameraConfig {
            field_of_view: DEFAULT_FIELD_OF_VIEW,
            distance_multiplier: DEFAULT_DISTANCE_MULTIPLIER,
            render_distance_start: DEFAULT_RENDER_DISTANCE_START,
            render_distance_end: DEFAULT_RENDER_DISTANCE_END,
            aspect_ratio: DEFAULT_ASPECT_RATIO,
        }
    }
}

impl CameraConfig {
    /// The configuration given by `settings`. The field of view in radians
    /// and the ratio of `aspect_width` to `aspect_height` are the two values
    /// the settings hold in another unit; the other three are taken as they
    /// are, without any bound.
    pub fn from_settings(settings: &CameraSettings, field_of_view_radians: u32, aspect_ratio: u32) -> (r: CameraConfig)
        ensures
            r == config_of(*settings, field_of_view_radians, aspect_ratio),
    {
        CameraConfig {
            field_of_view: field_of_view_radians,
            distance_multiplier: settings.distance_multiplier,
            render_distance_start: settings.render_distance_start,
            render_distance_end: settings.render_distance_end,
            aspect_ratio,
        }
    }

    /// The configuration in force: the one that the settings read from the
    /// document give, or the defaults in full when no settings could be read.
    /// `field_of_view_radians` and `aspect_ratio` are those of the settings
    /// read, and are not used without them.
    pub fn from_document(read: Option<CameraSettings>, field_of_view_radians: u32, aspect_ratio: u32) -> (r: CameraConfig)
        ensures
            r == document_config(read, field_of_view_radians, aspect_ratio),
    {
        match read {
            Some(s) => CameraConfig::from_settings(&s, field_of_view_radians, aspect_ratio),
            None => CameraConfig::default(),
        }
    }
}

/// The configuration in force after reading a document.
pub open spec fn document_config(read: Option<CameraSettings>, field_of_view_radians: u32, aspect_ratio: u32) -> CameraConfig {
    match read {
        Some(s) => config_of(s, field_of_view_radians, aspect_ratio),
        None => default_config(),
    }
}

/// A document with an entry whose key is not one of the six is rejected
/// whole: the defaults stay in force in full, however valid the other
/// entries are.
pub proof fn lemma_unknown_key_gives_defaults(
    entries: Seq<DocumentEntry>,
    i: int,
    field_of_view_radians: u32,
    aspect_ratio: u32,
)
    requires
        0 <= i < entries.len(),
        !is_key_name(entries[i].key@),
    ensures
        settings_of(entries) is None,
        document_config(settings_of(entries), field_of_view_radians, aspect_ratio) == default_config(),
{
    assert(!entries_accepted(entries));
}

} // verus!
