//! Resolution of the render configuration.
//!
//! The command line is read by the unverified front end; the decisions made
//! on what it found — the default image dimensions, the default scene name,
//! and which named scene a string selects — are verified here. An
//! unrecognized scene name resolves to nothing, which the front end turns
//! into the fail-fast error before rendering begins.

use vstd::prelude::*;
use vstd::string::StringExecFns;

verus! {

/// The named demo scenes the renderer knows.
#[derive(Clone, Copy, Debug, PartialEq, Eq, Structural)]
pub enum SceneKind {
    /// Selected by "default": four spheres of the four materials.
    Standard,
    /// Selected by "spheres": a ground sphere under many random small ones.
    Spheres,
    /// Selected by "motion": spheres moving over the shutter interval.
    Motion,
    /// Selected by "textures": checkered and metallic spheres.
    Textures,
    /// Selected by "perlin": spheres shaded by the noise texture.
    Perlin,
}

/// Which scene a name selects, if any.
pub open spec fn scene_for(name: Seq<char>) -> Option<SceneKind> {
    if name == "default"@ {
        Some(SceneKind::Standard)
    } else if name == "spheres"@ {
        Some(SceneKind::Spheres)
    } else if name == "motion"@ {
        Some(SceneKind::Motion)
    } else if name == "textures"@ {
        Some(SceneKind::Textures)
    } else if name == "perlin"@ {
        Some(SceneKind::Perlin)
    } else {
        None
    }
}

/// Maps a scene name to the scene it selects; `None` exactly when the name
/// is not one of the five known scenes.
pub fn parse_scene(name: &String) -> (r: Option<SceneKind>)
    ensures
        r == scene_for(name@),
{
    if *name == String::from_str("default") {
        Some(SceneKind::Standard)
    } else if *name == String::from_str("spheres") {
        Some(SceneKind::Spheres)
    } else if *name == String::from_str("motion") {
        Some(SceneKind::Motion)
    } else if *name == String::from_str("textures") {
        Some(SceneKind::Textures)
    } else if *name == String::from_str("perlin") {
        Some(SceneKind::Perlin)
    } else {
        None
    }
}

/// The image dimensions to render: the ones given, or 200 by 100 when none
/// were.
pub fn resolve_dimensions(dims: Option<(u64, u64)>) -> (r: (u64, u64))
    ensures
        match dims {
            Some(d) => r == d,
            None => r == (200u64, 100u64),
        },
{
    match dims {
        Some(d) => d,
        None => (200, 100),
    }
}

/// The scene name to render: the one given, or "default" when none was.
pub fn resolve_scene_name(scene: Option<String>) -> (r: String)
    ensures
        match scene {
            Some(s) => r@ == s@,
            None => r@ == "default"@,
        },
{
    match scene {
        Some(s) => s,
        None => String::from_str("default"),
    }
}

} // verus!
