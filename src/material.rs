//! Kinds of surface material and which of them can scatter light.
use vstd::prelude::*;

verus! {

/// The kinds of surface material a sphere may carry.
#[derive(Debug, Clone, Copy, PartialEq, Eq, Structural)]
pub enum MaterialKind {
    /// Scatters into the hemisphere around the surface normal.
    Diffuse,
    /// Reflects with a roughness; scattering not available.
    Glossy,
    /// Mirror-like reflection; scattering not available.
    Metal,
    /// Refracts; scattering not available.
    Glass,
}

/// A material was asked to scatter light, which its kind cannot do.
#[derive(Debug, Clone, Copy, PartialEq, Eq, Structural)]
pub struct ScatterUnavailable {
    pub kind: MaterialKind,
}

/// Whether a material of kind `kind` can scatter light.
pub open spec fn scatters(kind: MaterialKind) -> bool {
    kind == MaterialKind::Diffuse
}

/// Checks, before scattering, that a material of kind `kind` can do so. A
/// renderer must stop on the error rather than invent a direction.
pub fn check_scatter(kind: MaterialKind) -> (r: Result<(), ScatterUnavailable>)
    ensures
        r is Ok <==> scatters(kind),
        !scatters(kind) ==> r == Err::<(), ScatterUnavailable>(ScatterUnavailable { kind }),
{
    match kind {
        MaterialKind::Diffuse => Ok(()),
        _ => Err(ScatterUnavailable { kind }),
    }
}

} // verus!
