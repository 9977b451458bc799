//! The per-application policy: which coordinate-axis convention each known
//! authoring application is expected to declare in the files it exports.

use vstd::prelude::*;
use crate::axis::Axis;
use crate::axis::CoordinateAxis;

verus! {

/// The authoring application inferred to have produced a document. Supplied
/// by an outside collaborator; this crate only reads it. An application the
/// collaborator does not recognize arrives as `None`.
#[derive(Clone, Copy, Debug, PartialEq, Eq, Structural)]
pub enum ApplicationName {
    Max,
    Blender,
    Maya,
}

/// The basis expected of files whose authoring application is unknown or has
/// no entry of its own: the target engine's native convention.
pub open spec fn default_basis() -> CoordinateAxis {
    CoordinateAxis {
        up: Axis { x: 0, y: 1, z: 0 },
        front: Axis { x: 0, y: 0, z: 1 },
        coord: Axis { x: 1, y: 0, z: 0 },
    }
}

/// The full policy table: the basis each application identity is expected to
/// declare.
pub open spec fn expected_basis(application_name: Option<ApplicationName>) -> CoordinateAxis {
    match application_name {
        Some(ApplicationName::Max) => CoordinateAxis {
            up: Axis { x: 0, y: 0, z: 1 },
            front: Axis { x: 0, y: -1i8, z: 0 },
            coord: Axis { x: 1, y: 0, z: 0 },
        },
        Some(ApplicationName::Blender) => CoordinateAxis {
            up: Axis { x: 0, y: 0, z: 1 },
            front: Axis { x: 0, y: 1, z: 0 },
            coord: Axis { x: -1i8, y: 0, z: 0 },
        },
        _ => default_basis(),
    }
}

/// Returns the basis the given application is expected to declare.
///
/// 3ds Max is expected to export in its own native Z-up convention, which an
/// axis-bake step corrects on import. Blender is expected to export a
/// convention rotated 180 degrees from Blender's native axes, to compensate
/// for how the target engine imports Blender's literal convention. Every
/// other application, the unrecognized ones included, is expected to match
/// the target engine's native convention.
pub fn coordinate_axis_for_software(application_name: &Option<ApplicationName>) -> (r:
    CoordinateAxis)
    ensures
        r == expected_basis(*application_name),
{
    match application_name {
        Some(ApplicationName::Max) => CoordinateAxis {
            up: Axis { x: 0, y: 0, z: 1 },
            front: Axis { x: 0, y: -1, z: 0 },
            coord: Axis { x: 1, y: 0, z: 0 },
        },
        Some(ApplicationName::Blender) => CoordinateAxis {
            up: Axis { x: 0, y: 0, z: 1 },
            front: Axis { x: 0, y: 1, z: 0 },
            coord: Axis { x: -1, y: 0, z: 0 },
        },
        _ => CoordinateAxis {
            up: Axis { x: 0, y: 1, z: 0 },
            front: Axis { x: 0, y: 0, z: 1 },
            coord: Axis { x: 1, y: 0, z: 0 },
        },
    }
}

/// The policy is a total, pure function of the application identity: equal
/// identities always map to equal bases, every basis it yields is made of
/// unit axes, and every identity without an entry of its own maps to the
/// default basis.
pub proof fn lemma_policy_total_and_pure(a: Option<ApplicationName>, b: Option<ApplicationName>)
    ensures
        a == b ==> expected_basis(a) == expected_basis(b),
        expected_basis(a).wf(),
        a != Some(ApplicationName::Max) && a != Some(ApplicationName::Blender) ==> expected_basis(
            a,
        ) == default_basis(),
{
}

} // verus!
