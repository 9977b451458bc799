//! The check itself: compare the basis a document declares against the basis
//! its authoring application is expected to declare, and report a diagnostic
//! when they differ.

use vstd::prelude::*;
use vstd::string::StringExecFns;
use crate::axis::CoordinateAxis;
use crate::axis::triplet_of;
use crate::policy::ApplicationName;
use crate::policy::coordinate_axis_for_software;
use crate::policy::expected_basis;
use crate::settings::Document;
use crate::settings::get_coordinate_axis;
use crate::settings::spec_coordinate_axis;

verus! {

/// The one way the check can fail: the document does not declare a complete
/// coordinate-axis convention. A mismatch is not an error; it is the check's
/// finding, reported in the returned diagnostics.
#[derive(Clone, Copy, Debug, PartialEq, Eq, Structural)]
pub enum VerifyError {
    MissingAxisData,
}

impl VerifyError {
    /// The human-readable description of the failure.
    pub fn message(&self) -> (r: String)
        ensures
            r@ == "Could not find coordinate axis."@,
    {
        String::from_str("Could not find coordinate axis.")
    }
}

/// The label the diagnostic uses for the identified application, mirroring
/// how an optional identity prints.
pub open spec fn application_label(application_name: Option<ApplicationName>) -> Seq<char> {
    match application_name {
        Some(ApplicationName::Max) => "Some(Max)"@,
        Some(ApplicationName::Blender) => "Some(Blender)"@,
        Some(ApplicationName::Maya) => "Some(Maya)"@,
        None => "None"@,
    }
}

/// The single diagnostic the check emits on a mismatch: the expected
/// triplet, the actual triplet and the identified application.
pub open spec fn mismatch_message(
    expected: CoordinateAxis,
    actual: CoordinateAxis,
    application_name: Option<ApplicationName>,
) -> Seq<char> {
    "File has incorrect Coordinate Axis. Expected "@ + triplet_of(expected) + " actual "@
        + triplet_of(actual) + ". ["@ + application_label(application_name) + "]"@
}

/// Renders the label for an optional application identity.
fn render_application_label(application_name: &Option<ApplicationName>) -> (r: String)
    ensures
        r@ == application_label(*application_name),
{
    match application_name {
        Some(ApplicationName::Max) => String::from_str("Some(Max)"),
        Some(ApplicationName::Blender) => String::from_str("Some(Blender)"),
        Some(ApplicationName::Maya) => String::from_str("Some(Maya)"),
        None => String::from_str("None"),
    }
}

/// Checks that the basis the document declares matches the basis its
/// authoring application is expected to declare.
///
/// Fails with [`VerifyError::MissingAxisData`] exactly when the document
/// declares no complete basis. Otherwise the check succeeds: it returns no
/// diagnostics when the declared basis equals the expected one, and exactly
/// one diagnostic describing both bases and the application when they
/// differ. A declared basis whose axes are not all unit values cannot be
/// rendered; such a value is an internal inconsistency between extraction
/// and policy, which the precondition rules out, and a caller outside
/// verified code must treat as fatal.
pub fn verify(doc: &Document, application_name: &Option<ApplicationName>) -> (r: Result<
    Vec<String>,
    VerifyError,
>)
    requires
        spec_coordinate_axis(*doc) matches Some(b) ==> b.wf(),
    ensures
        ({
            let expected = expected_basis(*application_name);
            match spec_coordinate_axis(*doc) {
                None => r == Err::<Vec<String>, VerifyError>(VerifyError::MissingAxisData),
                Some(actual) => match r {
                    Ok(diagnostics) => if actual == expected {
                        diagnostics@.len() == 0
                    } else {
                        diagnostics@.len() == 1 && diagnostics@[0]@ == mismatch_message(
                            expected,
                            actual,
                            *application_name,
                        )
                    },
                    Err(_) => false,
                },
            }
        }),
{
    let axis = match get_coordinate_axis(doc) {
        Some(a) => a,
        None => {
            return Err(VerifyError::MissingAxisData);
        },
    };

    let correct = coordinate_axis_for_software(application_name);
    proof {
        crate::policy::lemma_policy_total_and_pure(*application_name, *application_name);
    }

    if axis != correct {
        let mut message = String::from_str("File has incorrect Coordinate Axis. Expected ");
        let expected_triplet = correct.display_triplet();
        let actual_triplet = axis.display_triplet();
        let label = render_application_label(application_name);
        message.append(expected_triplet.as_str());
        message.append(" actual ");
        message.append(actual_triplet.as_str());
        message.append(". [");
        message.append(label.as_str());
        message.append("]");
        proof {
            assert(message@ =~= mismatch_message(correct, axis, *application_name));
        }
        let mut diagnostics: Vec<String> = Vec::new();
        diagnostics.push(message);
        return Ok(diagnostics);
    }

    Ok(Vec::new())
}

} // verus!
