//! Checks that an FBX document's declared coordinate-axis convention matches
//! the convention expected of the application that authored it.
//!
//! The document's global settings are modelled as a plain property bag
//! ([`settings::GlobalSettings`]); an outer layer fills that model from a
//! parsed document and supplies the authoring application's identity.

pub mod axis;
pub mod check;
pub mod policy;
pub mod settings;

pub use check::verify;
pub use check::VerifyError;

pub use axis::Axis;
pub use axis::CoordinateAxis;
pub use policy::ApplicationName;
pub use settings::AttributeValue;
pub use settings::Document;
pub use settings::GlobalSettings;
pub use settings::Property;
