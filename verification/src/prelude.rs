//! What a build script needs, in one import.

pub use crate::builder::{BuildPlan, BuildStatus, Builder, CrateType, ExecutionContext, Profile};
pub use crate::error::BuildErrorKind;
