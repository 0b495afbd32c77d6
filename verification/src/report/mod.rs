//! Structured violations, paths and outcome errors.

pub(crate) mod path_segment;
mod skip_reason;
mod validation_outcome_error;
mod validation_path;
mod violation;
mod violation_param;
mod violation_params;

pub use path_segment::PathSegment;
pub use path_segment::SegmentView;
pub use skip_reason::SkipReason;
pub use validation_outcome_error::ValidationOutcomeError;
pub use validation_path::ValidationPath;
pub use validation_path::lemma_render_appends;
pub use validation_path::lemma_two_fields_render;
pub use validation_path::render_segments;
pub use violation::Violation;
pub use violation_param::ViolationParam;
pub use violation_params::ViolationParams;
