//! Frame primitives: dimensions and rectangles, exact ratios, the coded orientation vocabularies,
//! planes and the runtime-tagged frame, and the error payloads shared by frame validation.
use vstd::prelude::*;

pub mod errors;
pub mod geometry;
pub mod plane;
pub mod ratio;
pub mod vocab;

pub use vocab::{
    FieldOrder, ParseFieldOrderError, ParseRotationError, ParseStereoModeError, Rotation, StereoMode,
};
pub use errors::{
    DimensionOverflow, GeometryOverflow, InsufficientPlane, InsufficientStride, UnsupportedBits,
    WidthAlignment, WidthAlignmentRequirement, WidthOverflow, ZeroDimension,
};
pub use geometry::{Dimensions, ParseDimensionsError, Rect};
pub use plane::{Plane, TimestampedFrame, VideoFrame};
pub use ratio::{
    FrameRate, ParseRationalError, ParseSampleAspectRatioError, RatioParseKind, Rational,
    SampleAspectRatio,
};

verus! {

} // verus!
