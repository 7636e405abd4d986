//! Typed, verified model of a GPU resource library: native encodings of its
//! enumerations, the format capability bitset, value-typed parameter
//! builders, and the life cycle of device, format, buffer and texture handles.
//!
//! Handles are kept as plain addresses (`0` stands for the null handle); the
//! native calls that produce and release them are made by the caller.

pub mod caps;
pub mod enums;
pub mod handles;
pub mod params;
pub mod plane;

pub use caps::{FmtCap, FmtCaps};
pub use enums::{AddressMode, BufMemType, BufType, FmtType, HandleType, SampleMode};
pub use handles::{Buf, Fmt, Gpu, Tex};
pub use params::{BufParams, TexParams};
pub use plane::PlaneData;
