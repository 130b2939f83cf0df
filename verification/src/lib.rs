//! A verified codec for the 8-byte colour block shared by the BC1, BC2 and
//! BC3 (DXT1/DXT3/DXT5) GPU texture compression formats.
//!
//! The block stores two RGB endpoints packed as 16-bit 5:6:5 words plus
//! sixteen 2-bit palette indices.  Whether a block carries punch-through
//! alpha (3-colour mode) or a full 4-colour opaque palette is signalled
//! solely by the numeric order of the two packed endpoints, so the encoders
//! here canonicalise that order and the decoder re-derives the mode from it.

pub mod colourblock;
pub mod laws;
pub mod model;
pub mod pixels;
