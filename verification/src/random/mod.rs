//! The pipeline that random matrices are filled from: a seed expander, the
//! bit generator that it seeds, and the bookkeeping of a sampler that turns
//! pairs of words into pairs of normal variates.

pub mod bits;
mod clock;
pub mod normal;

pub use bits::RngBase;
pub use bits::Splitmix64;
pub use clock::seed_from_micros;
pub use normal::Draw;
pub use normal::NormalDistRng;
pub use normal::SamplerModel;
