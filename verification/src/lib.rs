//! Sample spaces: a description of a discrete set of legal values together
//! with reproducible random drawing, membership testing and reseeding.

pub mod discrete;
pub mod generator;
pub mod space;

pub use discrete::ConstructionError;
pub use discrete::Discrete;
pub use generator::std_draw;
pub use generator::Generator;
pub use space::Candidate;
pub use space::Space;
