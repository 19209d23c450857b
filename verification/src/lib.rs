//! Scalars wrapped with a statically declared inclusive range.
//!
//! A `BoundedNum` tags one machine scalar with two marker types giving the
//! inclusive bounds the value is known to satisfy. The range is checked once,
//! at construction; conversion, addition and indexing then justify their
//! unchecked fast paths by interval reasoning over the marker constants,
//! discharged by the verifier instead of by runtime checks.

mod bounded_num;
mod conv;
mod indexing;
mod ops;
mod representable;

pub use bounded_num::in_bounds;
pub use bounded_num::lemma_boundary_inclusive;
pub use bounded_num::lemma_round_trip;
pub use bounded_num::BoundedNum;
pub use bounded_num::OutOfBoundsError;
pub use conv::NarrowInto;
pub use conv::ScalarConversionError;
pub use conv::TryIntoError;
pub use conv::WidenInto;
pub use indexing::SafeGet;
pub use ops::lemma_interval_sum;
pub use representable::Neg;
pub use representable::Pos;
pub use representable::Representable;
pub use representable::Scalar;
pub use representable::ToInt;
pub use representable::Zero;
