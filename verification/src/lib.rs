//! Small additions to the standard library, with their behaviour proved.
//!
//! - [`any`]: dynamic typing for types that carry lifetimes, and a result
//!   slot that keeps the first value of one type.
//! - [`coerce`]: conversions between types that hold the same data.
//! - [`cell`]: a reference that is either a plain `&` or a `Ref` of a
//!   `RefCell`.
//! - [`dupe`]: a cheap `clone`.
//! - [`ext`]: shorthands on slices and vectors.
//! - [`types`]: equality of types, as a bound.
//! - [`variants`]: the name of the variant of a value.
//! - [`any_lifetime`] and [`variant`]: the code that the derives write.

pub mod any;
pub mod any_lifetime;
pub mod cell;
pub mod coerce;
pub mod dupe;
pub mod ext;
pub mod types;
pub mod variant;
pub mod variants;
