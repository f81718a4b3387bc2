//! Native-object boxing and a timezone-aware `Time` value for an embedded
//! dynamic-language runtime.

pub mod calendar;
pub mod offset;
pub mod time;
pub mod trampoline;
pub mod value;
