//! Conversion adapters that widen the success or the failure arm of a
//! `Result`, or of an asynchronous computation modelled as a poll-driven
//! state machine, through each target type's `From` capability.

use vstd::prelude::*;

pub mod flatten;
pub mod future_convert;
pub mod poll;
pub mod result_convert;
pub mod widen;

pub use flatten::{FlatMapErrInto, FlattenStage, FutureFlatMapErrInto};
pub use future_convert::{FutureMapErrInto, FutureMapInto, MapErrInto, MapInto};
pub use poll::{Poll, Stage};
pub use result_convert::{ResultMapErrInto, ResultMapInto};
