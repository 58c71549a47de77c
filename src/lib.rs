//! Grading of submitted programs: the sandbox invocation, the judge, the
//! execution records, the decisions of one execution's lifecycle and the
//! dispatch of an attempt's tests.

mod config;
pub mod dispatch;
pub mod engine;
pub mod judge;
pub mod model;
mod points;
pub mod sandbox;
pub mod text;
pub mod uid;

pub use config::EvaltorArgs;
pub use judge::TestType;
pub use model::{Attempt, Runner, Test};
pub use points::Points;
pub use sandbox::{Instance, NSJailBlueprint};
