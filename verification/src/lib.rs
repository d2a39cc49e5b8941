//! FizzBuzz classification in several styles, each proved to produce the
//! same label, together with a small harness that times them.

pub mod decimal;
pub mod label;
pub mod strategy;
pub mod candidates;
pub mod registry;
pub mod harness;
pub mod report;
