//! What holds of the commands taken together, and what each of them comes to.

pub mod appeasing;
pub mod cancelled;
pub mod chance;
pub mod choices;
pub mod courses;
pub mod keys;
pub mod memory;
pub mod patterns;
pub mod settings;
pub mod summoned;
pub mod timing;
pub mod views;
pub mod warned;
pub mod words;
