/// The cost model: material, energy and total cost of a print job.
pub mod calculator;
/// Hooks through which the desktop platform hands files to the application.
pub mod integration;
/// Exact decimal quantities and the reading of their text.
pub mod quantity;
