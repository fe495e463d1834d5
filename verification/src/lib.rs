pub mod backend;
pub mod batch;
pub mod clock;
pub mod column;
pub mod concurrency;
pub mod error;
pub mod evolve;
pub mod laws;
pub mod lifecycle;
pub mod model;
pub mod outcome;
pub mod run;
pub mod schema;
pub mod table;
pub mod text;
