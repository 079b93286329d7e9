pub mod args;
pub mod catalog;
pub mod column;
pub mod designation;
pub mod error;
pub mod matrix;
pub mod neighbours;

pub use args::CalcArgs;
pub use catalog::{calc_rho, restructure_data, Source};
pub use designation::{strip_quotes, vectorise_designations};
pub use error::CalcError;
pub use matrix::{calc_distances, pair_total, DistanceMatrix};
pub use neighbours::{arg_extremes, sort_dist};
