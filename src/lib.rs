//! Searches the buckets of the Scoop package manager for applications: the
//! local buckets first, and the known remote ones where no local bucket has a
//! match.
pub mod app;
pub mod bucket;
pub mod json;
pub mod path;
pub mod report;
pub mod scoop;
pub mod search;
pub mod text;

pub use app::App;
pub use bucket::Bucket;
pub use report::display_buckets;
pub use scoop::Scoop;
pub use search::{get_query, parse_args, run, Args};
