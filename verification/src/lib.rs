pub mod args;
pub mod laws;
pub mod resolve;
pub mod schema;
pub mod serialize;

pub use args::Args;
pub use resolve::default_args;
pub use resolve::resolve;
pub use schema::ResolveError;
