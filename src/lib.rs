//! Request-processing core of a small user-lookup service: path parameter
//! parsing, parameterized search statements, response rendering and the
//! per-request hooks (visitor counting, trace-id propagation).
pub mod params;
pub mod ident;
pub mod user;
pub mod query;
pub mod response;
pub mod pipeline;
