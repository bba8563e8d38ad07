//! Route registry and mount-hint resolution.
//!
//! Independently written modules of a server each contribute route handlers
//! together with a mount hint: a base path and an enabled flag. At boot the
//! hosting server collects every contribution into a per-namespace registry,
//! then queries it to decide which routes to install and where. This crate
//! holds the verified core of that plumbing: the hint data model and its
//! validation, the registry of contributions, and the query layer that turns
//! the frozen registry into route lists for the dispatcher.

pub mod hint;
pub mod laws;
pub mod registry;
pub mod resolver;
pub mod route;

pub use hint::AutoMountHint;
pub use registry::AutoRoute;
pub use registry::Registry;
pub use resolver::RoutesCollection;
pub use route::Route;
