//! Reporting of a module's activity and the rules of module loading.

pub mod console_reporter;
pub mod ext;
pub mod module_loader;
pub mod reporter;
pub mod runtime;
