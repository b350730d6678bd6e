//! Relaunching a configured tool: resolving the persisted configuration
//! record, assembling the child's command line, and translating how the
//! child ended into this process's own exit status.

pub mod config;
pub mod launch;
