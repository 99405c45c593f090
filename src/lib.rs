//! Scaffolding for new projects: named strategies render templates against an
//! execution context and describe, as an ordered list of effects, the files
//! to write and the project to create. The caller carries the effects out.

pub mod basics;
pub mod composite;
pub mod error;
pub mod init;
pub mod laws;
pub mod plan;
pub mod registry;
pub mod strategy;
pub mod templates;

pub use basics::{add, add_two, greeting, Guess};
pub use composite::Composite;
pub use error::{ErrorModel, MvpError};
pub use init::InitStrategy;
pub use plan::{Effect, Plan, Step, WriteMode};
pub use registry::{AddStrategyFactory, Handler};
pub use strategy::{
    AddStrategy, FileStrategy, FmtStrategy, GitIgnoreStrategy, LicStrategy, MdStrategy,
    VscodeStrategy,
};
pub use templates::{fill_context_with_year_and_author, ExecutionContext, TemplateStore};

