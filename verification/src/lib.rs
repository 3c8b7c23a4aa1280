//! An engine that runs declarative nodes: it checks a node's contracts, runs
//! the steps of its flow on the inputs of a call, and counts the runs to tell
//! which nodes are worth compiling.

pub mod clock;
pub mod compiler;
pub mod condition;
pub mod context;
pub mod contracts;
pub mod controller;
pub mod dict;
pub mod error;
pub mod executor;
pub mod expression;
pub mod flow;
pub mod hot_path;
pub mod loader;
pub mod number;
pub mod numerics;
pub mod render;
pub mod template;
pub mod text;
pub mod types;
pub mod value;

pub use compiler::JitCompiler;
pub use error::VesperError;
pub use executor::SemanticExecutor;
pub use hot_path::HotPathDetector;
pub use loader::VesperLoader;
pub use types::VesperNode;
pub use value::Value;
