//! Core of a text-expansion engine: a bounded keystroke buffer, a trailing
//! shortcut-token matcher, a variable-substitution renderer, an output-injection
//! planner with a modelled clipboard save/restore cycle, and the expansion
//! lifecycle controller.

pub mod buffer;
pub mod directory;
pub mod engine;
pub mod host;
pub mod injector;
pub mod keys;
pub mod lifecycle;
pub mod matcher;
pub mod model;
pub mod render;
pub mod text;

pub use buffer::KeystrokeBuffer;
pub use directory::{SnippetDirectory, SnippetEntry};
pub use engine::EngineState;
pub use injector::{ExpansionPlan, InjectionStep, SimulatedOutcome};
pub use lifecycle::ExpanderLifecycle;
pub use model::{
    CreateSnippetRequest, CreateUserRequest, Folder, LoginRequest, Settings, Snippet,
    UpdateSnippetRequest, User, Variable,
};
