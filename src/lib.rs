//! A context for invoking the Nix package manager.
//!
//! A [`Flox`] value holds the directories and options of one session. It is
//! assembled with a [`FloxBuilder`] and hands out preconfigured backends
//! ([`NixApiExt`]) and package handles ([`Package`]).
pub mod command_line;
pub mod error;
pub mod flox;

pub use command_line::{
    EvaluationArgs, FlakeArgs, NixCommandLine, NixCommandLineView, NixCommonArgs, NixConfig,
    NixConfigView,
};
pub use error::{FloxError, RequiredField};
pub use flox::{
    DefaultFlox, DefaultFloxBuilder, Flox, FloxBuilder, FloxBuilderView, FloxView, NixApiExt,
    Package,
};
