//! A typed builder for command-line invocations of the pandoc document
//! converter.
//!
//! The crate models the converter's flag catalog as a tagged union whose
//! rendering to command-line tokens is specified exactly, and it models a
//! conversion as a small state machine: a configured builder is planned
//! into an invocation (argument vector, search path, standard-input
//! payload), a host runs the child process, and the collected outcome is
//! classified into a success value or a typed error. Launching the child
//! process is the host's business; everything the library computes is
//! verified.

pub mod builder;
pub mod dec;
pub mod error;
pub mod exec;
pub mod filters;
pub mod formats;
pub mod options;
pub mod text;

pub use builder::InputKind;
pub use builder::OutputKind;
pub use builder::Pandoc;
pub use builder::new;
pub use error::PandocError;
pub use error::ProcessOutcome;
pub use exec::ExecPlan;
pub use exec::HostEnv;
pub use exec::Invocation;
pub use exec::OutputIntent;
pub use exec::PandocOutput;
pub use exec::collect_output;
pub use exec::finish;
pub use exec::resume_filtered;
pub use filters::TextFilter;
pub use filters::apply_filters;
pub use formats::InputFormat;
pub use formats::MarkdownExtension;
pub use formats::OutputFormat;
pub use options::DocumentClass;
pub use options::DocumentClass::Article;
pub use options::DocumentClass::Book;
pub use options::DocumentClass::Report;
pub use options::EmailObfuscation;
pub use options::PandocOption;
pub use options::PandocRuntimeSystemOption;
pub use options::Tld;
pub use options::TrackChanges;
pub use options::URL;
