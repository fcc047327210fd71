//! Translation of a lint-configuration document into command-line flags for
//! an external static-analysis tool.
//!
//! The library parses a key/value configuration document in which every key
//! is a lint name and every value is one of the four severity keywords
//! `"warn"`, `"allow"`, `"deny"` and `"forbid"`, and synthesizes one flag
//! per entry of the form `-Wclippy::<lint>`, `-Aclippy::<lint>`,
//! `-Dclippy::<lint>` or `-Fclippy::<lint>`. It also assembles the full
//! argument list for the external tool and interprets its exit status.
//! Reading the file and spawning the tool are left to the caller.

pub mod config;
pub mod error;
pub mod flags;
pub mod parse;
pub mod setting;
pub mod text;
pub mod value;
