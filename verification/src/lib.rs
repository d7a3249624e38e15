//! Verified core of an iOS embedding of the Helix editor: the terminal output
//! backend that turns cell updates into escape sequences, the line-ending
//! conversion used on pipe output, the editor's start-up decisions, the input
//! reader's decisions and the `gix` command line's option handling.
pub mod crlf;
pub mod text;
pub mod style;
pub mod sequences;
pub mod backend;
pub mod launch;
pub mod grammars;
pub mod input;
pub mod git_cli;
