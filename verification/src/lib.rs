//! Command-line front end of the Thorium package manager: the argument
//! dispatcher, the styled-segment renderer and the logging facade.
//!
//! Nothing in this library touches a terminal or the file system. The
//! dispatcher reports what a command line asks for, the renderer reports the
//! ordered terminal operations that a batch of segments stands for, and the
//! caller performs both.

pub mod cli;
pub mod commands;
pub mod help;
pub mod logging;
pub mod printer;
pub mod text;
