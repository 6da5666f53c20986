//! An interactive front-end for a revision graph, as a verified library.
//!
//! The library holds the position-addressed log tree, the keystroke trie that
//! resolves multi-key commands, and the interaction state machine with its
//! queue of engine invocations. Everything that touches the terminal, the
//! file system or a child process is left to the program around it, which
//! hands the library plain values and performs the effects it asks for.

pub mod command_tree;
pub mod commands;
pub mod dialogs;
pub mod help;
pub mod keymap;
pub mod keymap_laws;
pub mod keys;
pub mod listing;
pub mod log_tree;
pub mod model;
pub mod navigation;
pub mod parse;
pub mod shell_out;
pub mod strings;
pub mod text;
pub mod update;
pub mod view;
