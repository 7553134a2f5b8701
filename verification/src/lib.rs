//! The core of a personal note-taking tool.
//!
//! Notes are plain text files under a base directory, indexed by a small
//! relational store. This crate holds everything that decides: how a title
//! becomes a slug and a path, what the index answers to a query, in which order
//! a note's file and its index row come into being, and how the interactive
//! selector moves. Reading and writing files, talking to the index and drawing
//! on a terminal are left to the caller, who hands over plain values and gets
//! plain values back.
//!
//! - `slug` and `path` map a title to the slug and the path of its note.
//! - `note` has the notes and the rows of the index; `index` answers queries
//!   over the rows; `schema` names the tables.
//! - `create` leads the caller through the creation of a note, and `store`
//!   states what that does to the files and the index taken together.
//! - `selector` is the list that the user browses, `render` is what it shows,
//!   and `session` leads the caller through one sitting at it.
//! - `editor` hands a note over to the user's editor.
//! - `text` has what the others need of texts.

pub mod create;
pub mod editor;
pub mod index;
pub mod note;
pub mod path;
pub mod render;
pub mod schema;
pub mod selector;
pub mod session;
pub mod slug;
pub mod store;
pub mod text;
