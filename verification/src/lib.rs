//! [`Buffer`] is a text buffer that makes writing HTML pleasant, and whose
//! output is proved to be properly nested.
//!
//! ```
//! use html_builder::{Buffer, Html5};
//!
//! let mut buf = Buffer::new();
//! buf.doctype();
//! let mut html = buf.html().attr("lang='en'");
//! let mut head = html.head();
//! head.title().write_str("Title!\n").unwrap();
//! head.meta().attr("charset='utf-8'");
//! let mut body = html.body();
//! body.h1().write_str("Header!\n").unwrap();
//! body.comment().write_str("Thanks for reading").unwrap();
//! let page = buf.finish();
//! ```
//!
//! `page` is then
//!
//! ```html
//! <!DOCTYPE html>
//! <html lang='en'>
//!  <head>
//!   <title>
//! Title!
//!   </title>
//!   <meta charset='utf-8'>
//!  </head>
//!  <body>
//!   <h1>
//! Header!
//!   </h1>
//!   <!-- Thanks for reading -->
//!  </body>
//! </html>
//! ```
//!
//! # How it works
//!
//! A [`Buffer`] owns one document under construction.  The handles borrowed
//! from it ([`Node`], [`Void`], [`Comment`]) all write into the one
//! [`Ctx`].  A handle acts at a fixed nesting depth: before it opens a child
//! or writes content, the start tag or comment that is still pending is
//! terminated and every element that was opened deeper than the handle is
//! closed.  So a handle stays usable after children were made from it, and
//! using it again closes them.
//!
//! Each start and end tag stands at the beginning of a line, indented by one
//! space for each element that is open around it.
//!
//! # What is proved
//!
//! The abstract state of a document is a [`Doc`]: the text, the tags of the
//! open elements, what is pending, and the [`Token`]s emitted so far.  Every
//! operation is specified as a function on it.  [`laws`] holds what follows
//! for every document: the tokens always obey the grammar of
//! [`Doc::accepts`], and when the buffer is finished every start has its
//! matching end, properly nested.

pub mod buffer;
pub mod context;
pub mod document;
pub mod escape;
pub mod html;
pub mod laws;
pub mod node;

pub use buffer::Buffer;
pub use context::Ctx;
pub use document::{
    balanced, closing_text, closing_tokens, indent, replay, run, unmatched, Doc, Op, Pending, Token,
};
pub use escape::{escaped, escaped_char};
pub use html::Html5;
pub use node::{Comment, Node, Void};
