//! The buffer that owns a document.

use crate::context::Ctx;
use crate::document::{balanced, Doc};
use crate::laws::lemma_depth_after_close;
use crate::node::{Comment, Node, Void};
use std::borrow::Cow;
use vstd::prelude::*;

verus! {

/// A buffer for writing HTML into.
///
/// The buffer owns the document and writes at its top level.  Handles
/// borrow it, so [`Buffer::finish`] can only be called when none is in use
/// any more, and nothing can be written after it.
pub struct Buffer {
    ctx: Ctx,
}

impl View for Buffer {
    type V = Doc;

    closed spec fn view(&self) -> Doc {
        self.ctx@
    }
}

impl Buffer {
    /// Whether the document is valid.  Every buffer's is.
    pub open spec fn wf(&self) -> bool {
        self@.valid()
    }

    /// Creates a new empty buffer.
    pub fn new() -> (buf: Buffer)
        ensures
            buf@ == Doc::empty(),
            buf.wf(),
    {
        Buffer { ctx: Ctx::new() }
    }

    /// Closes all open tags and returns the buffer's contents.
    ///
    /// The text is that of a complete document: nothing is left open or
    /// pending, and in the tokens emitted every start has its matching end.
    pub fn finish(self) -> (text: String)
        requires
            self.wf(),
        ensures
            text@ == self@.finished(),
            self@.closed_to(0).complete(),
            balanced(self@.closed_to(0).log),
    {
        self.ctx.finish()
    }

    /// Opens an element at the top level, after closing all that is open.
    pub fn child<'b>(&'b mut self, tag: Cow<'static, str>) -> (node: Node<'b>)
        requires
            old(self).wf(),
        ensures
            node.is_child(old(self)@, 0, tag@),
            final(self)@ == final(node.ctx)@,
    {
        proof {
            lemma_depth_after_close(self@, tag@, tag@, 0);
        }
        let depth: usize = self.ctx.open(tag, false, 0);
        Node { depth, ctx: &mut self.ctx }
    }

    /// Opens a void element at the top level, after closing all that is
    /// open.
    pub fn void_child<'b>(&'b mut self, tag: Cow<'static, str>) -> (void: Void<'b>)
        requires
            old(self).wf(),
        ensures
            void.is_child(old(self)@, 0, tag@),
            final(self)@ == final(void.ctx)@,
    {
        proof {
            lemma_depth_after_close(self@, tag@, tag@, 0);
        }
        self.ctx.open(tag, true, 0);
        Void { ctx: &mut self.ctx }
    }

    /// Opens a comment at the top level, after closing all that is open.
    pub fn comment<'b>(&'b mut self) -> (comment: Comment<'b>)
        requires
            old(self).wf(),
        ensures
            comment.is_child(old(self)@, 0),
            final(self)@ == final(comment.ctx)@,
    {
        proof {
            lemma_depth_after_close(self@, Seq::empty(), Seq::empty(), 0);
        }
        self.ctx.open_comment(0);
        Comment { ctx: &mut self.ctx }
    }

    /// Writes text at the top level, escaped, after closing all that is
    /// open.  Never fails.
    pub fn write_str(&mut self, s: &str) -> (res: Result<(), std::fmt::Error>)
        requires
            old(self).wf(),
        ensures
            res is Ok,
            final(self).wf(),
            final(self)@ == old(self)@.written(s@, 0),
            final(self)@.depth() == 0,
    {
        proof {
            lemma_depth_after_close(self@, s@, s@, 0);
        }
        self.ctx.append_text(s, 0);
        Ok(())
    }
}

impl Default for Buffer {
    /// Creates a new empty buffer.
    fn default() -> (buf: Buffer)
        ensures
            buf@ == Doc::empty(),
            buf.wf(),
    {
        Buffer::new()
    }
}

} // verus!
