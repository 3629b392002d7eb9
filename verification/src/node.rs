//! The handles that write into a document.
//!
//! A handle borrows the document's context for as long as it lives, and a
//! handle made from another borrows that one.  So while a child is in use
//! its parent cannot be, no handle can outlive the buffer, and nothing can
//! be written once the buffer is finished.

use crate::context::Ctx;
use crate::document::{Doc, Pending, Token};
use crate::laws::lemma_depth_after_close;
use std::borrow::Cow;
use vstd::prelude::*;

verus! {

/// `std::fmt::Error`, the error of `std::fmt::Write`.
///
/// Trusted: nothing is claimed of it.  The writing methods name it in
/// their result, as the methods of `std::fmt::Write` do.
#[verifier::external_type_specification]
#[verifier::external_body]
pub struct ExFmtError(std::fmt::Error);

/// Calls `std::fmt::Error::default`.
///
/// Trusted: nothing is claimed of the error that it makes.
#[verifier::external_body]
fn fmt_error() -> std::fmt::Error {
    std::fmt::Error::default()
}

/// An HTML element.
///
/// When a handle is used again after children were made from it, whatever
/// they left open is closed first.
pub struct Node<'a> {
    /// The nesting depth of this element's content.
    pub depth: usize,
    /// The context of the document.
    pub ctx: &'a mut Ctx,
}

/// A self-closing element.
///
/// Void elements can't have any contents (since there's no end tag, no
/// content can be put between the start tag and the end tag), so this
/// handle refuses to write any.
pub struct Void<'a> {
    /// The context of the document.
    pub ctx: &'a mut Ctx,
}

/// A comment.
pub struct Comment<'a> {
    /// The context of the document.
    pub ctx: &'a mut Ctx,
}

impl<'a> Node<'a> {
    /// Whether the document is valid and this element still open in it: at
    /// least as many elements are open as this handle's depth.
    pub open spec fn wf(&self) -> bool {
        self.ctx@.open_at(self.depth as nat)
    }

    /// Whether this is a handle on the element `tag` that was just opened
    /// at `depth` in the document `parent`: its content nests one deeper,
    /// and it is the innermost open element.
    pub open spec fn is_child(&self, parent: Doc, depth: nat, tag: Seq<char>) -> bool {
        &&& self.wf()
        &&& self.ctx@ == parent.opened(tag, false, depth)
        &&& self.depth == depth + 1
        &&& self.depth == self.ctx@.depth()
    }

    /// Opens an element as a child of this one, after closing whatever is
    /// open below this one.
    pub fn child<'b>(&'b mut self, tag: Cow<'static, str>) -> (node: Node<'b>)
        requires
            old(self).wf(),
        ensures
            node.is_child(old(self).ctx@, old(self).depth as nat, tag@),
            final(self).depth == old(self).depth,
            *final(self).ctx == *final(node.ctx),
            *final(final(self).ctx) == *final(old(self).ctx),
    {
        proof {
            lemma_depth_after_close(self.ctx@, tag@, tag@, self.depth as nat);
        }
        let depth: usize = self.ctx.open(tag, false, self.depth);
        Node { depth, ctx: &mut *self.ctx }
    }

    /// Opens a void element as a child of this one, after closing whatever
    /// is open below this one.
    pub fn void_child<'b>(&'b mut self, tag: Cow<'static, str>) -> (void: Void<'b>)
        requires
            old(self).wf(),
        ensures
            void.is_child(old(self).ctx@, old(self).depth as nat, tag@),
            final(self).depth == old(self).depth,
            *final(self).ctx == *final(void.ctx),
            *final(final(self).ctx) == *final(old(self).ctx),
    {
        proof {
            lemma_depth_after_close(self.ctx@, tag@, tag@, self.depth as nat);
        }
        self.ctx.open(tag, true, self.depth);
        Void { ctx: &mut *self.ctx }
    }

    /// Opens a comment as a child of this element, after closing whatever
    /// is open below this one.
    pub fn comment<'b>(&'b mut self) -> (comment: Comment<'b>)
        requires
            old(self).wf(),
        ensures
            comment.is_child(old(self).ctx@, old(self).depth as nat),
            final(self).depth == old(self).depth,
            *final(self).ctx == *final(comment.ctx),
            *final(final(self).ctx) == *final(old(self).ctx),
    {
        proof {
            lemma_depth_after_close(self.ctx@, Seq::empty(), Seq::empty(), self.depth as nat);
        }
        self.ctx.open_comment(self.depth);
        Comment { ctx: &mut *self.ctx }
    }

    /// Adds an attribute to this element's start tag.
    ///
    /// Does nothing once that start tag is terminated, which the first
    /// content or child of this element does, whatever else is pending then.
    pub fn attr(self, attr: &str) -> (node: Node<'a>)
        requires
            self.wf(),
        ensures
            node.wf(),
            node.depth == self.depth,
            node.ctx@ == old(self.ctx)@.attributed(attr@, self.depth as nat),
            *final(node.ctx) == *final(self.ctx),
    {
        let Node { depth, ctx } = self;
        let own = match ctx.pending() {
            Some(Pending::Element) => ctx.depth() == depth,
            _ => false,
        };
        if own {
            ctx.append_attribute(attr);
        }
        Node { depth, ctx }
    }

    /// Writes text as content of this element, escaped, after closing
    /// whatever is open below this one.  Never fails.
    pub fn write_str(&mut self, s: &str) -> (res: Result<(), std::fmt::Error>)
        requires
            old(self).wf(),
        ensures
            res is Ok,
            final(self).wf(),
            final(self).ctx@ == old(self).ctx@.written(s@, old(self).depth as nat),
            final(self).depth == old(self).depth,
            final(self).depth == final(self).ctx@.depth(),
            *final(final(self).ctx) == *final(old(self).ctx),
    {
        proof {
            lemma_depth_after_close(self.ctx@, s@, s@, self.depth as nat);
        }
        self.ctx.append_text(s, self.depth);
        Ok(())
    }
}

impl<'a> Void<'a> {
    /// Whether the document is valid and this element's start tag pending.
    pub open spec fn wf(&self) -> bool {
        self.ctx@.valid() && self.ctx@.pending == Some(Pending::Void)
    }

    /// Whether this is a handle on the void element `tag` that was just
    /// opened at `depth` in the document `parent`.
    pub open spec fn is_child(&self, parent: Doc, depth: nat, tag: Seq<char>) -> bool {
        &&& self.wf()
        &&& self.ctx@ == parent.opened(tag, true, depth)
        &&& self.ctx@.depth() == depth
    }

    /// Adds an attribute to this element's start tag.
    pub fn attr(self, attr: &str) -> (void: Void<'a>)
        requires
            self.wf(),
        ensures
            void.wf(),
            void.ctx@ == old(self.ctx)@.emit(Token::Attr(attr@)),
            *final(void.ctx) == *final(self.ctx),
    {
        let Void { ctx } = self;
        ctx.append_attribute(attr);
        Void { ctx }
    }

    /// Refuses to write: a void element takes no content.  Always fails,
    /// and leaves the document as it is.
    pub fn write_str(&mut self, s: &str) -> (res: Result<(), std::fmt::Error>)
        ensures
            res is Err,
            *final(self).ctx == *old(self).ctx,
            *final(final(self).ctx) == *final(old(self).ctx),
    {
        Err(fmt_error())
    }
}

impl<'a> Comment<'a> {
    /// Whether the document is valid and this comment pending.
    pub open spec fn wf(&self) -> bool {
        self.ctx@.valid() && self.ctx@.pending == Some(Pending::Comment)
    }

    /// Whether this is a handle on a comment that was just opened at
    /// `depth` in the document `parent`.
    pub open spec fn is_child(&self, parent: Doc, depth: nat) -> bool {
        &&& self.wf()
        &&& self.ctx@ == parent.commented(depth)
        &&& self.ctx@.depth() == depth
    }

    /// Writes into this comment, as given.  Never fails.
    pub fn write_str(&mut self, s: &str) -> (res: Result<(), std::fmt::Error>)
        requires
            old(self).wf(),
        ensures
            res is Ok,
            final(self).wf(),
            final(self).ctx@ == old(self).ctx@.emit(Token::Raw(s@)),
            *final(final(self).ctx) == *final(old(self).ctx),
    {
        self.ctx.append_raw(s);
        Ok(())
    }
}

} // verus!
