//! The write context that all handles of one document share.

use crate::document::{balanced, indent, Doc, Pending, Token};
use crate::escape::encode_text;
use crate::laws::{
    lemma_closed_to, lemma_emit_valid, lemma_empty_valid, lemma_finished_complete, lemma_terminated,
};
use std::borrow::Cow;
use vstd::prelude::*;

verus! {

/// The text of a tag.
fn tag_str<'a>(tag: &'a Cow<'static, str>) -> (text: &'a str)
    ensures
        text@ == tag@,
{
    match tag {
        Cow::Borrowed(text) => text,
        Cow::Owned(text) => text.as_str(),
    }
}

/// The output buffer, the tags of the open elements, and the marker of what
/// awaits its terminator.
pub struct Ctx {
    wtr: String,
    stack: Vec<Cow<'static, str>>,
    tag_open: Option<Pending>,
    log: Ghost<Seq<Token>>,
}

impl View for Ctx {
    type V = Doc;

    closed spec fn view(&self) -> Doc {
        Doc {
            text: self.wtr@,
            stack: self.stack@.map_values(|tag: Cow<'static, str>| tag@),
            pending: self.tag_open,
            log: self.log@,
        }
    }
}

impl Ctx {
    /// A context that holds the empty document.
    pub fn new() -> (ctx: Ctx)
        ensures
            ctx@ == Doc::empty(),
            ctx@.valid(),
    {
        let ctx = Ctx {
            wtr: String::new(),
            stack: Vec::new(),
            tag_open: None,
            log: Ghost(Seq::empty()),
        };
        proof {
            lemma_empty_valid();
            assert(ctx@.stack =~= Seq::<Seq<char>>::empty());
        }
        ctx
    }

    /// The nesting depth: how many elements are open.
    pub fn depth(&self) -> (depth: usize)
        ensures
            depth == self@.depth(),
    {
        self.stack.len()
    }

    /// What awaits its terminator, if anything.
    pub fn pending(&self) -> (pending: Option<Pending>)
        ensures
            pending == self@.pending,
    {
        self.tag_open
    }

    /// Writes `n` spaces.
    fn write_indent(&mut self, n: usize)
        ensures
            final(self).wtr@ == old(self).wtr@ + indent(n as nat),
            final(self).stack == old(self).stack,
            final(self).tag_open == old(self).tag_open,
            final(self).log == old(self).log,
    {
        let mut written: usize = 0;
        while written < n
            invariant
                written <= n,
                self.wtr@ == old(self).wtr@ + indent(written as nat),
                self.stack == old(self).stack,
                self.tag_open == old(self).tag_open,
                self.log == old(self).log,
            decreases n - written,
        {
            self.wtr.append(" ");
            written = written + 1;
        }
    }

    /// Terminates the start tag or comment that is pending, if one is.
    pub fn close_unclosed(&mut self)
        requires
            old(self)@.valid(),
        ensures
            final(self)@ == old(self)@.terminated(),
            final(self)@.valid(),
    {
        proof {
            lemma_terminated(self@);
        }
        match self.tag_open.take() {
            None => {},
            Some(Pending::Comment) => {
                self.wtr.append(" -->\n");
                proof {
                    self.log@ = self.log@.push(Token::CommentEnd);
                }
            },
            Some(_) => {
                self.wtr.append(">\n");
                proof {
                    self.log@ = self.log@.push(Token::TagEnd);
                }
            },
        }
    }

    /// Terminates what is pending, then closes the innermost elements until
    /// no more than `depth` are open.
    pub fn close_deeper_than(&mut self, depth: usize)
        requires
            old(self)@.valid(),
        ensures
            final(self)@ == old(self)@.closed_to(depth as nat),
            final(self)@.valid(),
    {
        self.close_unclosed();
        while self.stack.len() > depth
            invariant
                self@.valid(),
                self@.pending is None,
                self@.unwound_to(depth as nat) == old(self)@.closed_to(depth as nat),
            decreases self.stack.len(),
        {
            let ghost before = self@;
            if let Some(tag) = self.stack.pop() {
                self.write_indent(self.stack.len());
                self.wtr.append("</");
                self.wtr.append(tag_str(&tag));
                self.wtr.append(">\n");
                proof {
                    self.log@ = self.log@.push(Token::End(tag@));
                    assert(self@.stack =~= before.stack.drop_last());
                    lemma_emit_valid(before, Token::End(tag@));
                }
            }
        }
    }

    /// Closes down to `depth`, then writes the start of a child's tag and
    /// leaves it pending.  A child that is not void is from then on the
    /// innermost open element.  Returns the nesting depth after that.
    pub fn open(&mut self, tag: Cow<'static, str>, void: bool, depth: usize) -> (next: usize)
        requires
            old(self)@.valid(),
        ensures
            final(self)@ == old(self)@.opened(tag@, void, depth as nat),
            final(self)@.valid(),
            next == final(self)@.depth(),
    {
        self.close_deeper_than(depth);
        let ghost closed = self@;
        proof {
            lemma_closed_to(old(self)@, depth as nat);
        }
        self.write_indent(self.stack.len());
        self.wtr.append("<");
        self.wtr.append(tag_str(&tag));
        if void {
            self.tag_open = Some(Pending::Void);
            proof {
                self.log@ = self.log@.push(Token::VoidStart(tag@));
                lemma_emit_valid(closed, Token::VoidStart(tag@));
            }
        } else {
            self.stack.push(tag);
            self.tag_open = Some(Pending::Element);
            proof {
                self.log@ = self.log@.push(Token::Start(tag@));
                assert(self@.stack =~= closed.stack.push(tag@));
                lemma_emit_valid(closed, Token::Start(tag@));
            }
        }
        self.stack.len()
    }

    /// Closes down to `depth`, then writes the comment opener and leaves the
    /// comment pending.
    pub fn open_comment(&mut self, depth: usize)
        requires
            old(self)@.valid(),
        ensures
            final(self)@ == old(self)@.commented(depth as nat),
            final(self)@.valid(),
    {
        self.close_deeper_than(depth);
        proof {
            lemma_closed_to(old(self)@, depth as nat);
            lemma_emit_valid(self@, Token::CommentStart);
        }
        self.write_indent(self.stack.len());
        self.wtr.append("<!-- ");
        self.tag_open = Some(Pending::Comment);
        proof {
            self.log@ = self.log@.push(Token::CommentStart);
        }
    }

    /// Writes a space and `attr` into the pending start tag.  Does nothing
    /// if no start tag is pending.
    pub fn append_attribute(&mut self, attr: &str)
        requires
            old(self)@.valid(),
        ensures
            final(self)@ == old(self)@.with_attr(attr@),
            final(self)@.valid(),
    {
        match self.tag_open {
            Some(Pending::Element) | Some(Pending::Void) => {
                proof {
                    lemma_emit_valid(self@, Token::Attr(attr@));
                }
                self.wtr.append(" ");
                self.wtr.append(attr);
                proof {
                    self.log@ = self.log@.push(Token::Attr(attr@));
                }
            },
            _ => {},
        }
    }

    /// Closes down to `depth`, then writes `raw` escaped.
    pub fn append_text(&mut self, raw: &str, depth: usize)
        requires
            old(self)@.valid(),
        ensures
            final(self)@ == old(self)@.written(raw@, depth as nat),
            final(self)@.valid(),
    {
        self.close_deeper_than(depth);
        proof {
            lemma_closed_to(old(self)@, depth as nat);
            lemma_emit_valid(self@, Token::Text(raw@));
        }
        let text = encode_text(raw);
        self.wtr.append(text.as_str());
        proof {
            self.log@ = self.log@.push(Token::Text(raw@));
        }
    }

    /// Writes `content` as it is into the pending comment.  Does nothing if
    /// no comment is pending.
    pub fn append_raw(&mut self, content: &str)
        requires
            old(self)@.valid(),
        ensures
            final(self)@ == old(self)@.with_raw(content@),
            final(self)@.valid(),
    {
        match self.tag_open {
            Some(Pending::Comment) => {
                proof {
                    lemma_emit_valid(self@, Token::Raw(content@));
                }
                self.wtr.append(content);
                proof {
                    self.log@ = self.log@.push(Token::Raw(content@));
                }
            },
            _ => {},
        }
    }

    /// Closes everything that is open and returns the text.
    pub fn finish(self) -> (text: String)
        requires
            self@.valid(),
        ensures
            text@ == self@.finished(),
            self@.closed_to(0).complete(),
            balanced(self@.closed_to(0).log),
    {
        proof {
            lemma_finished_complete(self@);
        }
        let mut ctx = self;
        ctx.close_deeper_than(0);
        ctx.wtr
    }
}

} // verus!
