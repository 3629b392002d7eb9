//! The mathematical model of a document under construction.
//!
//! A document is built by emitting [`Token`]s.  [`Doc`] holds the tokens
//! emitted so far and what they amount to: the text written, the tags of the
//! elements that are still open, and whether a start tag or a comment still
//! awaits its terminator.

use crate::escape::escaped;
use vstd::prelude::*;

verus! {

/// What has been opened and still awaits its terminator.
#[derive(Clone, Copy, Debug, PartialEq, Eq, Structural)]
pub enum Pending {
    /// The start tag of an element that takes content.
    Element,
    /// The start tag of a void element.
    Void,
    /// A comment.
    Comment,
}

/// One step in the construction of a document.
pub enum Token {
    /// `<tag` of an element that takes content and will be closed.
    Start(Seq<char>),
    /// `<tag` of a void element, which is never closed.
    VoidStart(Seq<char>),
    /// The comment opener.
    CommentStart,
    /// A space and an attribute, inside a start tag.
    Attr(Seq<char>),
    /// The terminator of a start tag.
    TagEnd,
    /// The comment terminator.
    CommentEnd,
    /// Text content, given raw and written escaped.
    Text(Seq<char>),
    /// Comment content, written as given.
    Raw(Seq<char>),
    /// The end tag of the innermost open element.
    End(Seq<char>),
}

/// An operation of a handle.  Where there is a `depth`, it is the depth of
/// the handle that the operation is issued on.
pub enum Op {
    /// Open an element as a child.
    Child { tag: Seq<char>, depth: nat },
    /// Open a void element as a child.
    VoidChild { tag: Seq<char>, depth: nat },
    /// Open a comment as a child.
    Comment { depth: nat },
    /// Write text content.
    Write { text: Seq<char>, depth: nat },
    /// Add an attribute to the element whose content nests at `depth`.
    Attr { attr: Seq<char>, depth: nat },
    /// Add an attribute to the void element just opened.
    VoidAttr { attr: Seq<char> },
    /// Write into the comment just opened.
    CommentWrite { content: Seq<char> },
}

/// `n` spaces.
pub open spec fn indent(n: nat) -> Seq<char>
    decreases n,
{
    if n == 0 {
        Seq::empty()
    } else {
        indent((n - 1) as nat) + " "@
    }
}

/// The state of a document under construction.
pub struct Doc {
    /// Everything written so far.
    pub text: Seq<char>,
    /// The tags of the open elements, outermost first.
    pub stack: Seq<Seq<char>>,
    /// What awaits its terminator, if anything.
    pub pending: Option<Pending>,
    /// The tokens emitted so far, in order.
    pub log: Seq<Token>,
}

impl Doc {
    /// The document before anything is written.
    pub open spec fn empty() -> Doc {
        Doc { text: Seq::empty(), stack: Seq::empty(), pending: None, log: Seq::empty() }
    }

    /// The nesting depth: how many elements are open.
    pub open spec fn depth(self) -> nat {
        self.stack.len()
    }

    /// Whether a start tag awaits its terminator.
    pub open spec fn tag_pending(self) -> bool {
        self.pending == Some(Pending::Element) || self.pending == Some(Pending::Void)
    }

    /// Whether the start tag of the element whose content nests at `depth`
    /// is still pending: it is the innermost open element, and nothing has
    /// been written or opened since it was.
    pub open spec fn start_pending(self, depth: nat) -> bool {
        self.pending == Some(Pending::Element) && self.stack.len() == depth
    }

    /// Whether the grammar allows `token` next.
    pub open spec fn accepts(self, token: Token) -> bool {
        match token {
            Token::Start(_) | Token::VoidStart(_) | Token::CommentStart | Token::Text(_) => {
                self.pending is None
            },
            Token::Attr(_) | Token::TagEnd => self.tag_pending(),
            Token::Raw(_) | Token::CommentEnd => self.pending == Some(Pending::Comment),
            Token::End(tag) => self.pending is None && self.stack.len() > 0 && self.stack.last()
                == tag,
        }
    }

    /// The document after `token`: what it writes, and what it opens or
    /// closes.  Starts and ends are indented by the depth they stand at.
    pub open spec fn emit(self, token: Token) -> Doc {
        match token {
            Token::Start(tag) => Doc {
                text: self.text + indent(self.depth()) + "<"@ + tag,
                stack: self.stack.push(tag),
                pending: Some(Pending::Element),
                log: self.log.push(token),
            },
            Token::VoidStart(tag) => Doc {
                text: self.text + indent(self.depth()) + "<"@ + tag,
                stack: self.stack,
                pending: Some(Pending::Void),
                log: self.log.push(token),
            },
            Token::CommentStart => Doc {
                text: self.text + indent(self.depth()) + "<!-- "@,
                stack: self.stack,
                pending: Some(Pending::Comment),
                log: self.log.push(token),
            },
            Token::Attr(attr) => Doc {
                text: self.text + " "@ + attr,
                stack: self.stack,
                pending: self.pending,
                log: self.log.push(token),
            },
            Token::TagEnd => Doc {
                text: self.text + ">\n"@,
                stack: self.stack,
                pending: None,
                log: self.log.push(token),
            },
            Token::CommentEnd => Doc {
                text: self.text + " -->\n"@,
                stack: self.stack,
                pending: None,
                log: self.log.push(token),
            },
            Token::Text(raw) => Doc {
                text: self.text + escaped(raw),
                stack: self.stack,
                pending: self.pending,
                log: self.log.push(token),
            },
            Token::Raw(content) => Doc {
                text: self.text + content,
                stack: self.stack,
                pending: self.pending,
                log: self.log.push(token),
            },
            Token::End(tag) => Doc {
                text: self.text + indent((self.depth() - 1) as nat) + "</"@ + tag + ">\n"@,
                stack: self.stack.drop_last(),
                pending: self.pending,
                log: self.log.push(token),
            },
        }
    }

    /// The document with whatever was pending terminated.
    pub open spec fn terminated(self) -> Doc {
        match self.pending {
            None => self,
            Some(Pending::Comment) => self.emit(Token::CommentEnd),
            Some(_) => self.emit(Token::TagEnd),
        }
    }

    /// The document with the innermost elements closed, one by one, until
    /// no more than `depth` are open.
    pub open spec fn unwound_to(self, depth: nat) -> Doc
        decreases self.stack.len(),
    {
        if self.stack.len() > depth {
            self.emit(Token::End(self.stack.last())).unwound_to(depth)
        } else {
            self
        }
    }

    /// The document with whatever was pending terminated and everything
    /// deeper than `depth` closed.
    pub open spec fn closed_to(self, depth: nat) -> Doc {
        self.terminated().unwound_to(depth)
    }

    /// The document after a child is opened at `depth`.
    pub open spec fn opened(self, tag: Seq<char>, void: bool, depth: nat) -> Doc {
        self.closed_to(depth).emit(
            if void {
                Token::VoidStart(tag)
            } else {
                Token::Start(tag)
            },
        )
    }

    /// The document after a comment is opened at `depth`.
    pub open spec fn commented(self, depth: nat) -> Doc {
        self.closed_to(depth).emit(Token::CommentStart)
    }

    /// The document after an attribute is added to the pending start tag;
    /// unchanged if no start tag is pending.
    pub open spec fn with_attr(self, attr: Seq<char>) -> Doc {
        if self.tag_pending() {
            self.emit(Token::Attr(attr))
        } else {
            self
        }
    }

    /// The document after an attribute is added to the element whose
    /// content nests at `depth`; unchanged if that element's start tag is no
    /// longer pending.
    pub open spec fn attributed(self, attr: Seq<char>, depth: nat) -> Doc {
        if self.start_pending(depth) {
            self.emit(Token::Attr(attr))
        } else {
            self
        }
    }

    /// The document after text content is written at `depth`.
    pub open spec fn written(self, raw: Seq<char>, depth: nat) -> Doc {
        self.closed_to(depth).emit(Token::Text(raw))
    }

    /// The document after content is written into the pending comment;
    /// unchanged if no comment is pending.
    pub open spec fn with_raw(self, content: Seq<char>) -> Doc {
        if self.pending == Some(Pending::Comment) {
            self.emit(Token::Raw(content))
        } else {
            self
        }
    }

    /// The text of the finished document.
    pub open spec fn finished(self) -> Seq<char> {
        self.closed_to(0).text
    }

    /// The document after `op`.
    pub open spec fn apply(self, op: Op) -> Doc {
        match op {
            Op::Child { tag, depth } => self.opened(tag, false, depth),
            Op::VoidChild { tag, depth } => self.opened(tag, true, depth),
            Op::Comment { depth } => self.commented(depth),
            Op::Write { text, depth } => self.written(text, depth),
            Op::Attr { attr, depth } => self.attributed(attr, depth),
            Op::VoidAttr { attr } => self.with_attr(attr),
            Op::CommentWrite { content } => self.with_raw(content),
        }
    }

    /// Whether the grammar allows every token emitted so far in its place,
    /// and the text, the open elements and what is pending are what those
    /// tokens amount to.
    pub open spec fn valid(self) -> bool {
        replay(self.log) == Some(self)
    }

    /// Whether the document is valid and at least `depth` elements are
    /// open: what a handle of that depth needs to act.
    pub open spec fn open_at(self, depth: nat) -> bool {
        self.valid() && depth <= self.depth()
    }

    /// Whether the document is valid, every element closed and nothing
    /// pending.
    pub open spec fn complete(self) -> bool {
        self.valid() && self.stack.len() == 0 && self.pending is None
    }
}

/// What closing the elements of `stack` that lie deeper than `depth` writes:
/// one end tag for each, innermost first.
pub open spec fn closing_text(stack: Seq<Seq<char>>, depth: nat) -> Seq<char>
    decreases stack.len(),
{
    if stack.len() > depth {
        indent((stack.len() - 1) as nat) + "</"@ + stack.last() + ">\n"@ + closing_text(
            stack.drop_last(),
            depth,
        )
    } else {
        Seq::empty()
    }
}

/// The tokens that closing the elements of `stack` that lie deeper than
/// `depth` emits: one end for each, innermost first.
pub open spec fn closing_tokens(stack: Seq<Seq<char>>, depth: nat) -> Seq<Token> {
    if stack.len() > depth {
        Seq::new((stack.len() - depth) as nat, |i: int| Token::End(stack[stack.len() - 1 - i]))
    } else {
        Seq::empty()
    }
}

/// The document that `log` builds from nothing, if the grammar allows every
/// token of it in its place.
pub open spec fn replay(log: Seq<Token>) -> Option<Doc>
    decreases log.len(),
{
    if log.len() == 0 {
        Some(Doc::empty())
    } else {
        match replay(log.drop_last()) {
            Some(doc) => if doc.accepts(log.last()) {
                Some(doc.emit(log.last()))
            } else {
                None
            },
            None => None,
        }
    }
}

/// The document that `ops` build from nothing.
pub open spec fn run(ops: Seq<Op>) -> Doc
    decreases ops.len(),
{
    if ops.len() == 0 {
        Doc::empty()
    } else {
        run(ops.drop_last()).apply(ops.last())
    }
}

/// The tags of the starts in `log` that no end has matched yet, outermost
/// first; `None` if some end does not match the innermost open start.
pub open spec fn unmatched(log: Seq<Token>) -> Option<Seq<Seq<char>>>
    decreases log.len(),
{
    if log.len() == 0 {
        Some(Seq::empty())
    } else {
        match unmatched(log.drop_last()) {
            Some(open) => match log.last() {
                Token::Start(tag) => Some(open.push(tag)),
                Token::End(tag) => if open.len() > 0 && open.last() == tag {
                    Some(open.drop_last())
                } else {
                    None
                },
                _ => Some(open),
            },
            None => None,
        }
    }
}

/// Whether every start in `log` is matched by an end of the same tag, and
/// the pairs are properly nested.
pub open spec fn balanced(log: Seq<Token>) -> bool {
    unmatched(log) == Some(Seq::<Seq<char>>::empty())
}

} // verus!
