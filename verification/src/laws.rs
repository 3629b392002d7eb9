//! What holds of every document, whatever is done to it.

use crate::document::{
    balanced, closing_text, closing_tokens, indent, replay, run, unmatched, Doc, Op, Pending,
    Token,
};
use crate::escape::{escaped, escaped_char};
use vstd::prelude::*;

verus! {

/// The empty document is valid.
pub proof fn lemma_empty_valid()
    ensures
        Doc::empty().valid(),
{
}

/// A token that the grammar allows leads from a valid document to a valid
/// document.
pub proof fn lemma_emit_valid(doc: Doc, token: Token)
    requires
        doc.valid(),
        doc.accepts(token),
    ensures
        doc.emit(token).valid(),
{
    assert(doc.emit(token).log.drop_last() =~= doc.log);
}

/// Terminating what is pending keeps a document valid and leaves nothing
/// pending; the open elements stay as they are.
pub proof fn lemma_terminated(doc: Doc)
    requires
        doc.valid(),
    ensures
        doc.terminated().valid(),
        doc.terminated().pending is None,
        doc.terminated().stack == doc.stack,
{
    match doc.pending {
        None => {},
        Some(Pending::Comment) => lemma_emit_valid(doc, Token::CommentEnd),
        Some(_) => lemma_emit_valid(doc, Token::TagEnd),
    }
}

/// Closing the innermost elements emits one end for each of them, innermost
/// first, and leaves the outer `depth` elements open.
pub proof fn lemma_unwound(doc: Doc, depth: nat)
    ensures
        doc.unwound_to(depth).text == doc.text + closing_text(doc.stack, depth),
        doc.unwound_to(depth).log == doc.log + closing_tokens(doc.stack, depth),
        doc.unwound_to(depth).pending == doc.pending,
        doc.stack.len() > depth ==> doc.unwound_to(depth).stack == doc.stack.take(depth as int),
        doc.stack.len() <= depth ==> doc.unwound_to(depth).stack == doc.stack,
    decreases doc.stack.len(),
{
    if doc.stack.len() > depth {
        let next = doc.emit(Token::End(doc.stack.last()));
        lemma_unwound(next, depth);
    }
}

/// Closing the innermost elements keeps a document valid.
pub proof fn lemma_unwound_valid(doc: Doc, depth: nat)
    requires
        doc.valid(),
        doc.pending is None,
    ensures
        doc.unwound_to(depth).valid(),
    decreases doc.stack.len(),
{
    if doc.stack.len() > depth {
        let token = Token::End(doc.stack.last());
        lemma_emit_valid(doc, token);
        lemma_unwound_valid(doc.emit(token), depth);
    }
}

/// Closing down to `depth` keeps a document valid, leaves nothing pending
/// and no more than `depth` elements open: exactly the outer `depth` ones
/// where there were as many.
pub proof fn lemma_closed_to(doc: Doc, depth: nat)
    requires
        doc.valid(),
    ensures
        doc.closed_to(depth).valid(),
        doc.closed_to(depth).pending is None,
        doc.closed_to(depth).text == doc.terminated().text + closing_text(doc.stack, depth),
        doc.closed_to(depth).log == doc.terminated().log + closing_tokens(doc.stack, depth),
        doc.stack.len() > depth ==> doc.closed_to(depth).stack == doc.stack.take(depth as int),
        doc.stack.len() <= depth ==> doc.closed_to(depth).stack == doc.stack,
{
    lemma_terminated(doc);
    lemma_unwound(doc.terminated(), depth);
    lemma_unwound_valid(doc.terminated(), depth);
}

/// Finishing a valid document closes every open element and leaves nothing
/// pending, and the tokens emitted for it are balanced.
pub proof fn lemma_finished_complete(doc: Doc)
    requires
        doc.valid(),
    ensures
        doc.closed_to(0).complete(),
        balanced(doc.closed_to(0).log),
{
    lemma_closed_to(doc, 0);
    lemma_complete_balanced(doc.closed_to(0));
}

/// Every operation of a handle leads from a valid document to a valid
/// document.
pub proof fn lemma_operations_valid(
    doc: Doc,
    tag: Seq<char>,
    void: bool,
    text: Seq<char>,
    depth: nat,
)
    requires
        doc.valid(),
    ensures
        doc.opened(tag, void, depth).valid(),
        doc.commented(depth).valid(),
        doc.written(text, depth).valid(),
        doc.attributed(text, depth).valid(),
        doc.with_attr(text).valid(),
        doc.with_raw(text).valid(),
{
    lemma_closed_to(doc, depth);
    let closed = doc.closed_to(depth);
    if void {
        lemma_emit_valid(closed, Token::VoidStart(tag));
    } else {
        lemma_emit_valid(closed, Token::Start(tag));
    }
    lemma_emit_valid(closed, Token::CommentStart);
    lemma_emit_valid(closed, Token::Text(text));
    if doc.tag_pending() {
        lemma_emit_valid(doc, Token::Attr(text));
    }
    if doc.pending == Some(Pending::Comment) {
        lemma_emit_valid(doc, Token::Raw(text));
    }
}

/// The elements that a document has open are the starts of its tokens that
/// no end has matched: the grammar allows an end tag only for the innermost
/// open element.
pub proof fn lemma_replay_unmatched(log: Seq<Token>)
    requires
        replay(log) is Some,
    ensures
        unmatched(log) == Some(replay(log)->0.stack),
    decreases log.len(),
{
    if log.len() > 0 {
        lemma_replay_unmatched(log.drop_last());
    }
}

/// Balance: in the tokens of a complete document every start is matched by
/// an end of the same tag, and the pairs are properly nested.
pub proof fn lemma_complete_balanced(doc: Doc)
    requires
        doc.complete(),
    ensures
        balanced(doc.log),
{
    lemma_replay_unmatched(doc.log);
    assert(doc.stack =~= Seq::<Seq<char>>::empty());
}

/// Balance: whatever operations are issued, in whatever order and at
/// whatever depths, the document is valid after each of them, and finishing
/// it then gives a complete document, in whose tokens every start is matched
/// by an end of the same tag, the pairs properly nested.
pub proof fn lemma_balance(ops: Seq<Op>)
    ensures
        run(ops).valid(),
        run(ops).closed_to(0).complete(),
        balanced(run(ops).closed_to(0).log),
    decreases ops.len(),
{
    if ops.len() == 0 {
        lemma_empty_valid();
    } else {
        let before = run(ops.drop_last());
        lemma_balance(ops.drop_last());
        match ops.last() {
            Op::Child { tag, depth } => lemma_operations_valid(before, tag, false, tag, depth),
            Op::VoidChild { tag, depth } => lemma_operations_valid(before, tag, true, tag, depth),
            Op::Comment { depth } => lemma_operations_valid(
                before,
                Seq::empty(),
                false,
                Seq::empty(),
                depth,
            ),
            Op::Write { text, depth } => lemma_operations_valid(before, text, false, text, depth),
            Op::Attr { attr, depth } => lemma_operations_valid(before, attr, false, attr, depth),
            Op::VoidAttr { attr } => lemma_operations_valid(before, attr, false, attr, 0),
            Op::CommentWrite { content } => lemma_operations_valid(
                before,
                content,
                false,
                content,
                0,
            ),
        }
    }
    lemma_finished_complete(run(ops));
}

/// Depth after closing: where at least `depth` elements are open, closing
/// down to `depth` leaves exactly those `depth` open, and the operation that
/// follows at that depth stands at it: a child nests one deeper, a void
/// child, a comment or text leaves the depth as it is.
pub proof fn lemma_depth_after_close(doc: Doc, tag: Seq<char>, text: Seq<char>, depth: nat)
    requires
        doc.valid(),
        depth <= doc.depth(),
    ensures
        doc.closed_to(depth).depth() == depth,
        doc.closed_to(depth).stack == doc.stack.take(depth as int),
        doc.opened(tag, false, depth).depth() == depth + 1,
        doc.opened(tag, false, depth).stack == doc.stack.take(depth as int).push(tag),
        doc.opened(tag, true, depth).depth() == depth,
        doc.commented(depth).depth() == depth,
        doc.written(text, depth).depth() == depth,
{
    lemma_closed_to(doc, depth);
}

/// Nothing is left to close: after closing down to `depth` no element
/// deeper than `depth` is open, and closing down to `depth` again changes
/// nothing, so an operation at that depth writes what is its own and no end
/// tag before it.
pub proof fn lemma_close_then_act(
    doc: Doc,
    tag: Seq<char>,
    void: bool,
    text: Seq<char>,
    depth: nat,
)
    requires
        doc.valid(),
    ensures
        doc.closed_to(depth).depth() <= depth,
        doc.closed_to(depth).pending is None,
        doc.closed_to(depth).closed_to(depth) == doc.closed_to(depth),
        doc.closed_to(depth).opened(tag, void, depth) == doc.opened(tag, void, depth),
        doc.closed_to(depth).commented(depth) == doc.commented(depth),
        doc.closed_to(depth).written(text, depth) == doc.written(text, depth),
{
    lemma_closed_to(doc, depth);
}

/// Finishing closes each open element exactly once, innermost first, after
/// terminating what was pending; and what is finished has nothing open, so
/// finishing it again would add nothing.
pub proof fn lemma_finish_once(doc: Doc)
    requires
        doc.valid(),
    ensures
        doc.finished() == doc.terminated().text + closing_text(doc.stack, 0),
        doc.closed_to(0).log == doc.terminated().log + closing_tokens(doc.stack, 0),
        closing_tokens(doc.stack, 0).len() == doc.stack.len(),
        forall|i: int|
            0 <= i < doc.stack.len() ==> closing_tokens(doc.stack, 0)[i] == Token::End(
                doc.stack[doc.stack.len() - 1 - i],
            ),
        doc.closed_to(0).stack.len() == 0,
        doc.closed_to(0).pending is None,
        doc.closed_to(0).closed_to(0) == doc.closed_to(0),
{
    lemma_closed_to(doc, 0);
}

/// Stale handle: an operation at `depth` on a document in which deeper
/// elements are open first terminates what is pending and closes all of the
/// deeper elements, innermost first, and only then writes what is its own.
pub proof fn lemma_stale_handle(
    doc: Doc,
    tag: Seq<char>,
    void: bool,
    text: Seq<char>,
    depth: nat,
)
    requires
        doc.valid(),
        depth <= doc.depth(),
    ensures
        doc.written(text, depth).text == doc.terminated().text + closing_text(doc.stack, depth)
            + escaped(text),
        doc.opened(tag, void, depth).text == doc.terminated().text + closing_text(
            doc.stack,
            depth,
        ) + indent(depth) + "<"@ + tag,
        doc.commented(depth).text == doc.terminated().text + closing_text(doc.stack, depth)
            + indent(depth) + "<!-- "@,
        doc.written(text, depth).stack == doc.stack.take(depth as int),
        doc.opened(tag, true, depth).stack == doc.stack.take(depth as int),
        doc.commented(depth).stack == doc.stack.take(depth as int),
{
    lemma_depth_after_close(doc, tag, text, depth);
    lemma_closed_to(doc, depth);
}

/// Stale handle, for one child: when a child was opened through a handle at
/// `depth` and nothing else since, text written through that handle comes
/// after the child's start tag is terminated and its end tag written, and
/// the child is open no more.
pub proof fn lemma_parent_closes_child(parent: Doc, tag: Seq<char>, text: Seq<char>, depth: nat)
    requires
        parent.valid(),
        depth <= parent.depth(),
    ensures
        ({
            let child = parent.opened(tag, false, depth);
            &&& child.stack == parent.stack.take(depth as int).push(tag)
            &&& child.written(text, depth).text == child.text + ">\n"@ + indent(depth) + "</"@ + tag
                + ">\n"@ + escaped(text)
            &&& child.written(text, depth).stack == parent.stack.take(depth as int)
        }),
{
    let child = parent.opened(tag, false, depth);
    lemma_operations_valid(parent, tag, false, text, depth);
    lemma_depth_after_close(parent, tag, text, depth);
    lemma_stale_handle(child, tag, false, text, depth);
    assert(closing_text(child.stack.drop_last(), depth) =~= Seq::<char>::empty());
}

/// Append only: closing only adds to the text and to the tokens of a
/// document; what was written before stays as it was.
pub proof fn lemma_closing_appends(doc: Doc, depth: nat)
    ensures
        doc.text.is_prefix_of(doc.closed_to(depth).text),
        doc.log.is_prefix_of(doc.closed_to(depth).log),
{
    lemma_unwound(doc.terminated(), depth);
}

/// Append only: every operation only adds to the text and to the tokens of
/// a document; what was written before stays as it was.
pub proof fn lemma_append_only(doc: Doc, op: Op)
    ensures
        doc.text.is_prefix_of(doc.apply(op).text),
        doc.log.is_prefix_of(doc.apply(op).log),
{
    match op {
        Op::Child { depth, .. } => lemma_closing_appends(doc, depth),
        Op::VoidChild { depth, .. } => lemma_closing_appends(doc, depth),
        Op::Comment { depth } => lemma_closing_appends(doc, depth),
        Op::Write { depth, .. } => lemma_closing_appends(doc, depth),
        _ => {},
    }
}

/// Escaped text holds no angle bracket.
pub proof fn lemma_escaped_no_markup(raw: Seq<char>)
    ensures
        forall|i: int|
            0 <= i < escaped(raw).len() ==> escaped(raw)[i] != '<' && escaped(raw)[i] != '>',
    decreases raw.len(),
{
    reveal_strlit("&amp;");
    reveal_strlit("&lt;");
    reveal_strlit("&gt;");
    if raw.len() > 0 {
        lemma_escaped_no_markup(raw.drop_last());
        let head = escaped(raw.drop_last());
        let tail = escaped_char(raw.last());
        assert forall|i: int| 0 <= i < escaped(raw).len() implies escaped(raw)[i] != '<'
            && escaped(raw)[i] != '>' by {
            if i >= head.len() {
                assert(escaped(raw)[i] == tail[i - head.len()]);
            }
        }
    }
}

/// Text without `&`, `<` and `>` is written as it is.
pub proof fn lemma_escaped_plain(raw: Seq<char>)
    requires
        forall|i: int| 0 <= i < raw.len() ==> raw[i] != '&' && raw[i] != '<' && raw[i] != '>',
    ensures
        escaped(raw) == raw,
    decreases raw.len(),
{
    if raw.len() > 0 {
        lemma_escaped_plain(raw.drop_last());
    }
}

} // verus!
