use html_builder::{Ctx, Pending};

#[test]
fn new_context_is_empty() {
    let ctx = Ctx::new();
    assert_eq!(ctx.depth(), 0);
    assert_eq!(ctx.pending(), None);
    assert_eq!(ctx.finish(), "");
}

#[test]
fn open_leaves_the_start_tag_pending() {
    let mut ctx = Ctx::new();
    assert_eq!(ctx.open("a".into(), false, 0), 1);
    assert_eq!(ctx.depth(), 1);
    assert_eq!(ctx.pending(), Some(Pending::Element));
    assert_eq!(ctx.open("b".into(), false, 1), 2);
    assert_eq!(ctx.pending(), Some(Pending::Element));
    assert_eq!(ctx.finish(), "<a>\n <b>\n </b>\n</a>\n");
}

#[test]
fn open_void_pushes_nothing() {
    let mut ctx = Ctx::new();
    ctx.open("a".into(), false, 0);
    assert_eq!(ctx.open("br".into(), true, 1), 1);
    assert_eq!(ctx.depth(), 1);
    assert_eq!(ctx.pending(), Some(Pending::Void));
    assert_eq!(ctx.finish(), "<a>\n <br>\n</a>\n");
}

#[test]
fn open_comment_leaves_the_comment_pending() {
    let mut ctx = Ctx::new();
    ctx.open("a".into(), false, 0);
    ctx.open_comment(1);
    assert_eq!(ctx.depth(), 1);
    assert_eq!(ctx.pending(), Some(Pending::Comment));
    ctx.append_raw("x");
    assert_eq!(ctx.finish(), "<a>\n <!-- x -->\n</a>\n");
}

#[test]
fn close_unclosed_terminates_once() {
    let mut ctx = Ctx::new();
    ctx.open("a".into(), false, 0);
    ctx.close_unclosed();
    assert_eq!(ctx.pending(), None);
    assert_eq!(ctx.depth(), 1);
    ctx.close_unclosed();
    assert_eq!(ctx.pending(), None);
    assert_eq!(ctx.finish(), "<a>\n</a>\n");
}

#[test]
fn close_deeper_than_leaves_the_outer_elements_open() {
    let mut ctx = Ctx::new();
    ctx.open("a".into(), false, 0);
    ctx.open("b".into(), false, 1);
    ctx.open("c".into(), false, 2);
    ctx.open("d".into(), false, 3);
    ctx.close_deeper_than(2);
    assert_eq!(ctx.depth(), 2);
    assert_eq!(ctx.pending(), None);
    ctx.close_deeper_than(2);
    assert_eq!(ctx.depth(), 2);
    ctx.close_deeper_than(7);
    assert_eq!(ctx.depth(), 2);
    ctx.append_text("x", 2);
    assert_eq!(
        ctx.finish(),
        "<a>\n <b>\n  <c>\n   <d>\n   </d>\n  </c>\nx </b>\n</a>\n"
    );
}

#[test]
fn open_at_a_shallower_depth_closes_first() {
    let mut ctx = Ctx::new();
    ctx.open("a".into(), false, 0);
    ctx.open("b".into(), false, 1);
    ctx.open("c".into(), false, 2);
    assert_eq!(ctx.open("d".into(), false, 1), 2);
    assert_eq!(ctx.finish(), "<a>\n <b>\n  <c>\n  </c>\n </b>\n <d>\n </d>\n</a>\n");
}

#[test]
fn append_attribute_needs_a_pending_start_tag() {
    let mut ctx = Ctx::new();
    ctx.append_attribute("x");
    ctx.open("a".into(), false, 0);
    ctx.append_attribute("id='1'");
    ctx.append_text("t", 1);
    ctx.append_attribute("y");
    ctx.open_comment(1);
    ctx.append_attribute("z");
    ctx.open("br".into(), true, 1);
    ctx.append_attribute("id='2'");
    assert_eq!(ctx.finish(), "<a id='1'>\nt <!--  -->\n <br id='2'>\n</a>\n");
}

#[test]
fn append_raw_needs_a_pending_comment() {
    let mut ctx = Ctx::new();
    ctx.append_raw("x");
    ctx.open("a".into(), false, 0);
    ctx.append_raw("y");
    ctx.open_comment(1);
    ctx.append_raw("<z>");
    ctx.close_unclosed();
    ctx.append_raw("w");
    assert_eq!(ctx.finish(), "<a>\n <!-- <z> -->\n</a>\n");
}

#[test]
fn append_text_escapes() {
    let mut ctx = Ctx::new();
    ctx.append_text("<&>", 0);
    assert_eq!(ctx.finish(), "&lt;&amp;&gt;");
}
