use html_builder::{Buffer, Html5};

#[test]
fn empty_buffer_finishes_empty() {
    assert_eq!(Buffer::new().finish(), "");
}

#[test]
fn default_buffer_is_empty() {
    assert_eq!(Buffer::default().finish(), "");
}

#[test]
fn finish_terminates_a_pending_start_tag() {
    let mut buf = Buffer::new();
    buf.child("p".into());
    assert_eq!(buf.finish(), "<p>\n</p>\n");
}

#[test]
fn finish_closes_every_open_element_once() {
    let mut buf = Buffer::new();
    let mut a = buf.child("a".into());
    let mut b = a.child("b".into());
    let mut c = b.child("c".into());
    c.child("d".into());
    assert_eq!(
        buf.finish(),
        "<a>\n <b>\n  <c>\n   <d>\n   </d>\n  </c>\n </b>\n</a>\n"
    );
}

#[test]
fn finish_terminates_a_pending_comment() {
    let mut buf = Buffer::new();
    let mut a = buf.child("a".into());
    a.comment().write_str("note").unwrap();
    assert_eq!(buf.finish(), "<a>\n <!-- note -->\n</a>\n");
}

#[test]
fn void_element_takes_attributes_and_no_end_tag() {
    let mut buf = Buffer::new();
    buf.void_child("img".into())
        .attr("src='a.png'")
        .attr("alt='A'");
    assert_eq!(buf.finish(), "<img src='a.png' alt='A'>\n");
}

#[test]
fn void_element_refuses_content() {
    let mut buf = Buffer::new();
    let mut img = buf
        .void_child("img".into())
        .attr("src='a.png'")
        .attr("alt='A'");
    assert!(img.write_str("inside").is_err());
    assert!(img.write_str("").is_err());
    let img = img.attr("width='1'");
    assert_eq!(img.ctx.depth(), 0);
    assert_eq!(buf.finish(), "<img src='a.png' alt='A' width='1'>\n");
}

#[test]
fn content_after_a_void_element_goes_to_the_parent() {
    let mut buf = Buffer::new();
    let mut p = buf.child("p".into());
    p.void_child("br".into()).attr("class='x'");
    p.write_str("after").unwrap();
    assert_eq!(buf.finish(), "<p>\n <br class='x'>\nafter</p>\n");
}

#[test]
fn operation_on_parent_closes_child_and_its_descendants() {
    let mut buf = Buffer::new();
    let mut a = buf.child("a".into());
    let mut b = a.child("b".into());
    let mut c = b.child("c".into());
    c.child("d".into());
    a.write_str("back in a").unwrap();
    assert_eq!(
        buf.finish(),
        "<a>\n <b>\n  <c>\n   <d>\n   </d>\n  </c>\n </b>\nback in a</a>\n"
    );
}

#[test]
fn sibling_opens_after_the_first_child_is_closed() {
    let mut buf = Buffer::new();
    let mut ul = buf.child("ul".into());
    ul.child("li".into()).write_str("one").unwrap();
    ul.child("li".into()).write_str("two").unwrap();
    assert_eq!(
        buf.finish(),
        "<ul>\n <li>\none </li>\n <li>\ntwo </li>\n</ul>\n"
    );
}

#[test]
fn writing_on_the_buffer_closes_everything() {
    let mut buf = Buffer::new();
    let mut a = buf.child("a".into());
    a.child("b".into());
    buf.write_str("top").unwrap();
    assert_eq!(buf.finish(), "<a>\n <b>\n </b>\n</a>\ntop");
}

#[test]
fn several_writes_on_one_handle_close_nothing() {
    let mut buf = Buffer::new();
    let mut p = buf.child("p".into());
    p.write_str("one ").unwrap();
    p.write_str("two ").unwrap();
    p.write_str("three").unwrap();
    assert_eq!(buf.finish(), "<p>\none two three</p>\n");
}

#[test]
fn children_are_indented_by_their_depth() {
    let mut buf = Buffer::new();
    let mut d0 = buf.child("d0".into());
    let mut d1 = d0.child("d1".into());
    let mut d2 = d1.child("d2".into());
    let mut d3 = d2.child("d3".into());
    d3.void_child("leaf".into());
    assert_eq!(
        buf.finish(),
        "<d0>\n <d1>\n  <d2>\n   <d3>\n    <leaf>\n   </d3>\n  </d2>\n </d1>\n</d0>\n"
    );
}

#[test]
fn attributes_go_into_the_start_tag_in_order() {
    let mut buf = Buffer::new();
    buf.child("a".into())
        .attr("href='/'")
        .attr("class='home'")
        .write_str("Home")
        .unwrap();
    assert_eq!(buf.finish(), "<a href='/' class='home'>\nHome</a>\n");
}

#[test]
fn attribute_after_content_changes_nothing() {
    let mut buf = Buffer::new();
    let mut p = buf.child("p".into());
    p.write_str("text").unwrap();
    let mut p = p.attr("class='late'");
    p.write_str(" more").unwrap();
    assert_eq!(buf.finish(), "<p>\ntext more</p>\n");
}

#[test]
fn attribute_after_a_child_changes_nothing() {
    let mut buf = Buffer::new();
    let mut a = buf.child("a".into());
    a.child("b".into());
    a.attr("class='late'");
    assert_eq!(buf.finish(), "<a>\n <b>\n </b>\n</a>\n");
}

#[test]
fn attribute_after_a_void_child_changes_nothing() {
    let mut buf = Buffer::new();
    let mut a = buf.child("a".into());
    a.void_child("br".into());
    a.attr("class='late'");
    assert_eq!(buf.finish(), "<a>\n <br>\n</a>\n");
}

#[test]
fn attribute_after_a_comment_changes_nothing() {
    let mut buf = Buffer::new();
    let mut a = buf.child("a".into());
    a.comment().write_str("note").unwrap();
    a.attr("class='late'");
    assert_eq!(buf.finish(), "<a>\n <!-- note -->\n</a>\n");
}

#[test]
fn text_is_escaped() {
    let mut buf = Buffer::new();
    buf.child("p".into())
        .write_str("a > b && a < c")
        .unwrap();
    assert_eq!(buf.finish(), "<p>\na &gt; b &amp;&amp; a &lt; c</p>\n");
}

#[test]
fn only_ampersand_and_angle_brackets_are_escaped() {
    let mut buf = Buffer::new();
    buf.write_str("\"it's\" 100% caf\u{e9} \u{1F600} / = ;")
        .unwrap();
    assert_eq!(buf.finish(), "\"it's\" 100% caf\u{e9} \u{1F600} / = ;");
}

#[test]
fn escaping_is_not_applied_twice() {
    let mut buf = Buffer::new();
    buf.write_str("&amp; <b>").unwrap();
    assert_eq!(buf.finish(), "&amp;amp; &lt;b&gt;");
}

#[test]
fn empty_text_still_terminates_the_start_tag() {
    let mut buf = Buffer::new();
    buf.child("p".into()).write_str("").unwrap();
    assert_eq!(buf.finish(), "<p>\n</p>\n");
}

#[test]
fn comment_content_is_not_escaped() {
    let mut buf = Buffer::new();
    let mut c = buf.comment();
    c.write_str("a < b & c").unwrap();
    c.write_str(" > d").unwrap();
    assert_eq!(buf.finish(), "<!-- a < b & c > d -->\n");
}

#[test]
fn empty_comment() {
    let mut buf = Buffer::new();
    buf.comment();
    assert_eq!(buf.finish(), "<!--  -->\n");
}

#[test]
fn comment_is_terminated_before_what_follows() {
    let mut buf = Buffer::new();
    let mut div = buf.child("div".into());
    div.comment().write_str("first").unwrap();
    div.write_str("text").unwrap();
    div.comment().write_str("second").unwrap();
    div.child("p".into());
    assert_eq!(
        buf.finish(),
        "<div>\n <!-- first -->\ntext <!-- second -->\n <p>\n </p>\n</div>\n"
    );
}

#[test]
fn doctype_is_a_void_element_with_one_attribute() {
    let mut buf = Buffer::new();
    buf.doctype();
    assert_eq!(buf.finish(), "<!DOCTYPE html>\n");
}

#[test]
fn doctype_below_an_element_is_indented() {
    let mut buf = Buffer::new();
    let mut html = buf.html();
    html.doctype();
    assert_eq!(buf.finish(), "<html>\n <!DOCTYPE html>\n</html>\n");
}

#[test]
fn owned_and_borrowed_tags_are_written_alike() {
    let mut buf = Buffer::new();
    let name = String::from("custom-") + "element";
    buf.child(name.into()).child("x".into());
    assert_eq!(
        buf.finish(),
        "<custom-element>\n <x>\n </x>\n</custom-element>\n"
    );
}

#[test]
fn handles_report_their_depth() {
    let mut buf = Buffer::new();
    let mut a = buf.child("a".into());
    assert_eq!(a.depth, 1);
    let mut b = a.child("b".into());
    assert_eq!(b.depth, 2);
    let c = b.child("c".into());
    assert_eq!(c.depth, 3);
    assert_eq!(c.ctx.depth(), 3);
    let b = a.child("b".into());
    assert_eq!(b.depth, 2);
    assert_eq!(b.ctx.depth(), 2);
}

fn open_tags_of(text: &str) -> Option<Vec<String>> {
    let mut open: Vec<String> = Vec::new();
    for line in text.lines() {
        let line = line.trim_start();
        if let Some(rest) = line.strip_prefix("</") {
            let tag = rest.strip_suffix('>')?;
            if open.pop()? != tag {
                return None;
            }
        } else if let Some(rest) = line.strip_prefix('<') {
            let tag = rest.strip_suffix('>')?;
            if !tag.starts_with("void") {
                open.push(tag.to_string());
            }
        }
    }
    Some(open)
}

#[test]
fn every_start_tag_has_its_end_tag_properly_nested() {
    let mut buf = Buffer::new();
    for i in 0..4 {
        let mut a = buf.child(format!("a{}", i).into());
        for j in 0..3 {
            let mut b = a.child(format!("b{}", j).into());
            b.void_child("void".into());
            let mut c = b.child("c".into());
            c.write_str("text\n").unwrap();
            c.child("d".into()).child("e".into());
            if j == 1 {
                a.write_str("between\n").unwrap();
            }
        }
        if i == 2 {
            buf.write_str("top\n").unwrap();
        }
    }
    let text = buf.finish();
    assert_eq!(open_tags_of(&text), Some(Vec::new()));
    assert_eq!(text.matches("<c>").count(), 12);
    assert_eq!(text.matches("</c>").count(), 12);
    assert_eq!(text.matches("<e>").count(), 12);
    assert_eq!(text.matches("</e>").count(), 12);
    assert_eq!(text.matches("<void>").count(), 12);
    assert_eq!(text.matches("</void>").count(), 0);
}

#[test]
fn a_small_page() {
    let mut buf = Buffer::new();
    buf.doctype();
    let mut html = buf.html().attr("lang='en'");
    let mut head = html.head();
    head.title().write_str("Title!\n").unwrap();
    head.meta().attr("charset='utf-8'");
    let mut body = html.body();
    body.h1().write_str("Header!\n").unwrap();
    body.comment().write_str("Thanks for reading").unwrap();
    let expected = "\
<!DOCTYPE html>
<html lang='en'>
 <head>
  <title>
Title!
  </title>
  <meta charset='utf-8'>
 </head>
 <body>
  <h1>
Header!
  </h1>
  <!-- Thanks for reading -->
 </body>
</html>
";
    assert_eq!(buf.finish(), expected);
}
