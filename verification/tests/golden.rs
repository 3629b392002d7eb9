use html_builder::{Buffer, Html5, Node};

#[test]
fn comment() -> std::fmt::Result {
    let mut buf = Buffer::new();
    let mut node = buf.child("node 1".into());
    let mut comment = node.comment();
    comment.write_str("comment 1A")?;
    let mut comment = node.comment();
    comment.write_str("comment 1B")?;
    let mut node = node.child("node 2".into());
    let mut comment = node.comment();
    comment.write_str("comment 2")?;
    let mut comment = buf.comment();
    comment.write_str("comment 3")?;
    assert_eq!(
        buf.finish(),
        "<node 1>\n <!-- comment 1A -->\n <!-- comment 1B -->\n <node 2>\n  <!-- comment 2 -->\n </node 2>\n</node 1>\n<!-- comment 3 -->\n"
    );
    Ok(())
}

fn figure_with_caption(parent: &mut Node, src: &str, cap: &str) {
    let mut fig = parent.figure();
    fig.img()
        .attr(&format!("src='{}'", src))
        .attr(&format!("alt='{}'", cap));
    fig.figcaption().write_str(&format!("{}\n", cap)).unwrap();
}

#[test]
fn from_readme() -> std::fmt::Result {
    let mut buf = Buffer::new();
    buf.doctype();
    buf.write_str("<!-- My website -->\n")?;
    let mut html = buf.html().attr("lang='en'");
    let mut head = html.head();
    head.title().write_str("Website!\n")?;
    head.meta().attr("charset='utf-8'");
    let mut body = html.body();
    body.h1().write_str("It's a website!\n")?;
    let mut list = body.ul();
    for i in 1..=3 {
        list.li()
            .a()
            .attr(&format!("href='/page_{}.html'", i))
            .write_str(&format!("Page {}\n", i))?
    }
    figure_with_caption(&mut body, "img.jpg", "Awesome image");
    let mut footer = body.footer();
    footer.write_str("Last modified\n")?;
    footer.time().write_str("2021-04-12\n")?;
    let expected = "\
<!DOCTYPE html>
&lt;!-- My website --&gt;
<html lang='en'>
 <head>
  <title>
Website!
  </title>
  <meta charset='utf-8'>
 </head>
 <body>
  <h1>
It's a website!
  </h1>
  <ul>
   <li>
    <a href='/page_1.html'>
Page 1
    </a>
   </li>
   <li>
    <a href='/page_2.html'>
Page 2
    </a>
   </li>
   <li>
    <a href='/page_3.html'>
Page 3
    </a>
   </li>
  </ul>
  <figure>
   <img src='img.jpg' alt='Awesome image'>
   <figcaption>
Awesome image
   </figcaption>
  </figure>
  <footer>
Last modified
   <time>
2021-04-12
   </time>
  </footer>
 </body>
</html>
";
    assert_eq!(buf.finish(), expected);
    Ok(())
}

#[test]
fn full() {
    let mut root = Buffer::new();
    let mut html = root.child("html".into());
    let mut head = html.child("head".into());
    let mut title = head.child("title".into());
    title.write_str("Foobar\n").unwrap();
    let mut body = html.child("body".into());
    body.write_str("Lorem ipsum\n").unwrap();
    assert_eq!(
        root.finish(),
        "<html>\n <head>\n  <title>\nFoobar\n  </title>\n </head>\n <body>\nLorem ipsum\n </body>\n</html>\n"
    );
}

#[test]
fn elided() {
    let mut root = Buffer::new();
    let mut html = root.child("html".into());
    html.child("head".into())
        .child("title".into())
        .write_str("Foobar\n")
        .unwrap();
    html.child("body".into()).write_str("Lorem ipsum\n").unwrap();
    assert_eq!(
        root.finish(),
        "<html>\n <head>\n  <title>\nFoobar\n  </title>\n </head>\n <body>\nLorem ipsum\n </body>\n</html>\n"
    );
}

#[test]
fn pre_post_inner() {
    let mut buf = Buffer::new();
    let mut a = buf.child("a".into());
    a.write_str("a pre\n").unwrap();
    let mut b = a.child("b".into());
    b.write_str("b pre\n").unwrap();
    let mut c = b.child("c".into());
    c.write_str("c pre\n").unwrap();
    c.write_str("c post\n").unwrap();
    b.write_str("b post\n").unwrap();
    a.write_str("a post\n").unwrap();
    assert_eq!(
        buf.finish(),
        "<a>\na pre\n <b>\nb pre\n  <c>\nc pre\nc post\n  </c>\nb post\n </b>\na post\n</a>\n"
    );
}
