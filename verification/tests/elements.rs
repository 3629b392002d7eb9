use html_builder::{Buffer, Html5};

const ELEMENTS: [&str; 96] = [
    "a", "abbr", "address", "article", "aside", "audio", "b", "bdi", "bdo",
    "blockquote", "body", "button", "canvas", "caption", "cite", "code", "colgroup",
    "data", "datalist", "dd", "del", "details", "dfn", "dialog", "div", "dl", "dt",
    "em", "fieldset", "figcaption", "figure", "footer", "form", "h1", "h2", "h3", "h4",
    "h5", "h6", "head", "header", "html", "i", "iframe", "ins", "kbd", "label",
    "legend", "li", "main", "map", "mark", "meter", "nav", "noscript", "object", "ol",
    "optgroup", "option", "output", "p", "picture", "pre", "progress", "q", "rp", "rt",
    "ruby", "s", "samp", "script", "section", "select", "small", "span", "strong",
    "style", "sub", "summary", "sup", "svg", "table", "tbody", "td", "template",
    "textarea", "tfoot", "th", "thead", "time", "title", "tr", "u", "ul", "var",
    "video",
];

const VOID_ELEMENTS: [&str; 14] = [
    "area", "base", "br", "col", "embed", "hr", "img", "input", "link", "meta",
    "param", "source", "track", "wbr",
];

fn expected(indent: &str) -> String {
    let mut text = String::new();
    for tag in ELEMENTS {
        text += &format!("{indent}<{tag}>\n{indent}</{tag}>\n");
    }
    for tag in VOID_ELEMENTS {
        text += &format!("{indent}<{tag}>\n");
    }
    text
}

#[test]
fn every_helper_of_the_buffer_opens_its_element() {
    let mut buf = Buffer::new();
    buf.a();
    buf.abbr();
    buf.address();
    buf.article();
    buf.aside();
    buf.audio();
    buf.b();
    buf.bdi();
    buf.bdo();
    buf.blockquote();
    buf.body();
    buf.button();
    buf.canvas();
    buf.caption();
    buf.cite();
    buf.code();
    buf.colgroup();
    buf.data();
    buf.datalist();
    buf.dd();
    buf.del();
    buf.details();
    buf.dfn();
    buf.dialog();
    buf.div();
    buf.dl();
    buf.dt();
    buf.em();
    buf.fieldset();
    buf.figcaption();
    buf.figure();
    buf.footer();
    buf.form();
    buf.h1();
    buf.h2();
    buf.h3();
    buf.h4();
    buf.h5();
    buf.h6();
    buf.head();
    buf.header();
    buf.html();
    buf.i();
    buf.iframe();
    buf.ins();
    buf.kbd();
    buf.label();
    buf.legend();
    buf.li();
    buf.main();
    buf.map();
    buf.mark();
    buf.meter();
    buf.nav();
    buf.noscript();
    buf.object();
    buf.ol();
    buf.optgroup();
    buf.option();
    buf.output();
    buf.p();
    buf.picture();
    buf.pre();
    buf.progress();
    buf.q();
    buf.rp();
    buf.rt();
    buf.ruby();
    buf.s();
    buf.samp();
    buf.script();
    buf.section();
    buf.select();
    buf.small();
    buf.span();
    buf.strong();
    buf.style();
    buf.sub();
    buf.summary();
    buf.sup();
    buf.svg();
    buf.table();
    buf.tbody();
    buf.td();
    buf.template();
    buf.textarea();
    buf.tfoot();
    buf.th();
    buf.thead();
    buf.time();
    buf.title();
    buf.tr();
    buf.u();
    buf.ul();
    buf.var();
    buf.video();
    buf.area();
    buf.base();
    buf.br();
    buf.col();
    buf.embed();
    buf.hr();
    buf.img();
    buf.input();
    buf.link();
    buf.meta();
    buf.param();
    buf.source();
    buf.track();
    buf.wbr();
    assert_eq!(buf.finish(), expected(""));
}

#[test]
fn every_helper_of_a_node_opens_its_element() {
    let mut buf = Buffer::new();
    let mut root = buf.child("root".into());
    root.a();
    root.abbr();
    root.address();
    root.article();
    root.aside();
    root.audio();
    root.b();
    root.bdi();
    root.bdo();
    root.blockquote();
    root.body();
    root.button();
    root.canvas();
    root.caption();
    root.cite();
    root.code();
    root.colgroup();
    root.data();
    root.datalist();
    root.dd();
    root.del();
    root.details();
    root.dfn();
    root.dialog();
    root.div();
    root.dl();
    root.dt();
    root.em();
    root.fieldset();
    root.figcaption();
    root.figure();
    root.footer();
    root.form();
    root.h1();
    root.h2();
    root.h3();
    root.h4();
    root.h5();
    root.h6();
    root.head();
    root.header();
    root.html();
    root.i();
    root.iframe();
    root.ins();
    root.kbd();
    root.label();
    root.legend();
    root.li();
    root.main();
    root.map();
    root.mark();
    root.meter();
    root.nav();
    root.noscript();
    root.object();
    root.ol();
    root.optgroup();
    root.option();
    root.output();
    root.p();
    root.picture();
    root.pre();
    root.progress();
    root.q();
    root.rp();
    root.rt();
    root.ruby();
    root.s();
    root.samp();
    root.script();
    root.section();
    root.select();
    root.small();
    root.span();
    root.strong();
    root.style();
    root.sub();
    root.summary();
    root.sup();
    root.svg();
    root.table();
    root.tbody();
    root.td();
    root.template();
    root.textarea();
    root.tfoot();
    root.th();
    root.thead();
    root.time();
    root.title();
    root.tr();
    root.u();
    root.ul();
    root.var();
    root.video();
    root.area();
    root.base();
    root.br();
    root.col();
    root.embed();
    root.hr();
    root.img();
    root.input();
    root.link();
    root.meta();
    root.param();
    root.source();
    root.track();
    root.wbr();
    assert_eq!(
        buf.finish(),
        format!("<root>\n{}</root>\n", expected(" "))
    );
}

#[test]
fn helpers_nest_like_children() {
    let mut buf = Buffer::new();
    let mut html = buf.html();
    let mut body = html.body();
    let mut table = body.table();
    let mut tr = table.tr();
    tr.td().write_str("1").unwrap();
    tr.td().img().attr("src='x'");
    assert_eq!(
        buf.finish(),
        "<html>\n <body>\n  <table>\n   <tr>\n    <td>\n1    </td>\n    <td>\n     <img src='x'>\n    </td>\n   </tr>\n  </table>\n </body>\n</html>\n"
    );
}
