//! Helper methods for the elements of HTML5.

use crate::buffer::Buffer;
use crate::document::{Doc, Token};
use crate::node::{Node, Void};
use std::borrow::Cow;
use vstd::prelude::*;

verus! {

/// Helper methods for generating HTML5 documents.
///
/// Each method opens one element as a child of the handle it is called on,
/// as [`Node::child`] or [`Node::void_child`] does with that element's tag.
pub trait Html5 {
    /// The document that this handle writes into.
    spec fn doc(&self) -> Doc;

    /// The nesting depth at which this handle opens its children.
    spec fn level(&self) -> nat;

    /// Defines the document type
    fn doctype(&mut self)
        requires
            old(self).doc().open_at(old(self).level()),
        ensures
            final(self).doc() == old(self).doc().opened("!DOCTYPE"@, true, old(self).level()).emit(
                Token::Attr("html"@),
            ),
            final(self).doc().open_at(old(self).level()),
            final(self).level() == old(self).level(),
    ;

    /// Defines a hyperlink
    fn a(&mut self) -> (node: Node<'_>)
        requires
            old(self).doc().open_at(old(self).level()),
        ensures
            node.is_child(old(self).doc(), old(self).level(), "a"@),
            final(self).doc() == final(node.ctx)@,
            final(self).level() == old(self).level(),
    ;

    /// Defines an abbreviation or an acronym
    fn abbr(&mut self) -> (node: Node<'_>)
        requires
            old(self).doc().open_at(old(self).level()),
        ensures
            node.is_child(old(self).doc(), old(self).level(), "abbr"@),
            final(self).doc() == final(node.ctx)@,
            final(self).level() == old(self).level(),
    ;

    /// Defines contact information for the author/owner of a document
    fn address(&mut self) -> (node: Node<'_>)
        requires
            old(self).doc().open_at(old(self).level()),
        ensures
            node.is_child(old(self).doc(), old(self).level(), "address"@),
            final(self).doc() == final(node.ctx)@,
            final(self).level() == old(self).level(),
    ;

    /// Defines an area inside an image map
    fn area(&mut self) -> (void: Void<'_>)
        requires
            old(self).doc().open_at(old(self).level()),
        ensures
            void.is_child(old(self).doc(), old(self).level(), "area"@),
            final(self).doc() == final(void.ctx)@,
            final(self).level() == old(self).level(),
    ;

    /// Defines an article
    fn article(&mut self) -> (node: Node<'_>)
        requires
            old(self).doc().open_at(old(self).level()),
        ensures
            node.is_child(old(self).doc(), old(self).level(), "article"@),
            final(self).doc() == final(node.ctx)@,
            final(self).level() == old(self).level(),
    ;

    /// Defines content aside from the page content
    fn aside(&mut self) -> (node: Node<'_>)
        requires
            old(self).doc().open_at(old(self).level()),
        ensures
            node.is_child(old(self).doc(), old(self).level(), "aside"@),
            final(self).doc() == final(node.ctx)@,
            final(self).level() == old(self).level(),
    ;

    /// Defines embedded sound content
    fn audio(&mut self) -> (node: Node<'_>)
        requires
            old(self).doc().open_at(old(self).level()),
        ensures
            node.is_child(old(self).doc(), old(self).level(), "audio"@),
            final(self).doc() == final(node.ctx)@,
            final(self).level() == old(self).level(),
    ;

    /// Defines bold text
    fn b(&mut self) -> (node: Node<'_>)
        requires
            old(self).doc().open_at(old(self).level()),
        ensures
            node.is_child(old(self).doc(), old(self).level(), "b"@),
            final(self).doc() == final(node.ctx)@,
            final(self).level() == old(self).level(),
    ;

    /// Specifies the base URL/target for all relative URLs in a document
    fn base(&mut self) -> (void: Void<'_>)
        requires
            old(self).doc().open_at(old(self).level()),
        ensures
            void.is_child(old(self).doc(), old(self).level(), "base"@),
            final(self).doc() == final(void.ctx)@,
            final(self).level() == old(self).level(),
    ;

    /// Isolates a part of text that might be formatted in a different direction from other text outside it
    fn bdi(&mut self) -> (node: Node<'_>)
        requires
            old(self).doc().open_at(old(self).level()),
        ensures
            node.is_child(old(self).doc(), old(self).level(), "bdi"@),
            final(self).doc() == final(node.ctx)@,
            final(self).level() == old(self).level(),
    ;

    /// Overrides the current text direction
    fn bdo(&mut self) -> (node: Node<'_>)
        requires
            old(self).doc().open_at(old(self).level()),
        ensures
            node.is_child(old(self).doc(), old(self).level(), "bdo"@),
            final(self).doc() == final(node.ctx)@,
            final(self).level() == old(self).level(),
    ;

    /// Defines a section that is quoted from another source
    fn blockquote(&mut self) -> (node: Node<'_>)
        requires
            old(self).doc().open_at(old(self).level()),
        ensures
            node.is_child(old(self).doc(), old(self).level(), "blockquote"@),
            final(self).doc() == final(node.ctx)@,
            final(self).level() == old(self).level(),
    ;

    /// Defines the document's body
    fn body(&mut self) -> (node: Node<'_>)
        requires
            old(self).doc().open_at(old(self).level()),
        ensures
            node.is_child(old(self).doc(), old(self).level(), "body"@),
            final(self).doc() == final(node.ctx)@,
            final(self).level() == old(self).level(),
    ;

    /// Defines a single line break
    fn br(&mut self) -> (void: Void<'_>)
        requires
            old(self).doc().open_at(old(self).level()),
        ensures
            void.is_child(old(self).doc(), old(self).level(), "br"@),
            final(self).doc() == final(void.ctx)@,
            final(self).level() == old(self).level(),
    ;

    /// Defines a clickable button
    fn button(&mut self) -> (node: Node<'_>)
        requires
            old(self).doc().open_at(old(self).level()),
        ensures
            node.is_child(old(self).doc(), old(self).level(), "button"@),
            final(self).doc() == final(node.ctx)@,
            final(self).level() == old(self).level(),
    ;

    /// Used to draw graphics, on the fly, via scripting (usually JavaScript)
    fn canvas(&mut self) -> (node: Node<'_>)
        requires
            old(self).doc().open_at(old(self).level()),
        ensures
            node.is_child(old(self).doc(), old(self).level(), "canvas"@),
            final(self).doc() == final(node.ctx)@,
            final(self).level() == old(self).level(),
    ;

    /// Defines a table caption
    fn caption(&mut self) -> (node: Node<'_>)
        requires
            old(self).doc().open_at(old(self).level()),
        ensures
            node.is_child(old(self).doc(), old(self).level(), "caption"@),
            final(self).doc() == final(node.ctx)@,
            final(self).level() == old(self).level(),
    ;

    /// Defines the title of a work
    fn cite(&mut self) -> (node: Node<'_>)
        requires
            old(self).doc().open_at(old(self).level()),
        ensures
            node.is_child(old(self).doc(), old(self).level(), "cite"@),
            final(self).doc() == final(node.ctx)@,
            final(self).level() == old(self).level(),
    ;

    /// Defines a piece of computer code
    fn code(&mut self) -> (node: Node<'_>)
        requires
            old(self).doc().open_at(old(self).level()),
        ensures
            node.is_child(old(self).doc(), old(self).level(), "code"@),
            final(self).doc() == final(node.ctx)@,
            final(self).level() == old(self).level(),
    ;

    /// Specifies what the columns within a <colgroup> element have in common
    fn col(&mut self) -> (void: Void<'_>)
        requires
            old(self).doc().open_at(old(self).level()),
        ensures
            void.is_child(old(self).doc(), old(self).level(), "col"@),
            final(self).doc() == final(void.ctx)@,
            final(self).level() == old(self).level(),
    ;

    /// Specifies a group of one or more columns in a table for formatting
    fn colgroup(&mut self) -> (node: Node<'_>)
        requires
            old(self).doc().open_at(old(self).level()),
        ensures
            node.is_child(old(self).doc(), old(self).level(), "colgroup"@),
            final(self).doc() == final(node.ctx)@,
            final(self).level() == old(self).level(),
    ;

    /// Links a given content with a machine-readable value
    fn data(&mut self) -> (node: Node<'_>)
        requires
            old(self).doc().open_at(old(self).level()),
        ensures
            node.is_child(old(self).doc(), old(self).level(), "data"@),
            final(self).doc() == final(node.ctx)@,
            final(self).level() == old(self).level(),
    ;

    /// Specifies a list of pre-defined options for input controls
    fn datalist(&mut self) -> (node: Node<'_>)
        requires
            old(self).doc().open_at(old(self).level()),
        ensures
            node.is_child(old(self).doc(), old(self).level(), "datalist"@),
            final(self).doc() == final(node.ctx)@,
            final(self).level() == old(self).level(),
    ;

    /// Defines a description/value of a term in a description list
    fn dd(&mut self) -> (node: Node<'_>)
        requires
            old(self).doc().open_at(old(self).level()),
        ensures
            node.is_child(old(self).doc(), old(self).level(), "dd"@),
            final(self).doc() == final(node.ctx)@,
            final(self).level() == old(self).level(),
    ;

    /// Defines text that has been deleted from a document
    fn del(&mut self) -> (node: Node<'_>)
        requires
            old(self).doc().open_at(old(self).level()),
        ensures
            node.is_child(old(self).doc(), old(self).level(), "del"@),
            final(self).doc() == final(node.ctx)@,
            final(self).level() == old(self).level(),
    ;

    /// Defines additional details that the user can view or hide
    fn details(&mut self) -> (node: Node<'_>)
        requires
            old(self).doc().open_at(old(self).level()),
        ensures
            node.is_child(old(self).doc(), old(self).level(), "details"@),
            final(self).doc() == final(node.ctx)@,
            final(self).level() == old(self).level(),
    ;

    /// Specifies a term that is going to be defined within the content
    fn dfn(&mut self) -> (node: Node<'_>)
        requires
            old(self).doc().open_at(old(self).level()),
        ensures
            node.is_child(old(self).doc(), old(self).level(), "dfn"@),
            final(self).doc() == final(node.ctx)@,
            final(self).level() == old(self).level(),
    ;

    /// Defines a dialog box or window
    fn dialog(&mut self) -> (node: Node<'_>)
        requires
            old(self).doc().open_at(old(self).level()),
        ensures
            node.is_child(old(self).doc(), old(self).level(), "dialog"@),
            final(self).doc() == final(node.ctx)@,
            final(self).level() == old(self).level(),
    ;

    /// Defines a section in a document
    fn div(&mut self) -> (node: Node<'_>)
        requires
            old(self).doc().open_at(old(self).level()),
        ensures
            node.is_child(old(self).doc(), old(self).level(), "div"@),
            final(self).doc() == final(node.ctx)@,
            final(self).level() == old(self).level(),
    ;

    /// Defines a description list
    fn dl(&mut self) -> (node: Node<'_>)
        requires
            old(self).doc().open_at(old(self).level()),
        ensures
            node.is_child(old(self).doc(), old(self).level(), "dl"@),
            final(self).doc() == final(node.ctx)@,
            final(self).level() == old(self).level(),
    ;

    /// Defines a term/name in a description list
    fn dt(&mut self) -> (node: Node<'_>)
        requires
            old(self).doc().open_at(old(self).level()),
        ensures
            node.is_child(old(self).doc(), old(self).level(), "dt"@),
            final(self).doc() == final(node.ctx)@,
            final(self).level() == old(self).level(),
    ;

    /// Defines emphasized text
    fn em(&mut self) -> (node: Node<'_>)
        requires
            old(self).doc().open_at(old(self).level()),
        ensures
            node.is_child(old(self).doc(), old(self).level(), "em"@),
            final(self).doc() == final(node.ctx)@,
            final(self).level() == old(self).level(),
    ;

    /// Defines a container for an external application
    fn embed(&mut self) -> (void: Void<'_>)
        requires
            old(self).doc().open_at(old(self).level()),
        ensures
            void.is_child(old(self).doc(), old(self).level(), "embed"@),
            final(self).doc() == final(void.ctx)@,
            final(self).level() == old(self).level(),
    ;

    /// Groups related elements in a form
    fn fieldset(&mut self) -> (node: Node<'_>)
        requires
            old(self).doc().open_at(old(self).level()),
        ensures
            node.is_child(old(self).doc(), old(self).level(), "fieldset"@),
            final(self).doc() == final(node.ctx)@,
            final(self).level() == old(self).level(),
    ;

    /// Defines a caption for a `<figure>` element
    fn figcaption(&mut self) -> (node: Node<'_>)
        requires
            old(self).doc().open_at(old(self).level()),
        ensures
            node.is_child(old(self).doc(), old(self).level(), "figcaption"@),
            final(self).doc() == final(node.ctx)@,
            final(self).level() == old(self).level(),
    ;

    /// Specifies self-contained content
    fn figure(&mut self) -> (node: Node<'_>)
        requires
            old(self).doc().open_at(old(self).level()),
        ensures
            node.is_child(old(self).doc(), old(self).level(), "figure"@),
            final(self).doc() == final(node.ctx)@,
            final(self).level() == old(self).level(),
    ;

    /// Defines a footer for a document or section
    fn footer(&mut self) -> (node: Node<'_>)
        requires
            old(self).doc().open_at(old(self).level()),
        ensures
            node.is_child(old(self).doc(), old(self).level(), "footer"@),
            final(self).doc() == final(node.ctx)@,
            final(self).level() == old(self).level(),
    ;

    /// Defines an HTML form for user input
    fn form(&mut self) -> (node: Node<'_>)
        requires
            old(self).doc().open_at(old(self).level()),
        ensures
            node.is_child(old(self).doc(), old(self).level(), "form"@),
            final(self).doc() == final(node.ctx)@,
            final(self).level() == old(self).level(),
    ;

    /// Defines HTML headings
    fn h1(&mut self) -> (node: Node<'_>)
        requires
            old(self).doc().open_at(old(self).level()),
        ensures
            node.is_child(old(self).doc(), old(self).level(), "h1"@),
            final(self).doc() == final(node.ctx)@,
            final(self).level() == old(self).level(),
    ;

    /// Defines HTML headings
    fn h2(&mut self) -> (node: Node<'_>)
        requires
            old(self).doc().open_at(old(self).level()),
        ensures
            node.is_child(old(self).doc(), old(self).level(), "h2"@),
            final(self).doc() == final(node.ctx)@,
            final(self).level() == old(self).level(),
    ;

    /// Defines HTML headings
    fn h3(&mut self) -> (node: Node<'_>)
        requires
            old(self).doc().open_at(old(self).level()),
        ensures
            node.is_child(old(self).doc(), old(self).level(), "h3"@),
            final(self).doc() == final(node.ctx)@,
            final(self).level() == old(self).level(),
    ;

    /// Defines HTML headings
    fn h4(&mut self) -> (node: Node<'_>)
        requires
            old(self).doc().open_at(old(self).level()),
        ensures
            node.is_child(old(self).doc(), old(self).level(), "h4"@),
            final(self).doc() == final(node.ctx)@,
            final(self).level() == old(self).level(),
    ;

    /// Defines HTML headings
    fn h5(&mut self) -> (node: Node<'_>)
        requires
            old(self).doc().open_at(old(self).level()),
        ensures
            node.is_child(old(self).doc(), old(self).level(), "h5"@),
            final(self).doc() == final(node.ctx)@,
            final(self).level() == old(self).level(),
    ;

    /// Defines HTML headings
    fn h6(&mut self) -> (node: Node<'_>)
        requires
            old(self).doc().open_at(old(self).level()),
        ensures
            node.is_child(old(self).doc(), old(self).level(), "h6"@),
            final(self).doc() == final(node.ctx)@,
            final(self).level() == old(self).level(),
    ;

    /// Contains metadata/information for the document
    fn head(&mut self) -> (node: Node<'_>)
        requires
            old(self).doc().open_at(old(self).level()),
        ensures
            node.is_child(old(self).doc(), old(self).level(), "head"@),
            final(self).doc() == final(node.ctx)@,
            final(self).level() == old(self).level(),
    ;

    /// Defines a header for a document or section
    fn header(&mut self) -> (node: Node<'_>)
        requires
            old(self).doc().open_at(old(self).level()),
        ensures
            node.is_child(old(self).doc(), old(self).level(), "header"@),
            final(self).doc() == final(node.ctx)@,
            final(self).level() == old(self).level(),
    ;

    /// Defines a thematic change in the content
    fn hr(&mut self) -> (void: Void<'_>)
        requires
            old(self).doc().open_at(old(self).level()),
        ensures
            void.is_child(old(self).doc(), old(self).level(), "hr"@),
            final(self).doc() == final(void.ctx)@,
            final(self).level() == old(self).level(),
    ;

    /// Defines the root of an HTML document
    fn html(&mut self) -> (node: Node<'_>)
        requires
            old(self).doc().open_at(old(self).level()),
        ensures
            node.is_child(old(self).doc(), old(self).level(), "html"@),
            final(self).doc() == final(node.ctx)@,
            final(self).level() == old(self).level(),
    ;

    /// Defines a part of text in an alternate voice or mood
    fn i(&mut self) -> (node: Node<'_>)
        requires
            old(self).doc().open_at(old(self).level()),
        ensures
            node.is_child(old(self).doc(), old(self).level(), "i"@),
            final(self).doc() == final(node.ctx)@,
            final(self).level() == old(self).level(),
    ;

    /// Defines an inline frame
    fn iframe(&mut self) -> (node: Node<'_>)
        requires
            old(self).doc().open_at(old(self).level()),
        ensures
            node.is_child(old(self).doc(), old(self).level(), "iframe"@),
            final(self).doc() == final(node.ctx)@,
            final(self).level() == old(self).level(),
    ;

    /// Defines an image
    fn img(&mut self) -> (void: Void<'_>)
        requires
            old(self).doc().open_at(old(self).level()),
        ensures
            void.is_child(old(self).doc(), old(self).level(), "img"@),
            final(self).doc() == final(void.ctx)@,
            final(self).level() == old(self).level(),
    ;

    /// Defines an input control
    fn input(&mut self) -> (void: Void<'_>)
        requires
            old(self).doc().open_at(old(self).level()),
        ensures
            void.is_child(old(self).doc(), old(self).level(), "input"@),
            final(self).doc() == final(void.ctx)@,
            final(self).level() == old(self).level(),
    ;

    /// Defines a text that has been inserted into a document
    fn ins(&mut self) -> (node: Node<'_>)
        requires
            old(self).doc().open_at(old(self).level()),
        ensures
            node.is_child(old(self).doc(), old(self).level(), "ins"@),
            final(self).doc() == final(node.ctx)@,
            final(self).level() == old(self).level(),
    ;

    /// Defines keyboard input
    fn kbd(&mut self) -> (node: Node<'_>)
        requires
            old(self).doc().open_at(old(self).level()),
        ensures
            node.is_child(old(self).doc(), old(self).level(), "kbd"@),
            final(self).doc() == final(node.ctx)@,
            final(self).level() == old(self).level(),
    ;

    /// Defines a label for an `<input>` element
    fn label(&mut self) -> (node: Node<'_>)
        requires
            old(self).doc().open_at(old(self).level()),
        ensures
            node.is_child(old(self).doc(), old(self).level(), "label"@),
            final(self).doc() == final(node.ctx)@,
            final(self).level() == old(self).level(),
    ;

    /// Defines a caption for a `<fieldset>` element
    fn legend(&mut self) -> (node: Node<'_>)
        requires
            old(self).doc().open_at(old(self).level()),
        ensures
            node.is_child(old(self).doc(), old(self).level(), "legend"@),
            final(self).doc() == final(node.ctx)@,
            final(self).level() == old(self).level(),
    ;

    /// Defines a list item
    fn li(&mut self) -> (node: Node<'_>)
        requires
            old(self).doc().open_at(old(self).level()),
        ensures
            node.is_child(old(self).doc(), old(self).level(), "li"@),
            final(self).doc() == final(node.ctx)@,
            final(self).level() == old(self).level(),
    ;

    /// Defines the relationship between a document and an external resource (most used to link to style sheets)
    fn link(&mut self) -> (void: Void<'_>)
        requires
            old(self).doc().open_at(old(self).level()),
        ensures
            void.is_child(old(self).doc(), old(self).level(), "link"@),
            final(self).doc() == final(void.ctx)@,
            final(self).level() == old(self).level(),
    ;

    /// Specifies the main content of a document
    fn main(&mut self) -> (node: Node<'_>)
        requires
            old(self).doc().open_at(old(self).level()),
        ensures
            node.is_child(old(self).doc(), old(self).level(), "main"@),
            final(self).doc() == final(node.ctx)@,
            final(self).level() == old(self).level(),
    ;

    /// Defines an image map
    fn map(&mut self) -> (node: Node<'_>)
        requires
            old(self).doc().open_at(old(self).level()),
        ensures
            node.is_child(old(self).doc(), old(self).level(), "map"@),
            final(self).doc() == final(node.ctx)@,
            final(self).level() == old(self).level(),
    ;

    /// Defines marked/highlighted text
    fn mark(&mut self) -> (node: Node<'_>)
        requires
            old(self).doc().open_at(old(self).level()),
        ensures
            node.is_child(old(self).doc(), old(self).level(), "mark"@),
            final(self).doc() == final(node.ctx)@,
            final(self).level() == old(self).level(),
    ;

    /// Defines metadata about an HTML document
    fn meta(&mut self) -> (void: Void<'_>)
        requires
            old(self).doc().open_at(old(self).level()),
        ensures
            void.is_child(old(self).doc(), old(self).level(), "meta"@),
            final(self).doc() == final(void.ctx)@,
            final(self).level() == old(self).level(),
    ;

    /// Defines a scalar measurement within a known range (a gauge)
    fn meter(&mut self) -> (node: Node<'_>)
        requires
            old(self).doc().open_at(old(self).level()),
        ensures
            node.is_child(old(self).doc(), old(self).level(), "meter"@),
            final(self).doc() == final(node.ctx)@,
            final(self).level() == old(self).level(),
    ;

    /// Defines navigation links
    fn nav(&mut self) -> (node: Node<'_>)
        requires
            old(self).doc().open_at(old(self).level()),
        ensures
            node.is_child(old(self).doc(), old(self).level(), "nav"@),
            final(self).doc() == final(node.ctx)@,
            final(self).level() == old(self).level(),
    ;

    /// Defines an alternate content for users that do not support client-side scripts
    fn noscript(&mut self) -> (node: Node<'_>)
        requires
            old(self).doc().open_at(old(self).level()),
        ensures
            node.is_child(old(self).doc(), old(self).level(), "noscript"@),
            final(self).doc() == final(node.ctx)@,
            final(self).level() == old(self).level(),
    ;

    /// Defines a container for an external application
    fn object(&mut self) -> (node: Node<'_>)
        requires
            old(self).doc().open_at(old(self).level()),
        ensures
            node.is_child(old(self).doc(), old(self).level(), "object"@),
            final(self).doc() == final(node.ctx)@,
            final(self).level() == old(self).level(),
    ;

    /// Defines an ordered list
    fn ol(&mut self) -> (node: Node<'_>)
        requires
            old(self).doc().open_at(old(self).level()),
        ensures
            node.is_child(old(self).doc(), old(self).level(), "ol"@),
            final(self).doc() == final(node.ctx)@,
            final(self).level() == old(self).level(),
    ;

    /// Defines a group of related options in a drop-down list
    fn optgroup(&mut self) -> (node: Node<'_>)
        requires
            old(self).doc().open_at(old(self).level()),
        ensures
            node.is_child(old(self).doc(), old(self).level(), "optgroup"@),
            final(self).doc() == final(node.ctx)@,
            final(self).level() == old(self).level(),
    ;

    /// Defines an option in a drop-down list
    fn option(&mut self) -> (node: Node<'_>)
        requires
            old(self).doc().open_at(old(self).level()),
        ensures
            node.is_child(old(self).doc(), old(self).level(), "option"@),
            final(self).doc() == final(node.ctx)@,
            final(self).level() == old(self).level(),
    ;

    /// Defines the result of a calculation
    fn output(&mut self) -> (node: Node<'_>)
        requires
            old(self).doc().open_at(old(self).level()),
        ensures
            node.is_child(old(self).doc(), old(self).level(), "output"@),
            final(self).doc() == final(node.ctx)@,
            final(self).level() == old(self).level(),
    ;

    /// Defines a paragraph
    fn p(&mut self) -> (node: Node<'_>)
        requires
            old(self).doc().open_at(old(self).level()),
        ensures
            node.is_child(old(self).doc(), old(self).level(), "p"@),
            final(self).doc() == final(node.ctx)@,
            final(self).level() == old(self).level(),
    ;

    /// Defines a parameter for an object
    fn param(&mut self) -> (void: Void<'_>)
        requires
            old(self).doc().open_at(old(self).level()),
        ensures
            void.is_child(old(self).doc(), old(self).level(), "param"@),
            final(self).doc() == final(void.ctx)@,
            final(self).level() == old(self).level(),
    ;

    /// Defines a container for multiple image resources
    fn picture(&mut self) -> (node: Node<'_>)
        requires
            old(self).doc().open_at(old(self).level()),
        ensures
            node.is_child(old(self).doc(), old(self).level(), "picture"@),
            final(self).doc() == final(node.ctx)@,
            final(self).level() == old(self).level(),
    ;

    /// Defines preformatted text
    fn pre(&mut self) -> (node: Node<'_>)
        requires
            old(self).doc().open_at(old(self).level()),
        ensures
            node.is_child(old(self).doc(), old(self).level(), "pre"@),
            final(self).doc() == final(node.ctx)@,
            final(self).level() == old(self).level(),
    ;

    /// Represents the progress of a task
    fn progress(&mut self) -> (node: Node<'_>)
        requires
            old(self).doc().open_at(old(self).level()),
        ensures
            node.is_child(old(self).doc(), old(self).level(), "progress"@),
            final(self).doc() == final(node.ctx)@,
            final(self).level() == old(self).level(),
    ;

    /// Defines a short quotation
    fn q(&mut self) -> (node: Node<'_>)
        requires
            old(self).doc().open_at(old(self).level()),
        ensures
            node.is_child(old(self).doc(), old(self).level(), "q"@),
            final(self).doc() == final(node.ctx)@,
            final(self).level() == old(self).level(),
    ;

    /// Defines what to show in browsers that do not support ruby annotations
    fn rp(&mut self) -> (node: Node<'_>)
        requires
            old(self).doc().open_at(old(self).level()),
        ensures
            node.is_child(old(self).doc(), old(self).level(), "rp"@),
            final(self).doc() == final(node.ctx)@,
            final(self).level() == old(self).level(),
    ;

    /// Defines an explanation/pronunciation of characters (for East Asian typography)
    fn rt(&mut self) -> (node: Node<'_>)
        requires
            old(self).doc().open_at(old(self).level()),
        ensures
            node.is_child(old(self).doc(), old(self).level(), "rt"@),
            final(self).doc() == final(node.ctx)@,
            final(self).level() == old(self).level(),
    ;

    /// Defines a ruby annotation (for East Asian typography)
    fn ruby(&mut self) -> (node: Node<'_>)
        requires
            old(self).doc().open_at(old(self).level()),
        ensures
            node.is_child(old(self).doc(), old(self).level(), "ruby"@),
            final(self).doc() == final(node.ctx)@,
            final(self).level() == old(self).level(),
    ;

    /// Defines text that is no longer correct
    fn s(&mut self) -> (node: Node<'_>)
        requires
            old(self).doc().open_at(old(self).level()),
        ensures
            node.is_child(old(self).doc(), old(self).level(), "s"@),
            final(self).doc() == final(node.ctx)@,
            final(self).level() == old(self).level(),
    ;

    /// Defines sample output from a computer program
    fn samp(&mut self) -> (node: Node<'_>)
        requires
            old(self).doc().open_at(old(self).level()),
        ensures
            node.is_child(old(self).doc(), old(self).level(), "samp"@),
            final(self).doc() == final(node.ctx)@,
            final(self).level() == old(self).level(),
    ;

    /// Defines a client-side script
    fn script(&mut self) -> (node: Node<'_>)
        requires
            old(self).doc().open_at(old(self).level()),
        ensures
            node.is_child(old(self).doc(), old(self).level(), "script"@),
            final(self).doc() == final(node.ctx)@,
            final(self).level() == old(self).level(),
    ;

    /// Defines a section in a document
    fn section(&mut self) -> (node: Node<'_>)
        requires
            old(self).doc().open_at(old(self).level()),
        ensures
            node.is_child(old(self).doc(), old(self).level(), "section"@),
            final(self).doc() == final(node.ctx)@,
            final(self).level() == old(self).level(),
    ;

    /// Defines a drop-down list
    fn select(&mut self) -> (node: Node<'_>)
        requires
            old(self).doc().open_at(old(self).level()),
        ensures
            node.is_child(old(self).doc(), old(self).level(), "select"@),
            final(self).doc() == final(node.ctx)@,
            final(self).level() == old(self).level(),
    ;

    /// Defines smaller text
    fn small(&mut self) -> (node: Node<'_>)
        requires
            old(self).doc().open_at(old(self).level()),
        ensures
            node.is_child(old(self).doc(), old(self).level(), "small"@),
            final(self).doc() == final(node.ctx)@,
            final(self).level() == old(self).level(),
    ;

    /// Defines multiple media resources for media elements (`<video>` and `<audio>`)
    fn source(&mut self) -> (void: Void<'_>)
        requires
            old(self).doc().open_at(old(self).level()),
        ensures
            void.is_child(old(self).doc(), old(self).level(), "source"@),
            final(self).doc() == final(void.ctx)@,
            final(self).level() == old(self).level(),
    ;

    /// Defines a section in a document
    fn span(&mut self) -> (node: Node<'_>)
        requires
            old(self).doc().open_at(old(self).level()),
        ensures
            node.is_child(old(self).doc(), old(self).level(), "span"@),
            final(self).doc() == final(node.ctx)@,
            final(self).level() == old(self).level(),
    ;

    /// Defines important text
    fn strong(&mut self) -> (node: Node<'_>)
        requires
            old(self).doc().open_at(old(self).level()),
        ensures
            node.is_child(old(self).doc(), old(self).level(), "strong"@),
            final(self).doc() == final(node.ctx)@,
            final(self).level() == old(self).level(),
    ;

    /// Defines style information for a document
    fn style(&mut self) -> (node: Node<'_>)
        requires
            old(self).doc().open_at(old(self).level()),
        ensures
            node.is_child(old(self).doc(), old(self).level(), "style"@),
            final(self).doc() == final(node.ctx)@,
            final(self).level() == old(self).level(),
    ;

    /// Defines subscripted text
    fn sub(&mut self) -> (node: Node<'_>)
        requires
            old(self).doc().open_at(old(self).level()),
        ensures
            node.is_child(old(self).doc(), old(self).level(), "sub"@),
            final(self).doc() == final(node.ctx)@,
            final(self).level() == old(self).level(),
    ;

    /// Defines a visible heading for a `<details>` element
    fn summary(&mut self) -> (node: Node<'_>)
        requires
            old(self).doc().open_at(old(self).level()),
        ensures
            node.is_child(old(self).doc(), old(self).level(), "summary"@),
            final(self).doc() == final(node.ctx)@,
            final(self).level() == old(self).level(),
    ;

    /// Defines superscripted text
    fn sup(&mut self) -> (node: Node<'_>)
        requires
            old(self).doc().open_at(old(self).level()),
        ensures
            node.is_child(old(self).doc(), old(self).level(), "sup"@),
            final(self).doc() == final(node.ctx)@,
            final(self).level() == old(self).level(),
    ;

    /// Defines a container for SVG graphics
    fn svg(&mut self) -> (node: Node<'_>)
        requires
            old(self).doc().open_at(old(self).level()),
        ensures
            node.is_child(old(self).doc(), old(self).level(), "svg"@),
            final(self).doc() == final(node.ctx)@,
            final(self).level() == old(self).level(),
    ;

    /// Defines a table
    fn table(&mut self) -> (node: Node<'_>)
        requires
            old(self).doc().open_at(old(self).level()),
        ensures
            node.is_child(old(self).doc(), old(self).level(), "table"@),
            final(self).doc() == final(node.ctx)@,
            final(self).level() == old(self).level(),
    ;

    /// Groups the body content in a table
    fn tbody(&mut self) -> (node: Node<'_>)
        requires
            old(self).doc().open_at(old(self).level()),
        ensures
            node.is_child(old(self).doc(), old(self).level(), "tbody"@),
            final(self).doc() == final(node.ctx)@,
            final(self).level() == old(self).level(),
    ;

    /// Defines a cell in a table
    fn td(&mut self) -> (node: Node<'_>)
        requires
            old(self).doc().open_at(old(self).level()),
        ensures
            node.is_child(old(self).doc(), old(self).level(), "td"@),
            final(self).doc() == final(node.ctx)@,
            final(self).level() == old(self).level(),
    ;

    /// Defines a container for content that should be hidden when the page loads
    fn template(&mut self) -> (node: Node<'_>)
        requires
            old(self).doc().open_at(old(self).level()),
        ensures
            node.is_child(old(self).doc(), old(self).level(), "template"@),
            final(self).doc() == final(node.ctx)@,
            final(self).level() == old(self).level(),
    ;

    /// Defines a multiline input control (text area)
    fn textarea(&mut self) -> (node: Node<'_>)
        requires
            old(self).doc().open_at(old(self).level()),
        ensures
            node.is_child(old(self).doc(), old(self).level(), "textarea"@),
            final(self).doc() == final(node.ctx)@,
            final(self).level() == old(self).level(),
    ;

    /// Groups the footer content in a table
    fn tfoot(&mut self) -> (node: Node<'_>)
        requires
            old(self).doc().open_at(old(self).level()),
        ensures
            node.is_child(old(self).doc(), old(self).level(), "tfoot"@),
            final(self).doc() == final(node.ctx)@,
            final(self).level() == old(self).level(),
    ;

    /// Defines a header cell in a table
    fn th(&mut self) -> (node: Node<'_>)
        requires
            old(self).doc().open_at(old(self).level()),
        ensures
            node.is_child(old(self).doc(), old(self).level(), "th"@),
            final(self).doc() == final(node.ctx)@,
            final(self).level() == old(self).level(),
    ;

    /// Groups the header content in a table
    fn thead(&mut self) -> (node: Node<'_>)
        requires
            old(self).doc().open_at(old(self).level()),
        ensures
            node.is_child(old(self).doc(), old(self).level(), "thead"@),
            final(self).doc() == final(node.ctx)@,
            final(self).level() == old(self).level(),
    ;

    /// Defines a specific time (or datetime)
    fn time(&mut self) -> (node: Node<'_>)
        requires
            old(self).doc().open_at(old(self).level()),
        ensures
            node.is_child(old(self).doc(), old(self).level(), "time"@),
            final(self).doc() == final(node.ctx)@,
            final(self).level() == old(self).level(),
    ;

    /// Defines a title for the document
    fn title(&mut self) -> (node: Node<'_>)
        requires
            old(self).doc().open_at(old(self).level()),
        ensures
            node.is_child(old(self).doc(), old(self).level(), "title"@),
            final(self).doc() == final(node.ctx)@,
            final(self).level() == old(self).level(),
    ;

    /// Defines a row in a table
    fn tr(&mut self) -> (node: Node<'_>)
        requires
            old(self).doc().open_at(old(self).level()),
        ensures
            node.is_child(old(self).doc(), old(self).level(), "tr"@),
            final(self).doc() == final(node.ctx)@,
            final(self).level() == old(self).level(),
    ;

    /// Defines text tracks for media elements (`<video>` and `<audio>`)
    fn track(&mut self) -> (void: Void<'_>)
        requires
            old(self).doc().open_at(old(self).level()),
        ensures
            void.is_child(old(self).doc(), old(self).level(), "track"@),
            final(self).doc() == final(void.ctx)@,
            final(self).level() == old(self).level(),
    ;

    /// Defines some text that is unarticulated and styled differently from normal text
    fn u(&mut self) -> (node: Node<'_>)
        requires
            old(self).doc().open_at(old(self).level()),
        ensures
            node.is_child(old(self).doc(), old(self).level(), "u"@),
            final(self).doc() == final(node.ctx)@,
            final(self).level() == old(self).level(),
    ;

    /// Defines an unordered list
    fn ul(&mut self) -> (node: Node<'_>)
        requires
            old(self).doc().open_at(old(self).level()),
        ensures
            node.is_child(old(self).doc(), old(self).level(), "ul"@),
            final(self).doc() == final(node.ctx)@,
            final(self).level() == old(self).level(),
    ;

    /// Defines a variable
    fn var(&mut self) -> (node: Node<'_>)
        requires
            old(self).doc().open_at(old(self).level()),
        ensures
            node.is_child(old(self).doc(), old(self).level(), "var"@),
            final(self).doc() == final(node.ctx)@,
            final(self).level() == old(self).level(),
    ;

    /// Defines embedded video content
    fn video(&mut self) -> (node: Node<'_>)
        requires
            old(self).doc().open_at(old(self).level()),
        ensures
            node.is_child(old(self).doc(), old(self).level(), "video"@),
            final(self).doc() == final(node.ctx)@,
            final(self).level() == old(self).level(),
    ;

    /// Defines a possible line-break
    fn wbr(&mut self) -> (void: Void<'_>)
        requires
            old(self).doc().open_at(old(self).level()),
        ensures
            void.is_child(old(self).doc(), old(self).level(), "wbr"@),
            final(self).doc() == final(void.ctx)@,
            final(self).level() == old(self).level(),
    ;
}

impl<'a> Html5 for Node<'a> {
    open spec fn doc(&self) -> Doc {
        self.ctx@
    }

    open spec fn level(&self) -> nat {
        self.depth as nat
    }

    fn doctype(&mut self)
        ensures
            *final(final(self).ctx) == *final(old(self).ctx),
    {
        self.void_child(Cow::Borrowed("!DOCTYPE")).attr("html");
    }

    fn a(&mut self) -> (node: Node<'_>)
        ensures
            *final(final(self).ctx) == *final(old(self).ctx),
    {
        self.child(Cow::Borrowed("a"))
    }

    fn abbr(&mut self) -> (node: Node<'_>)
        ensures
            *final(final(self).ctx) == *final(old(self).ctx),
    {
        self.child(Cow::Borrowed("abbr"))
    }

    fn address(&mut self) -> (node: Node<'_>)
        ensures
            *final(final(self).ctx) == *final(old(self).ctx),
    {
        self.child(Cow::Borrowed("address"))
    }

    fn area(&mut self) -> (void: Void<'_>)
        ensures
            *final(final(self).ctx) == *final(old(self).ctx),
    {
        self.void_child(Cow::Borrowed("area"))
    }

    fn article(&mut self) -> (node: Node<'_>)
        ensures
            *final(final(self).ctx) == *final(old(self).ctx),
    {
        self.child(Cow::Borrowed("article"))
    }

    fn aside(&mut self) -> (node: Node<'_>)
        ensures
            *final(final(self).ctx) == *final(old(self).ctx),
    {
        self.child(Cow::Borrowed("aside"))
    }

    fn audio(&mut self) -> (node: Node<'_>)
        ensures
            *final(final(self).ctx) == *final(old(self).ctx),
    {
        self.child(Cow::Borrowed("audio"))
    }

    fn b(&mut self) -> (node: Node<'_>)
        ensures
            *final(final(self).ctx) == *final(old(self).ctx),
    {
        self.child(Cow::Borrowed("b"))
    }

    fn base(&mut self) -> (void: Void<'_>)
        ensures
            *final(final(self).ctx) == *final(old(self).ctx),
    {
        self.void_child(Cow::Borrowed("base"))
    }

    fn bdi(&mut self) -> (node: Node<'_>)
        ensures
            *final(final(self).ctx) == *final(old(self).ctx),
    {
        self.child(Cow::Borrowed("bdi"))
    }

    fn bdo(&mut self) -> (node: Node<'_>)
        ensures
            *final(final(self).ctx) == *final(old(self).ctx),
    {
        self.child(Cow::Borrowed("bdo"))
    }

    fn blockquote(&mut self) -> (node: Node<'_>)
        ensures
            *final(final(self).ctx) == *final(old(self).ctx),
    {
        self.child(Cow::Borrowed("blockquote"))
    }

    fn body(&mut self) -> (node: Node<'_>)
        ensures
            *final(final(self).ctx) == *final(old(self).ctx),
    {
        self.child(Cow::Borrowed("body"))
    }

    fn br(&mut self) -> (void: Void<'_>)
        ensures
            *final(final(self).ctx) == *final(old(self).ctx),
    {
        self.void_child(Cow::Borrowed("br"))
    }

    fn button(&mut self) -> (node: Node<'_>)
        ensures
            *final(final(self).ctx) == *final(old(self).ctx),
    {
        self.child(Cow::Borrowed("button"))
    }

    fn canvas(&mut self) -> (node: Node<'_>)
        ensures
            *final(final(self).ctx) == *final(old(self).ctx),
    {
        self.child(Cow::Borrowed("canvas"))
    }

    fn caption(&mut self) -> (node: Node<'_>)
        ensures
            *final(final(self).ctx) == *final(old(self).ctx),
    {
        self.child(Cow::Borrowed("caption"))
    }

    fn cite(&mut self) -> (node: Node<'_>)
        ensures
            *final(final(self).ctx) == *final(old(self).ctx),
    {
        self.child(Cow::Borrowed("cite"))
    }

    fn code(&mut self) -> (node: Node<'_>)
        ensures
            *final(final(self).ctx) == *final(old(self).ctx),
    {
        self.child(Cow::Borrowed("code"))
    }

    fn col(&mut self) -> (void: Void<'_>)
        ensures
            *final(final(self).ctx) == *final(old(self).ctx),
    {
        self.void_child(Cow::Borrowed("col"))
    }

    fn colgroup(&mut self) -> (node: Node<'_>)
        ensures
            *final(final(self).ctx) == *final(old(self).ctx),
    {
        self.child(Cow::Borrowed("colgroup"))
    }

    fn data(&mut self) -> (node: Node<'_>)
        ensures
            *final(final(self).ctx) == *final(old(self).ctx),
    {
        self.child(Cow::Borrowed("data"))
    }

    fn datalist(&mut self) -> (node: Node<'_>)
        ensures
            *final(final(self).ctx) == *final(old(self).ctx),
    {
        self.child(Cow::Borrowed("datalist"))
    }

    fn dd(&mut self) -> (node: Node<'_>)
        ensures
            *final(final(self).ctx) == *final(old(self).ctx),
    {
        self.child(Cow::Borrowed("dd"))
    }

    fn del(&mut self) -> (node: Node<'_>)
        ensures
            *final(final(self).ctx) == *final(old(self).ctx),
    {
        self.child(Cow::Borrowed("del"))
    }

    fn details(&mut self) -> (node: Node<'_>)
        ensures
            *final(final(self).ctx) == *final(old(self).ctx),
    {
        self.child(Cow::Borrowed("details"))
    }

    fn dfn(&mut self) -> (node: Node<'_>)
        ensures
            *final(final(self).ctx) == *final(old(self).ctx),
    {
        self.child(Cow::Borrowed("dfn"))
    }

    fn dialog(&mut self) -> (node: Node<'_>)
        ensures
            *final(final(self).ctx) == *final(old(self).ctx),
    {
        self.child(Cow::Borrowed("dialog"))
    }

    fn div(&mut self) -> (node: Node<'_>)
        ensures
            *final(final(self).ctx) == *final(old(self).ctx),
    {
        self.child(Cow::Borrowed("div"))
    }

    fn dl(&mut self) -> (node: Node<'_>)
        ensures
            *final(final(self).ctx) == *final(old(self).ctx),
    {
        self.child(Cow::Borrowed("dl"))
    }

    fn dt(&mut self) -> (node: Node<'_>)
        ensures
            *final(final(self).ctx) == *final(old(self).ctx),
    {
        self.child(Cow::Borrowed("dt"))
    }

    fn em(&mut self) -> (node: Node<'_>)
        ensures
            *final(final(self).ctx) == *final(old(self).ctx),
    {
        self.child(Cow::Borrowed("em"))
    }

    fn embed(&mut self) -> (void: Void<'_>)
        ensures
            *final(final(self).ctx) == *final(old(self).ctx),
    {
        self.void_child(Cow::Borrowed("embed"))
    }

    fn fieldset(&mut self) -> (node: Node<'_>)
        ensures
            *final(final(self).ctx) == *final(old(self).ctx),
    {
        self.child(Cow::Borrowed("fieldset"))
    }

    fn figcaption(&mut self) -> (node: Node<'_>)
        ensures
            *final(final(self).ctx) == *final(old(self).ctx),
    {
        self.child(Cow::Borrowed("figcaption"))
    }

    fn figure(&mut self) -> (node: Node<'_>)
        ensures
            *final(final(self).ctx) == *final(old(self).ctx),
    {
        self.child(Cow::Borrowed("figure"))
    }

    fn footer(&mut self) -> (node: Node<'_>)
        ensures
            *final(final(self).ctx) == *final(old(self).ctx),
    {
        self.child(Cow::Borrowed("footer"))
    }

    fn form(&mut self) -> (node: Node<'_>)
        ensures
            *final(final(self).ctx) == *final(old(self).ctx),
    {
        self.child(Cow::Borrowed("form"))
    }

    fn h1(&mut self) -> (node: Node<'_>)
        ensures
            *final(final(self).ctx) == *final(old(self).ctx),
    {
        self.child(Cow::Borrowed("h1"))
    }

    fn h2(&mut self) -> (node: Node<'_>)
        ensures
            *final(final(self).ctx) == *final(old(self).ctx),
    {
        self.child(Cow::Borrowed("h2"))
    }

    fn h3(&mut self) -> (node: Node<'_>)
        ensures
            *final(final(self).ctx) == *final(old(self).ctx),
    {
        self.child(Cow::Borrowed("h3"))
    }

    fn h4(&mut self) -> (node: Node<'_>)
        ensures
            *final(final(self).ctx) == *final(old(self).ctx),
    {
        self.child(Cow::Borrowed("h4"))
    }

    fn h5(&mut self) -> (node: Node<'_>)
        ensures
            *final(final(self).ctx) == *final(old(self).ctx),
    {
        self.child(Cow::Borrowed("h5"))
    }

    fn h6(&mut self) -> (node: Node<'_>)
        ensures
            *final(final(self).ctx) == *final(old(self).ctx),
    {
        self.child(Cow::Borrowed("h6"))
    }

    fn head(&mut self) -> (node: Node<'_>)
        ensures
            *final(final(self).ctx) == *final(old(self).ctx),
    {
        self.child(Cow::Borrowed("head"))
    }

    fn header(&mut self) -> (node: Node<'_>)
        ensures
            *final(final(self).ctx) == *final(old(self).ctx),
    {
        self.child(Cow::Borrowed("header"))
    }

    fn hr(&mut self) -> (void: Void<'_>)
        ensures
            *final(final(self).ctx) == *final(old(self).ctx),
    {
        self.void_child(Cow::Borrowed("hr"))
    }

    fn html(&mut self) -> (node: Node<'_>)
        ensures
            *final(final(self).ctx) == *final(old(self).ctx),
    {
        self.child(Cow::Borrowed("html"))
    }

    fn i(&mut self) -> (node: Node<'_>)
        ensures
            *final(final(self).ctx) == *final(old(self).ctx),
    {
        self.child(Cow::Borrowed("i"))
    }

    fn iframe(&mut self) -> (node: Node<'_>)
        ensures
            *final(final(self).ctx) == *final(old(self).ctx),
    {
        self.child(Cow::Borrowed("iframe"))
    }

    fn img(&mut self) -> (void: Void<'_>)
        ensures
            *final(final(self).ctx) == *final(old(self).ctx),
    {
        self.void_child(Cow::Borrowed("img"))
    }

    fn input(&mut self) -> (void: Void<'_>)
        ensures
            *final(final(self).ctx) == *final(old(self).ctx),
    {
        self.void_child(Cow::Borrowed("input"))
    }

    fn ins(&mut self) -> (node: Node<'_>)
        ensures
            *final(final(self).ctx) == *final(old(self).ctx),
    {
        self.child(Cow::Borrowed("ins"))
    }

    fn kbd(&mut self) -> (node: Node<'_>)
        ensures
            *final(final(self).ctx) == *final(old(self).ctx),
    {
        self.child(Cow::Borrowed("kbd"))
    }

    fn label(&mut self) -> (node: Node<'_>)
        ensures
            *final(final(self).ctx) == *final(old(self).ctx),
    {
        self.child(Cow::Borrowed("label"))
    }

    fn legend(&mut self) -> (node: Node<'_>)
        ensures
            *final(final(self).ctx) == *final(old(self).ctx),
    {
        self.child(Cow::Borrowed("legend"))
    }

    fn li(&mut self) -> (node: Node<'_>)
        ensures
            *final(final(self).ctx) == *final(old(self).ctx),
    {
        self.child(Cow::Borrowed("li"))
    }

    fn link(&mut self) -> (void: Void<'_>)
        ensures
            *final(final(self).ctx) == *final(old(self).ctx),
    {
        self.void_child(Cow::Borrowed("link"))
    }

    fn main(&mut self) -> (node: Node<'_>)
        ensures
            *final(final(self).ctx) == *final(old(self).ctx),
    {
        self.child(Cow::Borrowed("main"))
    }

    fn map(&mut self) -> (node: Node<'_>)
        ensures
            *final(final(self).ctx) == *final(old(self).ctx),
    {
        self.child(Cow::Borrowed("map"))
    }

    fn mark(&mut self) -> (node: Node<'_>)
        ensures
            *final(final(self).ctx) == *final(old(self).ctx),
    {
        self.child(Cow::Borrowed("mark"))
    }

    fn meta(&mut self) -> (void: Void<'_>)
        ensures
            *final(final(self).ctx) == *final(old(self).ctx),
    {
        self.void_child(Cow::Borrowed("meta"))
    }

    fn meter(&mut self) -> (node: Node<'_>)
        ensures
            *final(final(self).ctx) == *final(old(self).ctx),
    {
        self.child(Cow::Borrowed("meter"))
    }

    fn nav(&mut self) -> (node: Node<'_>)
        ensures
            *final(final(self).ctx) == *final(old(self).ctx),
    {
        self.child(Cow::Borrowed("nav"))
    }

    fn noscript(&mut self) -> (node: Node<'_>)
        ensures
            *final(final(self).ctx) == *final(old(self).ctx),
    {
        self.child(Cow::Borrowed("noscript"))
    }

    fn object(&mut self) -> (node: Node<'_>)
        ensures
            *final(final(self).ctx) == *final(old(self).ctx),
    {
        self.child(Cow::Borrowed("object"))
    }

    fn ol(&mut self) -> (node: Node<'_>)
        ensures
            *final(final(self).ctx) == *final(old(self).ctx),
    {
        self.child(Cow::Borrowed("ol"))
    }

    fn optgroup(&mut self) -> (node: Node<'_>)
        ensures
            *final(final(self).ctx) == *final(old(self).ctx),
    {
        self.child(Cow::Borrowed("optgroup"))
    }

    fn option(&mut self) -> (node: Node<'_>)
        ensures
            *final(final(self).ctx) == *final(old(self).ctx),
    {
        self.child(Cow::Borrowed("option"))
    }

    fn output(&mut self) -> (node: Node<'_>)
        ensures
            *final(final(self).ctx) == *final(old(self).ctx),
    {
        self.child(Cow::Borrowed("output"))
    }

    fn p(&mut self) -> (node: Node<'_>)
        ensures
            *final(final(self).ctx) == *final(old(self).ctx),
    {
        self.child(Cow::Borrowed("p"))
    }

    fn param(&mut self) -> (void: Void<'_>)
        ensures
            *final(final(self).ctx) == *final(old(self).ctx),
    {
        self.void_child(Cow::Borrowed("param"))
    }

    fn picture(&mut self) -> (node: Node<'_>)
        ensures
            *final(final(self).ctx) == *final(old(self).ctx),
    {
        self.child(Cow::Borrowed("picture"))
    }

    fn pre(&mut self) -> (node: Node<'_>)
        ensures
            *final(final(self).ctx) == *final(old(self).ctx),
    {
        self.child(Cow::Borrowed("pre"))
    }

    fn progress(&mut self) -> (node: Node<'_>)
        ensures
            *final(final(self).ctx) == *final(old(self).ctx),
    {
        self.child(Cow::Borrowed("progress"))
    }

    fn q(&mut self) -> (node: Node<'_>)
        ensures
            *final(final(self).ctx) == *final(old(self).ctx),
    {
        self.child(Cow::Borrowed("q"))
    }

    fn rp(&mut self) -> (node: Node<'_>)
        ensures
            *final(final(self).ctx) == *final(old(self).ctx),
    {
        self.child(Cow::Borrowed("rp"))
    }

    fn rt(&mut self) -> (node: Node<'_>)
        ensures
            *final(final(self).ctx) == *final(old(self).ctx),
    {
        self.child(Cow::Borrowed("rt"))
    }

    fn ruby(&mut self) -> (node: Node<'_>)
        ensures
            *final(final(self).ctx) == *final(old(self).ctx),
    {
        self.child(Cow::Borrowed("ruby"))
    }

    fn s(&mut self) -> (node: Node<'_>)
        ensures
            *final(final(self).ctx) == *final(old(self).ctx),
    {
        self.child(Cow::Borrowed("s"))
    }

    fn samp(&mut self) -> (node: Node<'_>)
        ensures
            *final(final(self).ctx) == *final(old(self).ctx),
    {
        self.child(Cow::Borrowed("samp"))
    }

    fn script(&mut self) -> (node: Node<'_>)
        ensures
            *final(final(self).ctx) == *final(old(self).ctx),
    {
        self.child(Cow::Borrowed("script"))
    }

    fn section(&mut self) -> (node: Node<'_>)
        ensures
            *final(final(self).ctx) == *final(old(self).ctx),
    {
        self.child(Cow::Borrowed("section"))
    }

    fn select(&mut self) -> (node: Node<'_>)
        ensures
            *final(final(self).ctx) == *final(old(self).ctx),
    {
        self.child(Cow::Borrowed("select"))
    }

    fn small(&mut self) -> (node: Node<'_>)
        ensures
            *final(final(self).ctx) == *final(old(self).ctx),
    {
        self.child(Cow::Borrowed("small"))
    }

    fn source(&mut self) -> (void: Void<'_>)
        ensures
            *final(final(self).ctx) == *final(old(self).ctx),
    {
        self.void_child(Cow::Borrowed("source"))
    }

    fn span(&mut self) -> (node: Node<'_>)
        ensures
            *final(final(self).ctx) == *final(old(self).ctx),
    {
        self.child(Cow::Borrowed("span"))
    }

    fn strong(&mut self) -> (node: Node<'_>)
        ensures
            *final(final(self).ctx) == *final(old(self).ctx),
    {
        self.child(Cow::Borrowed("strong"))
    }

    fn style(&mut self) -> (node: Node<'_>)
        ensures
            *final(final(self).ctx) == *final(old(self).ctx),
    {
        self.child(Cow::Borrowed("style"))
    }

    fn sub(&mut self) -> (node: Node<'_>)
        ensures
            *final(final(self).ctx) == *final(old(self).ctx),
    {
        self.child(Cow::Borrowed("sub"))
    }

    fn summary(&mut self) -> (node: Node<'_>)
        ensures
            *final(final(self).ctx) == *final(old(self).ctx),
    {
        self.child(Cow::Borrowed("summary"))
    }

    fn sup(&mut self) -> (node: Node<'_>)
        ensures
            *final(final(self).ctx) == *final(old(self).ctx),
    {
        self.child(Cow::Borrowed("sup"))
    }

    fn svg(&mut self) -> (node: Node<'_>)
        ensures
            *final(final(self).ctx) == *final(old(self).ctx),
    {
        self.child(Cow::Borrowed("svg"))
    }

    fn table(&mut self) -> (node: Node<'_>)
        ensures
            *final(final(self).ctx) == *final(old(self).ctx),
    {
        self.child(Cow::Borrowed("table"))
    }

    fn tbody(&mut self) -> (node: Node<'_>)
        ensures
            *final(final(self).ctx) == *final(old(self).ctx),
    {
        self.child(Cow::Borrowed("tbody"))
    }

    fn td(&mut self) -> (node: Node<'_>)
        ensures
            *final(final(self).ctx) == *final(old(self).ctx),
    {
        self.child(Cow::Borrowed("td"))
    }

    fn template(&mut self) -> (node: Node<'_>)
        ensures
            *final(final(self).ctx) == *final(old(self).ctx),
    {
        self.child(Cow::Borrowed("template"))
    }

    fn textarea(&mut self) -> (node: Node<'_>)
        ensures
            *final(final(self).ctx) == *final(old(self).ctx),
    {
        self.child(Cow::Borrowed("textarea"))
    }

    fn tfoot(&mut self) -> (node: Node<'_>)
        ensures
            *final(final(self).ctx) == *final(old(self).ctx),
    {
        self.child(Cow::Borrowed("tfoot"))
    }

    fn th(&mut self) -> (node: Node<'_>)
        ensures
            *final(final(self).ctx) == *final(old(self).ctx),
    {
        self.child(Cow::Borrowed("th"))
    }

    fn thead(&mut self) -> (node: Node<'_>)
        ensures
            *final(final(self).ctx) == *final(old(self).ctx),
    {
        self.child(Cow::Borrowed("thead"))
    }

    fn time(&mut self) -> (node: Node<'_>)
        ensures
            *final(final(self).ctx) == *final(old(self).ctx),
    {
        self.child(Cow::Borrowed("time"))
    }

    fn title(&mut self) -> (node: Node<'_>)
        ensures
            *final(final(self).ctx) == *final(old(self).ctx),
    {
        self.child(Cow::Borrowed("title"))
    }

    fn tr(&mut self) -> (node: Node<'_>)
        ensures
            *final(final(self).ctx) == *final(old(self).ctx),
    {
        self.child(Cow::Borrowed("tr"))
    }

    fn track(&mut self) -> (void: Void<'_>)
        ensures
            *final(final(self).ctx) == *final(old(self).ctx),
    {
        self.void_child(Cow::Borrowed("track"))
    }

    fn u(&mut self) -> (node: Node<'_>)
        ensures
            *final(final(self).ctx) == *final(old(self).ctx),
    {
        self.child(Cow::Borrowed("u"))
    }

    fn ul(&mut self) -> (node: Node<'_>)
        ensures
            *final(final(self).ctx) == *final(old(self).ctx),
    {
        self.child(Cow::Borrowed("ul"))
    }

    fn var(&mut self) -> (node: Node<'_>)
        ensures
            *final(final(self).ctx) == *final(old(self).ctx),
    {
        self.child(Cow::Borrowed("var"))
    }

    fn video(&mut self) -> (node: Node<'_>)
        ensures
            *final(final(self).ctx) == *final(old(self).ctx),
    {
        self.child(Cow::Borrowed("video"))
    }

    fn wbr(&mut self) -> (void: Void<'_>)
        ensures
            *final(final(self).ctx) == *final(old(self).ctx),
    {
        self.void_child(Cow::Borrowed("wbr"))
    }
}

impl Html5 for Buffer {
    open spec fn doc(&self) -> Doc {
        self@
    }

    open spec fn level(&self) -> nat {
        0
    }

    fn doctype(&mut self) {
        self.void_child(Cow::Borrowed("!DOCTYPE")).attr("html");
    }

    fn a(&mut self) -> (node: Node<'_>) {
        self.child(Cow::Borrowed("a"))
    }

    fn abbr(&mut self) -> (node: Node<'_>) {
        self.child(Cow::Borrowed("abbr"))
    }

    fn address(&mut self) -> (node: Node<'_>) {
        self.child(Cow::Borrowed("address"))
    }

    fn area(&mut self) -> (void: Void<'_>) {
        self.void_child(Cow::Borrowed("area"))
    }

    fn article(&mut self) -> (node: Node<'_>) {
        self.child(Cow::Borrowed("article"))
    }

    fn aside(&mut self) -> (node: Node<'_>) {
        self.child(Cow::Borrowed("aside"))
    }

    fn audio(&mut self) -> (node: Node<'_>) {
        self.child(Cow::Borrowed("audio"))
    }

    fn b(&mut self) -> (node: Node<'_>) {
        self.child(Cow::Borrowed("b"))
    }

    fn base(&mut self) -> (void: Void<'_>) {
        self.void_child(Cow::Borrowed("base"))
    }

    fn bdi(&mut self) -> (node: Node<'_>) {
        self.child(Cow::Borrowed("bdi"))
    }

    fn bdo(&mut self) -> (node: Node<'_>) {
        self.child(Cow::Borrowed("bdo"))
    }

    fn blockquote(&mut self) -> (node: Node<'_>) {
        self.child(Cow::Borrowed("blockquote"))
    }

    fn body(&mut self) -> (node: Node<'_>) {
        self.child(Cow::Borrowed("body"))
    }

    fn br(&mut self) -> (void: Void<'_>) {
        self.void_child(Cow::Borrowed("br"))
    }

    fn button(&mut self) -> (node: Node<'_>) {
        self.child(Cow::Borrowed("button"))
    }

    fn canvas(&mut self) -> (node: Node<'_>) {
        self.child(Cow::Borrowed("canvas"))
    }

    fn caption(&mut self) -> (node: Node<'_>) {
        self.child(Cow::Borrowed("caption"))
    }

    fn cite(&mut self) -> (node: Node<'_>) {
        self.child(Cow::Borrowed("cite"))
    }

    fn code(&mut self) -> (node: Node<'_>) {
        self.child(Cow::Borrowed("code"))
    }

    fn col(&mut self) -> (void: Void<'_>) {
        self.void_child(Cow::Borrowed("col"))
    }

    fn colgroup(&mut self) -> (node: Node<'_>) {
        self.child(Cow::Borrowed("colgroup"))
    }

    fn data(&mut self) -> (node: Node<'_>) {
        self.child(Cow::Borrowed("data"))
    }

    fn datalist(&mut self) -> (node: Node<'_>) {
        self.child(Cow::Borrowed("datalist"))
    }

    fn dd(&mut self) -> (node: Node<'_>) {
        self.child(Cow::Borrowed("dd"))
    }

    fn del(&mut self) -> (node: Node<'_>) {
        self.child(Cow::Borrowed("del"))
    }

    fn details(&mut self) -> (node: Node<'_>) {
        self.child(Cow::Borrowed("details"))
    }

    fn dfn(&mut self) -> (node: Node<'_>) {
        self.child(Cow::Borrowed("dfn"))
    }

    fn dialog(&mut self) -> (node: Node<'_>) {
        self.child(Cow::Borrowed("dialog"))
    }

    fn div(&mut self) -> (node: Node<'_>) {
        self.child(Cow::Borrowed("div"))
    }

    fn dl(&mut self) -> (node: Node<'_>) {
        self.child(Cow::Borrowed("dl"))
    }

    fn dt(&mut self) -> (node: Node<'_>) {
        self.child(Cow::Borrowed("dt"))
    }

    fn em(&mut self) -> (node: Node<'_>) {
        self.child(Cow::Borrowed("em"))
    }

    fn embed(&mut self) -> (void: Void<'_>) {
        self.void_child(Cow::Borrowed("embed"))
    }

    fn fieldset(&mut self) -> (node: Node<'_>) {
        self.child(Cow::Borrowed("fieldset"))
    }

    fn figcaption(&mut self) -> (node: Node<'_>) {
        self.child(Cow::Borrowed("figcaption"))
    }

    fn figure(&mut self) -> (node: Node<'_>) {
        self.child(Cow::Borrowed("figure"))
    }

    fn footer(&mut self) -> (node: Node<'_>) {
        self.child(Cow::Borrowed("footer"))
    }

    fn form(&mut self) -> (node: Node<'_>) {
        self.child(Cow::Borrowed("form"))
    }

    fn h1(&mut self) -> (node: Node<'_>) {
        self.child(Cow::Borrowed("h1"))
    }

    fn h2(&mut self) -> (node: Node<'_>) {
        self.child(Cow::Borrowed("h2"))
    }

    fn h3(&mut self) -> (node: Node<'_>) {
        self.child(Cow::Borrowed("h3"))
    }

    fn h4(&mut self) -> (node: Node<'_>) {
        self.child(Cow::Borrowed("h4"))
    }

    fn h5(&mut self) -> (node: Node<'_>) {
        self.child(Cow::Borrowed("h5"))
    }

    fn h6(&mut self) -> (node: Node<'_>) {
        self.child(Cow::Borrowed("h6"))
    }

    fn head(&mut self) -> (node: Node<'_>) {
        self.child(Cow::Borrowed("head"))
    }

    fn header(&mut self) -> (node: Node<'_>) {
        self.child(Cow::Borrowed("header"))
    }

    fn hr(&mut self) -> (void: Void<'_>) {
        self.void_child(Cow::Borrowed("hr"))
    }

    fn html(&mut self) -> (node: Node<'_>) {
        self.child(Cow::Borrowed("html"))
    }

    fn i(&mut self) -> (node: Node<'_>) {
        self.child(Cow::Borrowed("i"))
    }

    fn iframe(&mut self) -> (node: Node<'_>) {
        self.child(Cow::Borrowed("iframe"))
    }

    fn img(&mut self) -> (void: Void<'_>) {
        self.void_child(Cow::Borrowed("img"))
    }

    fn input(&mut self) -> (void: Void<'_>) {
        self.void_child(Cow::Borrowed("input"))
    }

    fn ins(&mut self) -> (node: Node<'_>) {
        self.child(Cow::Borrowed("ins"))
    }

    fn kbd(&mut self) -> (node: Node<'_>) {
        self.child(Cow::Borrowed("kbd"))
    }

    fn label(&mut self) -> (node: Node<'_>) {
        self.child(Cow::Borrowed("label"))
    }

    fn legend(&mut self) -> (node: Node<'_>) {
        self.child(Cow::Borrowed("legend"))
    }

    fn li(&mut self) -> (node: Node<'_>) {
        self.child(Cow::Borrowed("li"))
    }

    fn link(&mut self) -> (void: Void<'_>) {
        self.void_child(Cow::Borrowed("link"))
    }

    fn main(&mut self) -> (node: Node<'_>) {
        self.child(Cow::Borrowed("main"))
    }

    fn map(&mut self) -> (node: Node<'_>) {
        self.child(Cow::Borrowed("map"))
    }

    fn mark(&mut self) -> (node: Node<'_>) {
        self.child(Cow::Borrowed("mark"))
    }

    fn meta(&mut self) -> (void: Void<'_>) {
        self.void_child(Cow::Borrowed("meta"))
    }

    fn meter(&mut self) -> (node: Node<'_>) {
        self.child(Cow::Borrowed("meter"))
    }

    fn nav(&mut self) -> (node: Node<'_>) {
        self.child(Cow::Borrowed("nav"))
    }

    fn noscript(&mut self) -> (node: Node<'_>) {
        self.child(Cow::Borrowed("noscript"))
    }

    fn object(&mut self) -> (node: Node<'_>) {
        self.child(Cow::Borrowed("object"))
    }

    fn ol(&mut self) -> (node: Node<'_>) {
        self.child(Cow::Borrowed("ol"))
    }

    fn optgroup(&mut self) -> (node: Node<'_>) {
        self.child(Cow::Borrowed("optgroup"))
    }

    fn option(&mut self) -> (node: Node<'_>) {
        self.child(Cow::Borrowed("option"))
    }

    fn output(&mut self) -> (node: Node<'_>) {
        self.child(Cow::Borrowed("output"))
    }

    fn p(&mut self) -> (node: Node<'_>) {
        self.child(Cow::Borrowed("p"))
    }

    fn param(&mut self) -> (void: Void<'_>) {
        self.void_child(Cow::Borrowed("param"))
    }

    fn picture(&mut self) -> (node: Node<'_>) {
        self.child(Cow::Borrowed("picture"))
    }

    fn pre(&mut self) -> (node: Node<'_>) {
        self.child(Cow::Borrowed("pre"))
    }

    fn progress(&mut self) -> (node: Node<'_>) {
        self.child(Cow::Borrowed("progress"))
    }

    fn q(&mut self) -> (node: Node<'_>) {
        self.child(Cow::Borrowed("q"))
    }

    fn rp(&mut self) -> (node: Node<'_>) {
        self.child(Cow::Borrowed("rp"))
    }

    fn rt(&mut self) -> (node: Node<'_>) {
        self.child(Cow::Borrowed("rt"))
    }

    fn ruby(&mut self) -> (node: Node<'_>) {
        self.child(Cow::Borrowed("ruby"))
    }

    fn s(&mut self) -> (node: Node<'_>) {
        self.child(Cow::Borrowed("s"))
    }

    fn samp(&mut self) -> (node: Node<'_>) {
        self.child(Cow::Borrowed("samp"))
    }

    fn script(&mut self) -> (node: Node<'_>) {
        self.child(Cow::Borrowed("script"))
    }

    fn section(&mut self) -> (node: Node<'_>) {
        self.child(Cow::Borrowed("section"))
    }

    fn select(&mut self) -> (node: Node<'_>) {
        self.child(Cow::Borrowed("select"))
    }

    fn small(&mut self) -> (node: Node<'_>) {
        self.child(Cow::Borrowed("small"))
    }

    fn source(&mut self) -> (void: Void<'_>) {
        self.void_child(Cow::Borrowed("source"))
    }

    fn span(&mut self) -> (node: Node<'_>) {
        self.child(Cow::Borrowed("span"))
    }

    fn strong(&mut self) -> (node: Node<'_>) {
        self.child(Cow::Borrowed("strong"))
    }

    fn style(&mut self) -> (node: Node<'_>) {
        self.child(Cow::Borrowed("style"))
    }

    fn sub(&mut self) -> (node: Node<'_>) {
        self.child(Cow::Borrowed("sub"))
    }

    fn summary(&mut self) -> (node: Node<'_>) {
        self.child(Cow::Borrowed("summary"))
    }

    fn sup(&mut self) -> (node: Node<'_>) {
        self.child(Cow::Borrowed("sup"))
    }

    fn svg(&mut self) -> (node: Node<'_>) {
        self.child(Cow::Borrowed("svg"))
    }

    fn table(&mut self) -> (node: Node<'_>) {
        self.child(Cow::Borrowed("table"))
    }

    fn tbody(&mut self) -> (node: Node<'_>) {
        self.child(Cow::Borrowed("tbody"))
    }

    fn td(&mut self) -> (node: Node<'_>) {
        self.child(Cow::Borrowed("td"))
    }

    fn template(&mut self) -> (node: Node<'_>) {
        self.child(Cow::Borrowed("template"))
    }

    fn textarea(&mut self) -> (node: Node<'_>) {
        self.child(Cow::Borrowed("textarea"))
    }

    fn tfoot(&mut self) -> (node: Node<'_>) {
        self.child(Cow::Borrowed("tfoot"))
    }

    fn th(&mut self) -> (node: Node<'_>) {
        self.child(Cow::Borrowed("th"))
    }

    fn thead(&mut self) -> (node: Node<'_>) {
        self.child(Cow::Borrowed("thead"))
    }

    fn time(&mut self) -> (node: Node<'_>) {
        self.child(Cow::Borrowed("time"))
    }

    fn title(&mut self) -> (node: Node<'_>) {
        self.child(Cow::Borrowed("title"))
    }

    fn tr(&mut self) -> (node: Node<'_>) {
        self.child(Cow::Borrowed("tr"))
    }

    fn track(&mut self) -> (void: Void<'_>) {
        self.void_child(Cow::Borrowed("track"))
    }

    fn u(&mut self) -> (node: Node<'_>) {
        self.child(Cow::Borrowed("u"))
    }

    fn ul(&mut self) -> (node: Node<'_>) {
        self.child(Cow::Borrowed("ul"))
    }

    fn var(&mut self) -> (node: Node<'_>) {
        self.child(Cow::Borrowed("var"))
    }

    fn video(&mut self) -> (node: Node<'_>) {
        self.child(Cow::Borrowed("video"))
    }

    fn wbr(&mut self) -> (void: Void<'_>) {
        self.void_child(Cow::Borrowed("wbr"))
    }
}

} // verus!
