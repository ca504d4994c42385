//! The home page.

use vstd::prelude::*;

verus! {

/// The session, as far as the home page reads it.
#[derive(Debug, PartialEq, Eq)]
pub struct BoltContext {
    /// The tab that is open in the request pane.
    pub req_tab: u8,
}

/// A part of the window that is drawn by a view of its own.
#[derive(Debug, Clone, Copy, PartialEq, Eq)]
pub enum Part {
    Navbar,
    /// The sidebar, with the entry that is selected in it.
    Sidebar(u8),
    /// The list of requests.
    Requests,
    /// The request pane, with the tab that is open in it.
    Request(u8),
    Response,
}

/// The classes of the page's `div` elements.
#[derive(Debug, Clone, Copy, PartialEq, Eq)]
pub enum Class {
    Main,
    Sidebars,
    Resizer,
    Content,
    Resizer2,
}

/// One step of a page's markup, read from the top.
#[derive(Debug, Clone, Copy, PartialEq, Eq)]
pub enum Markup {
    /// `<body>` opens.
    Body,
    /// A `<div>` of the given class opens.
    Div(Class),
    /// The element that was opened last and is still open closes.
    End,
    /// A part is drawn here.
    Part(Part),
}

/// A page: its markup in document order.
#[derive(Debug, PartialEq, Eq)]
pub struct Html {
    pub markup: Vec<Markup>,
}

/// The markup of the home page: the navbar above the main area; in the
/// main area the two sidebars, a resizer, and the content; in the content
/// the request pane on the given tab, a second resizer, and the response
/// pane.
pub open spec fn home_markup(req_tab: u8) -> Seq<Markup> {
    seq![
        Markup::Body,
        Markup::Part(Part::Navbar),
        Markup::Div(Class::Main),
        Markup::Div(Class::Sidebars),
        Markup::Part(Part::Sidebar(0)),
        Markup::Part(Part::Requests),
        Markup::End,
        Markup::Div(Class::Resizer),
        Markup::End,
        Markup::Div(Class::Content),
        Markup::Part(Part::Request(req_tab)),
        Markup::Div(Class::Resizer2),
        Markup::End,
        Markup::Part(Part::Response),
        Markup::End,
        Markup::End,
        Markup::End,
    ]
}

/// Lays out the home page for a session. The request pane shows the tab
/// that is open in the session; the session itself is left as it is.
pub fn home_view(bctx: &mut BoltContext) -> (page: Html)
    ensures
        page.markup@ == home_markup(old(bctx).req_tab),
        *final(bctx) == *old(bctx),
{
    let req_tab = bctx.req_tab;
    let mut markup: Vec<Markup> = Vec::new();
    markup.push(Markup::Body);
    markup.push(Markup::Part(Part::Navbar));
    markup.push(Markup::Div(Class::Main));
    markup.push(Markup::Div(Class::Sidebars));
    markup.push(Markup::Part(Part::Sidebar(0)));
    markup.push(Markup::Part(Part::Requests));
    markup.push(Markup::End);
    markup.push(Markup::Div(Class::Resizer));
    markup.push(Markup::End);
    markup.push(Markup::Div(Class::Content));
    markup.push(Markup::Part(Part::Request(req_tab)));
    markup.push(Markup::Div(Class::Resizer2));
    markup.push(Markup::End);
    markup.push(Markup::Part(Part::Response));
    markup.push(Markup::End);
    markup.push(Markup::End);
    markup.push(Markup::End);
    assert(markup@ =~= home_markup(req_tab));
    Html { markup }
}

} // verus!
