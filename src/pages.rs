use vstd::prelude::*;
use crate::decimal::{decimal, format_u32};
use crate::route::{Route, RouteView};
use crate::text::{concat_text, join, join_with, texts};

verus! {

/// A link to a route, with the text it shows.
pub struct Link {
    pub to: Route,
    pub label: String,
}

/// What the view of a route shows: a container of a style class holding a
/// heading, at most one paragraph, then links.
pub struct Page {
    pub class: String,
    pub heading: String,
    pub text: Option<String>,
    pub links: Vec<Link>,
}

pub struct PageView {
    pub class: Seq<char>,
    pub heading: Seq<char>,
    pub text: Option<Seq<char>>,
    pub links: Seq<(RouteView, Seq<char>)>,
}

impl View for Page {
    type V = PageView;

    open spec fn view(&self) -> PageView {
        PageView {
            class: self.class@,
            heading: self.heading@,
            text: match self.text {
                Some(t) => Some(t@),
                None => None,
            },
            links: self.links@.map_values(|l: Link| (l.to@, l.label@)),
        }
    }
}

/// The page that each route shows.
pub open spec fn page_of(r: RouteView) -> PageView {
    match r {
        RouteView::Home => PageView {
            class: "home"@,
            heading: "Welcome to Dioxus 0.7"@,
            text: None,
            links: seq![(RouteView::About, "About"@), (RouteView::BlogPost { id: 1 }, "Blog Post 1"@)],
        },
        RouteView::About => PageView {
            class: "about"@,
            heading: "About"@,
            text: None,
            links: seq![(RouteView::Home, "Back to Home"@)],
        },
        RouteView::BlogPost { id } => PageView {
            class: "blog-post"@,
            heading: "Blog Post "@ + decimal(id as nat),
            text: Some("This is blog post number "@ + decimal(id as nat)),
            links: seq![(RouteView::Home, "Back to Home"@)],
        },
        RouteView::NotFound { route } => PageView {
            class: "not-found"@,
            heading: "404 - Not Found"@,
            text: Some("Route: "@ + join(route, "/"@)),
            links: seq![(RouteView::Home, "Home"@)],
        },
    }
}

fn link(to: Route, label: &str) -> (r: Link)
    ensures
        r.to@ == to@,
        r.label@ == label@,
{
    Link { to, label: String::from_str(label) }
}

/// The landing page.
#[allow(non_snake_case)]
pub fn Home() -> (r: Page)
    ensures
        r@ == page_of(RouteView::Home),
{
    let links = vec![link(Route::About {  }, "About"), link(Route::BlogPost { id: 1 }, "Blog Post 1")];
    let r = Page {
        class: String::from_str("home"),
        heading: String::from_str("Welcome to Dioxus 0.7"),
        text: None,
        links,
    };
    assert(r@.links =~= page_of(RouteView::Home).links);
    r
}

/// The page about the application.
#[allow(non_snake_case)]
pub fn About() -> (r: Page)
    ensures
        r@ == page_of(RouteView::About),
{
    let links = vec![link(Route::Home {  }, "Back to Home")];
    let r = Page {
        class: String::from_str("about"),
        heading: String::from_str("About"),
        text: None,
        links,
    };
    assert(r@.links =~= page_of(RouteView::About).links);
    r
}

/// The page of the blog post numbered `id`.
#[allow(non_snake_case)]
pub fn BlogPost(id: u32) -> (r: Page)
    ensures
        r@ == page_of(RouteView::BlogPost { id }),
{
    let number = format_u32(id);
    let links = vec![link(Route::Home {  }, "Back to Home")];
    let r = Page {
        class: String::from_str("blog-post"),
        heading: concat_text("Blog Post ", number.as_str()),
        text: Some(concat_text("This is blog post number ", number.as_str())),
        links,
    };
    assert(r@.links =~= page_of(RouteView::BlogPost { id }).links);
    r
}

/// The page for a path that no route takes, given its segments.
#[allow(non_snake_case)]
pub fn NotFound(route: &Vec<String>) -> (r: Page)
    ensures
        r@ == page_of(RouteView::NotFound { route: texts(route@) }),
{
    let joined = join_with(route, "/");
    let links = vec![link(Route::Home {  }, "Home")];
    let r = Page {
        class: String::from_str("not-found"),
        heading: String::from_str("404 - Not Found"),
        text: Some(concat_text("Route: ", joined.as_str())),
        links,
    };
    assert(r@.links =~= page_of(RouteView::NotFound { route: texts(route@) }).links);
    r
}

/// The page that `route` shows.
pub fn page(route: &Route) -> (r: Page)
    ensures
        r@ == page_of(route@),
{
    match route {
        Route::Home {  } => Home(),
        Route::About {  } => About(),
        Route::BlogPost { id } => BlogPost(*id),
        Route::NotFound { route } => NotFound(route),
    }
}

} // verus!
