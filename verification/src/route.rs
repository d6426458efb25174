//! The routes of the application and the page that each one shows.

use vstd::prelude::*;

verus! {

/// A place in the application. The host's router finds the route of a path:
/// `/posts/:id`, `/posts`, `/authors/:id`, `/authors`, `/` and `/404` in the
/// order of the variants, and `NotFound` for every other path.
#[derive(Clone, Copy, PartialEq, Eq, Structural, Debug)]
pub enum Route {
    Post { id: u64 },
    Posts,
    Author { id: u64 },
    Authors,
    Home,
    NotFound,
}

/// What a route shows.
#[derive(Clone, Debug, PartialEq, Eq)]
pub enum Page {
    /// The counter component, freshly mounted.
    Counter,
    /// A heading and nothing else.
    Heading(String),
    /// Nothing.
    Empty,
}

/// The heading of the page for a path that leads nowhere.
pub open spec fn not_found_heading() -> Seq<char> {
    "404"@
}

/// The page of a route: the counter at home, a heading for a path that leads
/// nowhere, and nothing for posts and authors, which have no page.
pub fn switch(routes: &Route) -> (page: Page)
    ensures
        match *routes {
            Route::Home => page is Counter,
            Route::NotFound => page is Heading && page->Heading_0@ == not_found_heading(),
            _ => page is Empty,
        },
{
    match routes {
        Route::Home => Page::Counter,
        Route::NotFound => Page::Heading("404".to_owned()),
        _ => Page::Empty,
    }
}

} // verus!
