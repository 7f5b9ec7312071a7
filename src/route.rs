use vstd::prelude::*;
use crate::decimal::{decimal, format_u32, lemma_parse_decimal, parse_u32, parsed_u32};
use crate::text::{same_text, texts};

verus! {

/// The pages of the application, one variant per entry of the route table.
pub enum Route {
    /// `/`
    Home {},
    /// `/about`
    About {},
    /// `/blog/:id`
    BlogPost { id: u32 },
    /// `/:..route`: every path that no other entry takes, by its segments.
    NotFound { route: Vec<String> },
}

/// What a [`Route`] denotes.
pub enum RouteView {
    Home,
    About,
    BlogPost { id: u32 },
    NotFound { route: Seq<Seq<char>> },
}

impl View for Route {
    type V = RouteView;

    open spec fn view(&self) -> RouteView {
        match self {
            Route::Home {  } => RouteView::Home,
            Route::About {  } => RouteView::About,
            Route::BlogPost { id } => RouteView::BlogPost { id: *id },
            Route::NotFound { route } => RouteView::NotFound { route: texts(route@) },
        }
    }
}

/// The route table: the route that a path leads to, given the path's segments
/// (the text between slashes, after the leading one).
pub open spec fn route_of(segs: Seq<Seq<char>>) -> RouteView {
    if segs.len() == 0 {
        RouteView::Home
    } else if segs.len() == 1 && segs[0] == "about"@ {
        RouteView::About
    } else if segs.len() == 2 && segs[0] == "blog"@ && parsed_u32(segs[1]) is Some {
        RouteView::BlogPost { id: parsed_u32(segs[1])->0 }
    } else {
        RouteView::NotFound { route: segs }
    }
}

/// The segments of the path of a route.
pub open spec fn segments_of(r: RouteView) -> Seq<Seq<char>> {
    match r {
        RouteView::Home => Seq::empty(),
        RouteView::About => seq!["about"@],
        RouteView::BlogPost { id } => seq!["blog"@, decimal(id as nat)],
        RouteView::NotFound { route } => route,
    }
}

/// A route that its own path leads back to: a fallback route whose segments no
/// other entry of the table takes.
pub open spec fn reachable(r: RouteView) -> bool {
    match r {
        RouteView::NotFound { route } => route_of(route) is NotFound,
        _ => true,
    }
}

/// The table sends the path of every reachable route back to that route.
pub proof fn lemma_route_round_trip(r: RouteView)
    requires
        reachable(r),
    ensures
        route_of(segments_of(r)) == r,
{
    reveal_strlit("about");
    reveal_strlit("blog");
    match r {
        RouteView::BlogPost { id } => {
            lemma_parse_decimal(id);
            assert("blog"@.len() == 4 && "about"@.len() == 5);
        },
        _ => {},
    }
}

impl Route {
    /// The route that the path with segments `segs` leads to.
    pub fn from_segments(segs: &Vec<String>) -> (r: Route)
        ensures
            r@ == route_of(texts(segs@)),
    {
        let ghost t = texts(segs@);
        if segs.len() == 0 {
            return Route::Home {  };
        }
        assert(t[0] == segs@[0]@);
        if segs.len() == 1 && same_text(segs[0].as_str(), "about") {
            return Route::About {  };
        }
        if segs.len() == 2 && same_text(segs[0].as_str(), "blog") {
            assert(t[1] == segs@[1]@);
            match parse_u32(segs[1].as_str()) {
                Some(id) => {
                    return Route::BlogPost { id };
                },
                None => {},
            }
        }
        let mut route: Vec<String> = Vec::new();
        let mut i: usize = 0;
        while i < segs.len()
            invariant
                i <= segs.len(),
                route@ == segs@.take(i as int),
                t == texts(segs@),
            decreases segs.len() - i,
        {
            route.push(segs[i].clone());
            assert(route@ =~= segs@.take(i + 1));
            i = i + 1;
        }
        assert(route@ =~= segs@);
        Route::NotFound { route }
    }

    /// The segments of this route's path.
    pub fn segments(&self) -> (r: Vec<String>)
        ensures
            texts(r@) == segments_of(self@),
    {
        match self {
            Route::Home {  } => Vec::new(),
            Route::About {  } => {
                let r = vec![String::from_str("about")];
                assert(texts(r@) =~= segments_of(self@));
                r
            },
            Route::BlogPost { id } => {
                let r = vec![String::from_str("blog"), format_u32(*id)];
                assert(texts(r@) =~= segments_of(self@));
                r
            },
            Route::NotFound { route } => {
                let mut r: Vec<String> = Vec::new();
                let mut i: usize = 0;
                while i < route.len()
                    invariant
                        i <= route.len(),
                        r@ == route@.take(i as int),
                    decreases route.len() - i,
                {
                    r.push(route[i].clone());
                    assert(r@ =~= route@.take(i + 1));
                    i = i + 1;
                }
                assert(r@ =~= route@);
                r
            },
        }
    }
}

} // verus!
