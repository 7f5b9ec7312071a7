use fullstack_template::component::{Component, ComponentProps};
use fullstack_template::decimal::{format_u32, parse_u32};
use fullstack_template::pages::{page, BlogPost, Home, NotFound, Page};
use fullstack_template::route::Route;
use fullstack_template::server::{fetch_for, server_function, Fetch, Outcome, ResponseData, ServerComponent};
use fullstack_template::text::{concat_text, join_with, same_text};

fn strings(parts: &[&str]) -> Vec<String> {
    parts.iter().map(|s| s.to_string()).collect()
}

fn route_kind(r: &Route) -> String {
    match r {
        Route::Home {} => "home".to_string(),
        Route::About {} => "about".to_string(),
        Route::BlogPost { id } => format!("blog {}", id),
        Route::NotFound { route } => format!("missing {}", route.join("|")),
    }
}

fn links_of(p: &Page) -> Vec<(String, String)> {
    p.links.iter().map(|l| (route_kind(&l.to), l.label.clone())).collect()
}

#[test]
fn format_u32_writes_decimal() {
    assert_eq!(format_u32(0), "0");
    assert_eq!(format_u32(7), "7");
    assert_eq!(format_u32(10), "10");
    assert_eq!(format_u32(1234567), "1234567");
    assert_eq!(format_u32(u32::MAX), "4294967295");
}

#[test]
fn parse_u32_reads_decimal() {
    assert_eq!(parse_u32("0"), Some(0));
    assert_eq!(parse_u32("42"), Some(42));
    assert_eq!(parse_u32("+42"), Some(42));
    assert_eq!(parse_u32("007"), Some(7));
    assert_eq!(parse_u32("4294967295"), Some(u32::MAX));
}

#[test]
fn parse_u32_rejects_what_std_rejects() {
    for s in ["", "+", "-1", "4294967296", "99999999999", "12a", " 1", "1 ", "++1", "\u{0663}"] {
        assert_eq!(parse_u32(s), None, "{:?}", s);
        assert!(s.parse::<u32>().is_err(), "{:?}", s);
    }
}

#[test]
fn parse_u32_agrees_with_format() {
    for n in [0u32, 1, 9, 10, 99, 100, 65535, 4000000000, u32::MAX] {
        assert_eq!(parse_u32(&format_u32(n)), Some(n));
        assert_eq!(format_u32(n), n.to_string());
    }
}

#[test]
fn text_helpers() {
    assert!(same_text("about", "about"));
    assert!(!same_text("about", "abou"));
    assert!(!same_text("blog", "blug"));
    assert!(same_text("", ""));
    assert_eq!(concat_text("ab", "cd"), "abcd");
    assert_eq!(join_with(&strings(&[]), "/"), "");
    assert_eq!(join_with(&strings(&["a"]), "/"), "a");
    assert_eq!(join_with(&strings(&["a", "b", "c"]), "/"), "a/b/c");
    assert_eq!(join_with(&strings(&["", ""]), "/"), "/");
}

#[test]
fn route_table_matches_paths() {
    assert_eq!(route_kind(&Route::from_segments(&strings(&[]))), "home");
    assert_eq!(route_kind(&Route::from_segments(&strings(&["about"]))), "about");
    assert_eq!(route_kind(&Route::from_segments(&strings(&["blog", "12"]))), "blog 12");
    assert_eq!(route_kind(&Route::from_segments(&strings(&["blog", "+3"]))), "blog 3");
}

#[test]
fn route_table_falls_back_to_not_found() {
    assert_eq!(route_kind(&Route::from_segments(&strings(&["blog"]))), "missing blog");
    assert_eq!(route_kind(&Route::from_segments(&strings(&["blog", "x"]))), "missing blog|x");
    assert_eq!(
        route_kind(&Route::from_segments(&strings(&["blog", "4294967296"]))),
        "missing blog|4294967296"
    );
    assert_eq!(route_kind(&Route::from_segments(&strings(&["about", "more"]))), "missing about|more");
    assert_eq!(route_kind(&Route::from_segments(&strings(&["About"]))), "missing About");
    assert_eq!(route_kind(&Route::from_segments(&strings(&["a", "b", "c"]))), "missing a|b|c");
}

#[test]
fn route_segments_lead_back_to_route() {
    let routes = vec![
        Route::Home {},
        Route::About {},
        Route::BlogPost { id: 0 },
        Route::BlogPost { id: u32::MAX },
        Route::NotFound { route: strings(&["x", "y"]) },
    ];
    for r in routes {
        let segs = r.segments();
        assert_eq!(route_kind(&Route::from_segments(&segs)), route_kind(&r));
    }
    assert_eq!(Route::BlogPost { id: 25 }.segments(), strings(&["blog", "25"]));
    assert_eq!(Route::About {}.segments(), strings(&["about"]));
    assert!(Route::Home {}.segments().is_empty());
}

#[test]
fn home_page() {
    let p = Home();
    assert_eq!(p.class, "home");
    assert_eq!(p.heading, "Welcome to Dioxus 0.7");
    assert!(p.text.is_none());
    assert_eq!(
        links_of(&p),
        vec![
            ("about".to_string(), "About".to_string()),
            ("blog 1".to_string(), "Blog Post 1".to_string())
        ]
    );
}

#[test]
fn about_page() {
    let p = page(&Route::About {});
    assert_eq!(p.class, "about");
    assert_eq!(p.heading, "About");
    assert!(p.text.is_none());
    assert_eq!(links_of(&p), vec![("home".to_string(), "Back to Home".to_string())]);
}

#[test]
fn blog_post_page() {
    let p = BlogPost(42);
    assert_eq!(p.class, "blog-post");
    assert_eq!(p.heading, "Blog Post 42");
    assert_eq!(p.text.as_deref(), Some("This is blog post number 42"));
    assert_eq!(links_of(&p), vec![("home".to_string(), "Back to Home".to_string())]);
    assert_eq!(page(&Route::BlogPost { id: 7 }).heading, "Blog Post 7");
}

#[test]
fn not_found_page() {
    let p = NotFound(&strings(&["no", "such", "page"]));
    assert_eq!(p.class, "not-found");
    assert_eq!(p.heading, "404 - Not Found");
    assert_eq!(p.text.as_deref(), Some("Route: no/such/page"));
    assert_eq!(links_of(&p), vec![("home".to_string(), "Home".to_string())]);
    let empty = page(&Route::NotFound { route: Vec::new() });
    assert_eq!(empty.text.as_deref(), Some("Route: "));
}

#[test]
fn component_shows_title() {
    let props = ComponentProps { title: "Hello".to_string() };
    let s = Component(&props);
    assert_eq!(s.class, "component");
    assert_eq!(s.heading, "Hello");
    let d = ComponentProps::default();
    assert_eq!(d.title, "");
    assert_eq!(Component(&d).heading, "");
}

#[test]
fn server_function_echoes_parameter() {
    let r = server_function("abc".to_string());
    assert_eq!(r.id, 1);
    assert_eq!(r.message, "Processed: abc");
    assert_eq!(server_function(String::new()).message, "Processed: ");
}

#[test]
fn empty_input_is_answered_without_a_call() {
    match fetch_for(&String::new()) {
        Fetch::Ready(d) => {
            assert_eq!(d.id, 0);
            assert_eq!(d.message, "Enter input");
        }
        Fetch::Remote(_) => panic!("an empty input needs no call"),
    }
    match fetch_for(&"query".to_string()) {
        Fetch::Remote(p) => assert_eq!(p, "query"),
        Fetch::Ready(_) => panic!("a non-empty input is sent"),
    }
}

#[test]
fn server_component_shows_each_outcome() {
    let input = "text".to_string();
    let v = ServerComponent(&input, &Outcome::Loading);
    assert_eq!(v.class, "server-component");
    assert_eq!(v.value, "text");
    assert_eq!(v.placeholder, "Enter data");
    assert_eq!(v.lines, strings(&["Loading..."]));
    let loaded = Outcome::Loaded(ResponseData { id: 305, message: "done".to_string() });
    assert_eq!(ServerComponent(&input, &loaded).lines, strings(&["ID: 305", "Message: done"]));
    let failed = Outcome::Failed("timed out".to_string());
    assert_eq!(ServerComponent(&input, &failed).lines, strings(&["Error: timed out"]));
}
