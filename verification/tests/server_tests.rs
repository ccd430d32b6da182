use mdserve::handler::handle_request;
use mdserve::paths::base_name;
use mdserve::paths::resolve_path;
use mdserve::template::build_page;

const STYLE_BLOCK: &str = "<style>\n      body { font-family: sans-serif; max-width: 800px; margin: auto; padding: 2em; }\n      h1, h2, h3 { color: #444; }\n      pre, code { background: #f4f4f4; padding: 0.2em 0.4em; }\n    </style>";

#[test]
fn nested_path_resolves_under_base() {
    assert_eq!(resolve_path("sub/dir/page.md"), "static/sub/dir/page.md");
    assert_eq!(resolve_path("page.md"), "static/page.md");
}

#[test]
fn base_name_of_nested_path() {
    assert_eq!(base_name("static/sub/dir/page.md"), "page.md");
}

#[test]
fn base_name_without_separator() {
    assert_eq!(base_name("readme.md"), "readme.md");
}

#[test]
fn base_name_of_path_ending_in_separator() {
    assert_eq!(base_name("static/dir/"), "");
}

#[test]
fn missing_file_yields_not_found_body() {
    let r = handle_request("missing.md", None);
    assert_eq!(r.status, 404);
    assert!(r.content_type.is_none());
    assert_eq!(r.body, "Fichier non trouvé: static/missing.md");
}

#[test]
fn missing_nested_file_names_exact_path() {
    let r = handle_request("sub/dir/page.md", None);
    assert_eq!(r.status, 404);
    assert_eq!(r.body, "Fichier non trouvé: static/sub/dir/page.md");
}

#[test]
fn successful_response_has_template_and_title() {
    let r = handle_request("notes.md", Some(String::from("plain text")));
    assert_eq!(r.status, 200);
    assert_eq!(r.content_type.as_deref(), Some("text/html; charset=utf-8"));
    assert!(r.body.contains(STYLE_BLOCK));
    assert!(r.body.contains("<title>notes.md</title>"));
    assert!(r.body.starts_with("<!DOCTYPE html>"));
    assert!(r.body.ends_with("</html>"));
}

#[test]
fn markdown_fidelity_heading_and_emphasis() {
    let r = handle_request("guide.md", Some(String::from("# Title\n\nHello **world**")));
    assert_eq!(r.status, 200);
    let body_start = r.body.find("<body>").unwrap();
    let body_end = r.body.find("</body>").unwrap();
    let fragment = &r.body[body_start..body_end];
    assert!(fragment.contains("<h1>Title</h1>"));
    assert!(fragment.contains("<strong>world</strong>"));
    assert!(!fragment.contains("**world**"));
}

#[test]
fn repeated_request_is_byte_identical() {
    let content = "# Same\n\ncontent";
    let r1 = handle_request("same.md", Some(String::from(content)));
    let r2 = handle_request("same.md", Some(String::from(content)));
    assert_eq!(r1.body, r2.body);
    assert_eq!(r1.status, r2.status);
    assert_eq!(r1.content_type, r2.content_type);

    let m1 = handle_request("gone.md", None);
    let m2 = handle_request("gone.md", None);
    assert_eq!(m1.body, m2.body);
}

#[test]
fn empty_file_yields_bare_template() {
    let r = handle_request("empty.md", Some(String::new()));
    assert_eq!(r.status, 200);
    let expected = format!(
        "<!DOCTYPE html>\n<html>\n  <head>\n    <meta charset=\"utf-8\">\n    <title>empty.md</title>\n    {}\n  </head>\n  <body></body>\n</html>",
        STYLE_BLOCK
    );
    assert_eq!(r.body, expected);
}

#[test]
fn build_page_places_title_and_fragment() {
    let page = build_page("t.md", "<p>x</p>");
    let expected = format!(
        "<!DOCTYPE html>\n<html>\n  <head>\n    <meta charset=\"utf-8\">\n    <title>t.md</title>\n    {}\n  </head>\n  <body><p>x</p></body>\n</html>",
        STYLE_BLOCK
    );
    assert_eq!(page, expected);
}
