use dioxus_utils::{encode_component, FlUrl, GlobalAppSettings};

fn headless() -> GlobalAppSettings {
    GlobalAppSettings::new()
}

#[test]
fn path_join_ignores_separator_duplication() {
    let s = headless();
    let a = FlUrl::new(&s, "https://a.com/").append_path_segment("/b");
    let b = FlUrl::new(&s, "https://a.com").append_path_segment("b");
    let c = FlUrl::new(&s, "https://a.com/").append_path_segment("b");
    assert_eq!(a.get_path_and_query(), "https://a.com/b");
    assert_eq!(b.get_path_and_query(), "https://a.com/b");
    assert_eq!(c.get_path_and_query(), "https://a.com/b");
}

#[test]
fn query_keeps_order_and_encodes() {
    let u = FlUrl::new(&headless(), "https://a.com")
        .append_query_param("q", Some("a b"))
        .append_query_param("n", None);
    assert_eq!(u.get_path_and_query(), "https://a.com?q=a%20b&n");
}

#[test]
fn query_param_if_some_none_is_no_op() {
    let u = FlUrl::new(&headless(), "https://a.com").append_query_param("x", Some("1"));
    let before = u.get_path_and_query();
    let u = u.append_query_param_if_some("y", None);
    assert_eq!(u.get_path_and_query(), before);
    let u = u.append_query_param_if_some("y", Some("2"));
    assert_eq!(u.get_path_and_query(), "https://a.com?x=1&y=2");
}

#[test]
fn relative_path_resolves_against_origin() {
    let s = GlobalAppSettings::with_location(
        "https://site.org/page".to_string(),
        "https://site.org".to_string(),
    );
    assert_eq!(s.get_href(), "https://site.org/page");
    assert_eq!(s.get_origin(), "https://site.org");
    assert_eq!(FlUrl::new(&s, "/api/items").get_path_and_query(), "https://site.org/api/items");
    assert_eq!(FlUrl::new(&s, "api/items").get_path_and_query(), "https://site.org/api/items");
    let t = GlobalAppSettings::with_location(String::new(), "https://site.org/".to_string());
    assert_eq!(FlUrl::new(&t, "/api").get_path_and_query(), "https://site.org/api");
}

#[test]
fn relative_path_in_headless_context() {
    assert_eq!(FlUrl::new(&headless(), "api").get_path_and_query(), "/api");
    assert_eq!(headless().get_origin(), "");
    assert_eq!(headless().get_href(), "");
}

#[test]
fn reserved_characters_are_encoded_once() {
    let u = FlUrl::new(&headless(), "http://h")
        .append_query_param("k&=?#", Some("%20 é"));
    assert_eq!(u.get_path_and_query(), "http://h?k%26%3D%3F%23=%2520%20%C3%A9");
}

#[test]
fn unreserved_characters_are_kept() {
    assert_eq!(encode_component("aZ09-._~"), "aZ09-._~");
    assert_eq!(encode_component(""), "");
    assert_eq!(encode_component("/"), "%2F");
}

#[test]
fn path_segment_after_query_keeps_query() {
    let u = FlUrl::new(&headless(), "https://a.com")
        .append_query_param("a", Some("1"))
        .append_path_segment("b");
    assert_eq!(u.get_path_and_query(), "https://a.com/b?a=1");
}

#[test]
fn only_http_schemes_are_absolute() {
    let s = GlobalAppSettings::with_location(String::new(), "https://site.org".to_string());
    assert_eq!(FlUrl::new(&s, "httpbin/x").get_path_and_query(), "https://site.org/httpbin/x");
    assert_eq!(FlUrl::new(&s, "http://other.net/x").get_path_and_query(), "http://other.net/x");
    assert_eq!(FlUrl::new(&s, "https://other.net").get_path_and_query(), "https://other.net");
    assert_eq!(FlUrl::new(&s, "http:/x").get_path_and_query(), "https://site.org/http:/x");
}
