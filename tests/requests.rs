use proj_scripts::fs::{authorize_path, fs_permission, FsAccessError};
use proj_scripts::http::{
    authorize_request, http_permission, http_permission_from_parts, method_from_upper,
    parse_method, same_text, wants_bytes, ContentTypes, HttpAccessError, HttpMethod,
    RequestError,
};
use proj_scripts::permissions::{
    ConsentFailure, ConsentProvider, Permission, PermissionError, Permissions,
};

struct Fixed {
    answer: Result<bool, ConsentFailure>,
    asked: usize,
}

impl ConsentProvider for Fixed {
    fn confirm(&mut self, _request: &Permission, _prompt: &str) -> Result<bool, ConsentFailure> {
        self.asked += 1;
        self.answer
    }
}

fn http(s: &str) -> Permission {
    Permission::Http(s.to_string())
}

#[test]
fn url_host_becomes_the_permission() {
    assert_eq!(http_permission("https://example.com/a?b=c"), Ok(http("example.com")));
    assert_eq!(http_permission("http://api.example.com:8080/x"), Ok(http("api.example.com")));
    assert_eq!(http_permission("HTTP://Example.COM/"), Ok(http("example.com")));
}

#[test]
fn url_errors() {
    assert_eq!(http_permission("not a url"), Err(RequestError::MalformedUrl));
    assert_eq!(http_permission(""), Err(RequestError::MalformedUrl));
    assert_eq!(http_permission("ftp://example.com/f"), Err(RequestError::UnsupportedScheme));
    assert_eq!(http_permission("data:text/plain,hi"), Err(RequestError::MissingHost));
}

#[test]
fn url_parts_decide() {
    let some = |a: &str, b: Option<&str>| Some((a.to_string(), b.map(|h| h.to_string())));
    assert_eq!(http_permission_from_parts(None), Err(RequestError::MalformedUrl));
    assert_eq!(http_permission_from_parts(some("https", None)), Err(RequestError::MissingHost));
    assert_eq!(
        http_permission_from_parts(some("ws", Some("h"))),
        Err(RequestError::UnsupportedScheme)
    );
    assert_eq!(http_permission_from_parts(some("http", Some("h"))), Ok(http("h")));
    assert_eq!(http_permission_from_parts(some("https", Some(""))), Ok(http("")));
    assert_eq!(
        http_permission_from_parts(some("httpx", Some("h"))),
        Err(RequestError::UnsupportedScheme)
    );
}

#[test]
fn methods_in_any_case() {
    assert_eq!(parse_method("get"), Ok(HttpMethod::Get));
    assert_eq!(parse_method("Post"), Ok(HttpMethod::Post));
    assert_eq!(parse_method("patch"), Ok(HttpMethod::Patch));
    assert_eq!(parse_method("OPTIONS"), Ok(HttpMethod::Options));
    assert_eq!(parse_method("put"), Ok(HttpMethod::Put));
    assert_eq!(parse_method("hEaD"), Ok(HttpMethod::Head));
    assert_eq!(parse_method("delete"), Err(RequestError::InvalidMethod));
    assert_eq!(parse_method(""), Err(RequestError::InvalidMethod));
    assert_eq!(method_from_upper("get"), None);
    assert_eq!(method_from_upper("GET"), Some(HttpMethod::Get));
}

#[test]
fn body_kind() {
    assert!(wants_bytes(Some(ContentTypes::Bytes)));
    assert!(!wants_bytes(Some(ContentTypes::Text)));
    assert!(!wants_bytes(None));
}

#[test]
fn text_equality() {
    assert!(same_text("abc", "abc"));
    assert!(!same_text("abc", "ab"));
    assert!(!same_text("ab", "abc"));
    assert!(same_text("", ""));
}

#[test]
fn invalid_url_asks_nothing() {
    let mut store = Permissions::new();
    let mut consent = Fixed { answer: Ok(true), asked: 0 };
    assert_eq!(
        authorize_request(&mut store, &mut consent, "gopher://x.org"),
        Err(HttpAccessError::Request(RequestError::UnsupportedScheme))
    );
    assert_eq!(consent.asked, 0);
    assert!(store.allowed.is_empty() && store.denied.is_empty());
}

#[test]
fn request_access_is_cached() {
    let mut store = Permissions::new();
    let mut consent = Fixed { answer: Ok(false), asked: 0 };
    let denied = Err(HttpAccessError::Denied(PermissionError(http("example.com"))));
    assert_eq!(authorize_request(&mut store, &mut consent, "https://example.com/a"), denied);
    assert_eq!(authorize_request(&mut store, &mut consent, "http://example.com/b"), denied);
    assert_eq!(consent.asked, 1);
    assert_eq!(store.denied, vec![http("example.com")]);

    let mut consent = Fixed { answer: Ok(true), asked: 0 };
    assert_eq!(authorize_request(&mut store, &mut consent, "https://ok.org"), Ok(()));
    assert_eq!(authorize_request(&mut store, &mut consent, "https://ok.org/x"), Ok(()));
    assert_eq!(consent.asked, 1);
}

#[test]
fn path_is_checked_in_absolute_form() {
    let mut store = Permissions::new();
    let mut consent = Fixed { answer: Ok(true), asked: 0 };
    assert_eq!(
        authorize_path(&mut store, &mut consent, "/tmp/x/../y.txt", "/"),
        Ok("/tmp/y.txt".to_string())
    );
    assert_eq!(store.allowed, vec![Permission::Fs("/tmp/y.txt".to_string())]);
    assert_eq!(consent.asked, 1);
}

#[test]
fn denied_path_is_reported() {
    let mut store = Permissions::new();
    let mut consent = Fixed { answer: Err(ConsentFailure), asked: 0 };
    let p = Permission::Fs("/etc/passwd".to_string());
    assert_eq!(
        authorize_path(&mut store, &mut consent, "/etc/passwd", "/home"),
        Err(FsAccessError::Denied(PermissionError(p.clone())))
    );
    assert_eq!(
        authorize_path(&mut store, &mut consent, "/etc/./passwd", "/home"),
        Err(FsAccessError::Denied(PermissionError(p)))
    );
    assert_eq!(consent.asked, 1);
}

#[test]
fn relative_path_is_made_absolute() {
    assert_eq!(fs_permission("x/../y.txt", "/tmp"), Ok(Permission::Fs("/tmp/y.txt".to_string())));
    assert_eq!(fs_permission("", "/srv/p"), Ok(Permission::Fs("/srv/p".to_string())));
    assert_eq!(fs_permission("../q", "/srv/p"), Ok(Permission::Fs("/srv/q".to_string())));
}

#[test]
fn relative_working_directory_is_refused() {
    let mut store = Permissions::new();
    let mut consent = Fixed { answer: Ok(true), asked: 0 };
    assert_eq!(fs_permission("a", "tmp"), Err(FsAccessError::InvalidPath));
    assert_eq!(authorize_path(&mut store, &mut consent, "a", ""), Err(FsAccessError::InvalidPath));
    assert_eq!(consent.asked, 0);
    assert!(store.allowed.is_empty() && store.denied.is_empty());
}
