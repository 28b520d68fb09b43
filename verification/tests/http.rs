use wifi_onboard::admission::Admission;
use wifi_onboard::http::{
    answer, page, rejection, root_endpoint, Method, PAGE_BODY, PAGE_CONTENT_TYPE, ROOT_PATH,
    STATUS_OK, STATUS_TOO_MANY_REQUESTS,
};

#[test]
fn the_page_is_served_on_get_root() {
    let endpoint = root_endpoint();
    assert_eq!(endpoint.path, "/");
    assert_eq!(endpoint.method, Method::Get);
    assert_eq!(ROOT_PATH, "/");
}

#[test]
fn the_page_has_status_type_and_body() {
    let response = page();
    assert_eq!(response.status, 200);
    assert_eq!(response.content_type, Some("text/html; charset=utf-8"));
    assert_eq!(response.body, PAGE_BODY);
    assert_eq!(STATUS_OK, 200);
    assert_eq!(PAGE_CONTENT_TYPE, "text/html; charset=utf-8");
}

#[test]
fn the_page_body_byte_for_byte() {
    let lines: Vec<&str> = PAGE_BODY.split('\n').collect();
    assert_eq!(
        lines,
        vec![
            "",
            "\t\t\t\t\t<html>",
            "\t\t\t\t\t\t<body>",
            "\t\t\t\t\t\t\t<h1>Hello World</h1>",
            "\t\t\t\t\t\t</body>",
            "\t\t\t\t\t</html>",
            "\t\t\t\t",
        ]
    );
    assert_eq!(PAGE_BODY.len(), 85);
    assert!(PAGE_BODY.is_ascii());
}

#[test]
fn the_rejection_is_empty() {
    let response = rejection();
    assert_eq!(response.status, 429);
    assert_eq!(response.content_type, None);
    assert_eq!(response.body, "");
    assert_eq!(STATUS_TOO_MANY_REQUESTS, 429);
}

#[test]
fn the_answer_follows_the_decision() {
    assert_eq!(answer(Admission::Forward), page());
    assert_eq!(answer(Admission::TooManyRequests), rejection());
    assert_ne!(page(), rejection());
}
