use shrs::controllers::pages::{
    main_page, main_page_context, main_page_template, render_result_page, result_page_context,
    result_page_template, PageResponse,
};

#[test]
fn pages_name_their_templates() {
    assert_eq!(main_page_template(), "index.html");
    assert_eq!(result_page_template(), "new_short/index.html");
}

#[test]
fn main_page_is_rendered_with_its_title() {
    assert_eq!(main_page_context("sh.rs"), vec![("title".to_string(), "sh.rs".to_string())]);
}

#[test]
fn result_page_is_rendered_with_identifier_and_title() {
    assert_eq!(
        result_page_context("sh.rs", "AQIDBAUGBwg"),
        vec![
            ("short".to_string(), "AQIDBAUGBwg".to_string()),
            ("title".to_string(), "sh.rs".to_string()),
        ]
    );
}

#[test]
fn rendered_pages_are_sent() {
    let response = main_page(Ok("<html></html>".to_string()));
    assert_eq!(response, PageResponse::Html("<html></html>".to_string()));
    assert_eq!(response.status(), 200);
    let response = render_result_page::<()>(Ok("<p>AQIDBAUGBwg</p>".to_string()));
    assert_eq!(response, PageResponse::Html("<p>AQIDBAUGBwg</p>".to_string()));
}

#[test]
fn main_page_reports_why_rendering_failed() {
    let response = main_page(Err("template not found".to_string()));
    assert_eq!(response, PageResponse::Failed("template not found".to_string()));
    assert_eq!(response.status(), 500);
}

#[test]
fn result_page_hides_why_rendering_failed() {
    let response = render_result_page(Err("template not found"));
    assert_eq!(response, PageResponse::Failed("Failed to render page".to_string()));
    assert_eq!(response.status(), 500);
}
