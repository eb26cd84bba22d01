use web_core::error::{
    internal_app_error, server_error_response, AppError, ErrorField, InternalAppError,
};
use web_core::models::HelloWorld;
use web_core::response::{
    map_view_render_result, redirect, Body, HttpResponse, OriginalUrl, ResponseStatus,
    ServerResponse, StatusCode,
};
use web_core::view_template::{ViewTemplate, ViewTemplateBase};

#[test]
fn server_redirect() {
    let _ = redirect("", None, None);
    let _ = redirect("", Some("".to_string()), None);
    let _ = redirect("", Some("".to_string()), Some(404));

    // Named.
    let _ = redirect("", Some("".to_string()), None);
    let _ = redirect("", None, Some(404));
    let _ = redirect("", None, Some(ntex::http::StatusCode::NOT_FOUND.as_u16()));
    let _ = redirect("", Some("".to_string()), Some(404));
    let _ = redirect("", Some("".to_string()), Some(ntex::http::StatusCode::NOT_FOUND.as_u16()));

    // Optional.
    let _ = redirect("", None, None);
    let _ = redirect("", Some("".to_string()), None);
    let _ = redirect("", None, Option::<u16>::None);
    let _ = redirect("", None, Some(404));
    let _ = redirect("", Some("".to_string()), Option::<u16>::None);
}

#[test]
fn a_redirect_goes_out_with_302_unless_told() {
    let found = redirect("/test", None, None).unwrap();
    assert_eq!(found.status, StatusCode::found());
    assert_eq!(found.status.as_u16(), 302);
    assert_eq!(found.location.as_deref(), Some("/test"));
    assert!(found.original_url.is_none());
    assert!(found.error_field.is_none());
    assert!(matches!(found.body, Body::Empty));

    let moved = redirect("/test", Some("/test/".to_string()), Some(301)).unwrap();
    assert_eq!(moved.status.as_u16(), 301);
    assert_eq!(moved.original_url.unwrap().as_str(), "/test/");

    // A number that is no status code is as good as none.
    assert_eq!(redirect("/test", None, Some(99)).unwrap().status.as_u16(), 302);
    assert_eq!(redirect("/test", None, Some(1000)).unwrap().status.as_u16(), 302);
    assert_eq!(redirect("/test", None, Some(999)).unwrap().status.as_u16(), 999);
    assert_eq!(redirect("/test", None, Some(100)).unwrap().status.as_u16(), 100);
}

#[test]
fn a_location_has_to_fit_into_a_header() {
    for byte in 0u8..=127 {
        let url = format!("/a{}b", byte as char);
        let fits = ntex::http::header::HeaderValue::from_str(&url).is_ok();
        assert_eq!(fits, byte >= 32 && byte != 127 || byte == 9);
        match redirect(&url, None, None) {
            Ok(response) => {
                assert!(fits);
                assert_eq!(response.location.unwrap(), url);
            }
            Err(error) => {
                assert!(!fits);
                assert_eq!(error.description, "Invalid header value!");
                assert_eq!(error.message(), "Invalid header value!");
            }
        }
    }
    assert!(redirect("/ü/日本", None, None).is_ok());
    assert!(redirect("", None, None).is_ok());
}

#[test]
fn server_response_success() {
    let response = ServerResponse::<String, String>::success(None, None, None);
    assert_eq!(response.status, ResponseStatus::Success);
    assert_eq!(response.status_code.as_u16(), 200);
    assert_eq!(response.data, None);
    assert_eq!(response.message, None);

    let response = ServerResponse::success(Some(""), Some(""), Some(404));
    assert_eq!(response.status, ResponseStatus::Success);
    assert_eq!(response.status_code.as_u16(), 404);
    assert_eq!(response.data, Some(""));
    assert_eq!(response.message, Some(""));

    let response = ServerResponse::<_, String>::success(
        Some(HelloWorld { greeting: "Hello world!" }),
        None,
        Some(300),
    );
    assert_eq!(response.data.unwrap().greeting, "Hello world!");
    assert_eq!(response.status_code.as_u16(), 300);
}

#[test]
fn server_response_failed() {
    let response = ServerResponse::<String, String>::failed(None, None, None);
    assert_eq!(response.status, ResponseStatus::Failed);
    assert_eq!(response.status_code.as_u16(), 200);

    let response = ServerResponse::failed(Some(""), Some(""), Some(404));
    assert_eq!(response.status, ResponseStatus::Failed);
    assert_eq!(response.status_code.as_u16(), 404);
    assert_eq!(response.data, Some(""));
    assert_eq!(response.message, Some(""));

    // A number that is no status code is as good as none.
    let response = ServerResponse::<String, &str>::failed(None, Some("no"), Some(42));
    assert_eq!(response.status_code.as_u16(), 200);
    assert_eq!(response.message, Some("no"));
}

#[test]
fn server_response_warning() {
    let response = ServerResponse::<String, String>::warning(None, None, None);
    assert_eq!(response.status, ResponseStatus::Warning);
    assert_eq!(response.status_code.as_u16(), 200);

    let response = ServerResponse::warning(Some(""), Some(""), Some(404));
    assert_eq!(response.status, ResponseStatus::Warning);
    assert_eq!(response.status_code.as_u16(), 404);
}

#[test]
fn the_default_outcome_is_success() {
    assert_eq!(ResponseStatus::default(), ResponseStatus::Success);
}

#[test]
fn an_envelope_goes_out_with_its_status() {
    let envelope =
        ServerResponse::failed(None, Some("Requested resource not found.".to_string()), Some(404));

    let response = HttpResponse::from_envelope(envelope);

    assert_eq!(response.status.as_u16(), 404);
    assert!(response.location.is_none());
    assert!(response.original_url.is_none());
    assert!(response.error_field.is_none());
    match response.body {
        Body::Json(envelope) => {
            assert_eq!(envelope.status, ResponseStatus::Failed);
            assert_eq!(envelope.message.unwrap(), "Requested resource not found.");
            assert_eq!(envelope.data, None);
        }
        other => panic!("{:?}", other),
    }
}

#[test]
fn a_bare_response() {
    let response = HttpResponse::new(StatusCode::not_found());
    assert_eq!(response.status.as_u16(), 404);
    assert!(response.location.is_none());
    assert!(matches!(response.body, Body::Empty));
    assert!(response.original_url.is_none());
    assert!(response.error_field.is_none());
}

#[test]
fn a_rendered_page_goes_out_with_200() {
    let response = map_view_render_result("<html></html>".to_string());
    assert_eq!(response.status.as_u16(), 200);
    match response.body {
        Body::Html(page) => assert_eq!(page, "<html></html>"),
        other => panic!("{:?}", other),
    }
}

#[test]
fn the_original_url_is_kept_as_given() {
    let url = OriginalUrl::new("/test//////?a=1".to_string());
    assert_eq!(url.as_str(), "/test//////?a=1");
}

#[test]
fn an_internal_error_is_answered_with_500() {
    let error = internal_app_error("out of coffee".to_string());
    assert_eq!(error.description, "out of coffee");
    assert_eq!(error.message(), "out of coffee");
    assert_eq!(error.clone().description, "out of coffee");

    let response = error.response();
    assert_eq!(response.status.as_u16(), 500);
    assert!(response.location.is_none());
    assert!(matches!(response.body, Body::Empty));
    assert!(response.original_url.is_none());
    assert_eq!(response.error_field.unwrap().description(), "out of coffee");

    let response = server_error_response("out of tea".to_string());
    assert_eq!(response.status.as_u16(), 500);
    assert_eq!(response.error_field.unwrap().description(), "out of tea");
}

#[test]
fn an_error_field_is_shared() {
    let field = ErrorField::new(InternalAppError { description: "once".to_string() });
    let copy = field.clone();
    assert_eq!(field.description(), "once");
    assert_eq!(copy.description(), "once");
}

#[test]
fn status_codes_have_their_numbers() {
    assert_eq!(StatusCode::ok().as_u16(), ntex::http::StatusCode::OK.as_u16());
    assert_eq!(StatusCode::found().as_u16(), ntex::http::StatusCode::FOUND.as_u16());
    assert_eq!(StatusCode::bad_request().as_u16(), ntex::http::StatusCode::BAD_REQUEST.as_u16());
    assert_eq!(StatusCode::not_found().as_u16(), ntex::http::StatusCode::NOT_FOUND.as_u16());
    assert_eq!(
        StatusCode::internal_server_error().as_u16(),
        ntex::http::StatusCode::INTERNAL_SERVER_ERROR.as_u16()
    );
    assert!(StatusCode::from_u16(99).is_none());
    assert!(StatusCode::from_u16(1000).is_none());
    assert_eq!(StatusCode::from_u16(307).unwrap().as_u16(), 307);
}

#[test]
fn a_view_starts_with_the_defaults() {
    let base = ViewTemplateBase::default();
    assert_eq!(base.title(), "Ntex web.");
    assert_eq!(base.description(), "A simple web application based on Rust-Ntex.");
    assert_eq!(base.language(), "en-US");
}

#[test]
fn the_fields_of_a_view_are_set_one_by_one() {
    let mut base = ViewTemplateBase::default();

    base.set_title("NOT FOUND".to_string());
    assert_eq!(base.title(), "NOT FOUND");
    assert_eq!(base.description(), "A simple web application based on Rust-Ntex.");
    assert_eq!(base.language(), "en-US");

    base.set_description("Nothing here.".to_string()).set_language("de-DE".to_string());
    assert_eq!(base.title(), "NOT FOUND");
    assert_eq!(base.description(), "Nothing here.");
    assert_eq!(base.language(), "de-DE");
}
