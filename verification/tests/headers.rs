use web_core::constants::{
    FORM_DATA_HEADER_VALUE, FORM_DATA_HEADER_VALUE_BYTES, FORM_HEADER_VALUE,
    FORM_HEADER_VALUE_BYTES, JSON_HEADER_VALUE, JSON_HEADER_VALUE_BYTES,
    REQUESTED_WITH_AJAX_HEADER_VALUE, REQUESTED_WITH_AJAX_HEADER_VALUE_BYTES,
    REQUESTED_WITH_HEADER_NAME, WANTS_JSON_BYTES,
};
use web_core::error::{error_response, AppError, ExtensionError, MiddlewareError};
use web_core::features::{
    header_contains, header_is, to_ascii_lowercase, HttpRequest, MessageHeaders, Method,
    RequestUtils,
};
use web_core::middlewares::extensions::ExtensionDistributeCache;
use web_core::middlewares::prerequisites::{ForAjaxReqOnly, RequireJson};
use web_core::response::Body;
use web_core::uri::Uri;

fn values(values: &[&str]) -> Vec<Vec<u8>> {
    values.iter().map(|value| value.as_bytes().to_vec()).collect()
}

fn request(headers: MessageHeaders) -> HttpRequest {
    HttpRequest { method: Method::Get, uri: Uri::new("/".to_string(), None), headers }
}

#[test]
fn the_constants_spell_their_values() {
    assert_eq!(&WANTS_JSON_BYTES[..], b"json");
    assert_eq!(&JSON_HEADER_VALUE_BYTES[..], JSON_HEADER_VALUE.as_bytes());
    assert_eq!(&FORM_HEADER_VALUE_BYTES[..], FORM_HEADER_VALUE.as_bytes());
    assert_eq!(&FORM_DATA_HEADER_VALUE_BYTES[..], FORM_DATA_HEADER_VALUE.as_bytes());
    assert_eq!(
        &REQUESTED_WITH_AJAX_HEADER_VALUE_BYTES[..],
        REQUESTED_WITH_AJAX_HEADER_VALUE.as_bytes()
    );
    assert_eq!(REQUESTED_WITH_HEADER_NAME, "x-requested-with");
}

#[test]
fn a_value_is_searched_for_the_target() {
    assert!(header_contains(&values(&["text/html", "application/json"]), b"json", false));
    assert!(header_contains(&values(&["application/json; charset=utf-8"]), b"json", false));
    assert!(!header_contains(&values(&["text/html", "application/xml"]), b"json", false));
    assert!(!header_contains(&values(&["application/JSON"]), b"json", false));
    assert!(!header_contains(&values(&["js", "on"]), b"json", false));
    assert!(!header_contains(&values(&[]), b"json", false));
    // The empty target stands in every value, but there has to be a value.
    assert!(header_contains(&values(&[""]), b"", false));
    assert!(!header_contains(&values(&[]), b"", false));
}

#[test]
fn the_case_is_left_aside_where_asked() {
    assert!(header_contains(&values(&["application/JSON"]), b"json", true));
    assert!(header_contains(&values(&["application/json"]), b"JSON", true));
    assert!(header_contains(&values(&["Application/X-WWW-Form-Urlencoded"]), b"x-www-form", true));
    assert!(!header_contains(&values(&["application/xml"]), b"JSON", true));
}

#[test]
fn lower_case_is_what_the_standard_library_makes() {
    let all: Vec<u8> = (0..=255).collect();
    assert_eq!(to_ascii_lowercase(&all), all.to_ascii_lowercase());
    assert_eq!(to_ascii_lowercase(b"XMLHttpRequest"), b"xmlhttprequest");
    assert_eq!(to_ascii_lowercase(b""), b"");
}

#[test]
fn a_value_is_compared_with_the_target() {
    assert!(header_is(&values(&["XMLHttpRequest"]), b"XMLHttpRequest"));
    assert!(header_is(&values(&["xmlhttprequest"]), b"XMLHttpRequest"));
    assert!(header_is(&values(&["other", "XMLHTTPREQUEST"]), b"XMLHttpRequest"));
    assert!(!header_is(&values(&["XMLHttpRequest2"]), b"XMLHttpRequest"));
    assert!(!header_is(&values(&["XMLHttpReques"]), b"XMLHttpRequest"));
    assert!(!header_is(&values(&[]), b"XMLHttpRequest"));
}

#[test]
fn what_the_headers_say_of_the_client() {
    let mut headers = MessageHeaders::new();
    assert!(!headers.wants_json());
    assert!(!headers.derived_from_json());
    assert!(!headers.derived_from_form());
    assert!(!headers.derived_from_form_data());
    assert!(!headers.derived_from_ajax());

    headers.accept = values(&["text/html, application/json;q=0.9"]);
    assert!(headers.wants_json());
    assert!(!headers.derived_from_json());

    headers.content_type = values(&["application/json"]);
    assert!(headers.derived_from_json());
    assert!(!headers.derived_from_form());

    headers.content_type = values(&["Application/X-WWW-Form-UrlEncoded; charset=utf-8"]);
    assert!(headers.derived_from_form());
    assert!(!headers.derived_from_json());
    assert!(!headers.derived_from_form_data());

    headers.content_type = values(&["multipart/form-data; boundary=x"]);
    assert!(headers.derived_from_form_data());
    assert!(!headers.derived_from_form());

    headers.requested_with = values(&["xmlHTTPrequest"]);
    assert!(headers.derived_from_ajax());

    let req = request(headers);
    assert!(req.wants_json());
    assert!(!req.derived_from_json());
    assert!(!req.derived_from_form());
    assert!(req.derived_from_form_data());
    assert!(req.derived_from_ajax());
}

#[test]
fn only_json_goes_on() {
    let mut headers = MessageHeaders::new();
    assert_eq!(RequireJson.check(&headers), Err(MiddlewareError::RequireJsonFormat));

    headers.accept = values(&["application/json"]);
    assert_eq!(RequireJson.check(&headers), Err(MiddlewareError::RequireJsonFormat));

    headers.content_type = values(&["application/json"]);
    assert_eq!(RequireJson.check(&headers), Ok(()));
    assert_eq!(RequireJson.check(&request(headers)), Ok(()));
}

#[test]
fn only_scripts_go_on() {
    let mut headers = MessageHeaders::new();
    assert_eq!(ForAjaxReqOnly.check(&headers), Err(MiddlewareError::ForAjaxReqOnly));

    headers.requested_with = values(&["XMLHttpRequest"]);
    assert_eq!(ForAjaxReqOnly.check(&headers), Ok(()));
    assert_eq!(ForAjaxReqOnly.check(&request(headers)), Ok(()));
}

#[test]
fn the_cache_is_handed_on_once() {
    assert_eq!(ExtensionDistributeCache.prepare(true, Some(7)), Ok(None));
    assert_eq!(ExtensionDistributeCache.prepare(true, None::<i32>), Ok(None));
    assert_eq!(ExtensionDistributeCache.prepare(false, Some(7)), Ok(Some(7)));
    assert_eq!(
        ExtensionDistributeCache.prepare(false, None::<i32>),
        Err(MiddlewareError::AppStateMissing)
    );
}

#[test]
fn errors_have_their_sentences() {
    assert_eq!(MiddlewareError::RequireJsonFormat.message(), "Json format required.");
    assert_eq!(MiddlewareError::ForAjaxReqOnly.message(), "Only for `ajax` remote call.");
    assert_eq!(MiddlewareError::AppStateMissing.message(), "App state missing.");
    assert_eq!(MiddlewareError::AppStateMissing.status_code().as_u16(), 400);
    assert_eq!(ExtensionError::DistributeCacheMissing.message(), "Distribute cache missing.");
    assert_eq!(ExtensionError::MemoryCacheMissing.message(), "Memory cache missing.");
}

#[test]
fn an_error_is_answered_as_the_client_asks() {
    let mut headers = MessageHeaders::new();

    let plain = error_response(&MiddlewareError::RequireJsonFormat, &headers);
    assert_eq!(plain.status.as_u16(), 500);
    assert!(matches!(plain.body, Body::Empty));
    assert_eq!(plain.error_field.unwrap().description(), "Json format required.");

    headers.accept = values(&["application/json"]);
    let json = error_response(&MiddlewareError::RequireJsonFormat, &headers);
    assert_eq!(json.status.as_u16(), 200);
    assert!(json.error_field.is_none());
    match json.body {
        Body::Json(envelope) => {
            assert_eq!(envelope.message.unwrap(), "Json format required.");
            assert!(envelope.data.is_none());
        }
        other => panic!("{:?}", other),
    }
}
