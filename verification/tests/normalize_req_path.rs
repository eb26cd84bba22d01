use regex::Regex;
use web_core::middlewares::globals::normalize_req_path::{NormalizeReqPath, Normalized};
use web_core::response::HttpResponse;
use web_core::uri::Uri;

const TEST_URL: &str = "/test/a/b/c";
const TEST_PATHS: [&str; 4] =
    ["/test/a/b/c/", "/test/a/b/c/////", "/test/a/b/c/?a=1", "/test/a/b/c/////?a=1"];
const TEST_PATHS_WITH_INTERIOR_SLASH: [&str; 5] = [
    "/test//////a///b/c/",
    "/test/a////b////c/////",
    "/test////a/b/c/?a=1",
    "/test/a/b////c/////?a=1",
    "/test/a/b////c?a=1",
];

/// The request target as the server's own parser splits it.
fn request(target: &str) -> Uri {
    let parsed: ntex::http::Uri = target.parse().unwrap();
    Uri::new(parsed.path().to_owned(), parsed.query().map(str::to_owned))
}

/// The status with which a router that knows `TEST_URL` alone answers.
fn routed(target: &str) -> u16 {
    let parsed: ntex::http::Uri = target.parse().unwrap();
    if parsed.path() == TEST_URL {
        200
    } else {
        404
    }
}

/// What the client sees: the status, and where the request went on to.
fn serve(normalizer: &NormalizeReqPath, target: &str) -> (u16, Normalized) {
    match normalizer.normalize(&request(target)) {
        Ok(Normalized::PassThrough) => (routed(target), Normalized::PassThrough),
        Ok(Normalized::Rewrite { uri, original_url }) => {
            (routed(&uri), Normalized::Rewrite { uri, original_url })
        }
        Ok(Normalized::Redirect { response }) => {
            (response.status.as_u16(), Normalized::Redirect { response })
        }
        Err(error) => panic!("{}", error.description),
    }
}

fn redirect_of(outcome: Normalized) -> HttpResponse {
    match outcome {
        Normalized::Redirect { response } => response,
        other => panic!("{:?}", other),
    }
}

fn normal_works_well(normalizer: &NormalizeReqPath) {
    let (status, outcome) = serve(normalizer, TEST_URL);
    assert_eq!(status, 200);
    assert!(matches!(outcome, Normalized::PassThrough));
}

#[test]
fn normalize_req_path_default() {
    let normalizer = NormalizeReqPath::default();

    normal_works_well(&normalizer);

    for path in TEST_PATHS.iter() {
        let (status, outcome) = serve(&normalizer, path);

        assert_eq!(status, 404);
        assert!(matches!(outcome, Normalized::PassThrough));
    }
}

#[test]
fn slash_default() {
    let normalizer = NormalizeReqPath::default().use_slash_operation();

    normal_works_well(&normalizer);

    for path in TEST_PATHS.iter() {
        let (status, outcome) = serve(&normalizer, path);

        assert_eq!(status, 200);
        match outcome {
            Normalized::Rewrite { uri, original_url } => {
                let sent_on: ntex::http::Uri = uri.parse().unwrap();
                let came: ntex::http::Uri = path.parse().unwrap();
                assert_eq!(sent_on.path(), TEST_URL);
                assert_eq!(sent_on.query(), came.query());
                assert_eq!(original_url.as_str(), *path);
            }
            other => panic!("{:?}", other),
        }
    }
}

#[test]
fn slash_redirection() {
    let normalizer = NormalizeReqPath::default().use_slash_operation().set_slash_redirect(true);

    normal_works_well(&normalizer);

    for path in TEST_PATHS.iter() {
        let (status, outcome) = serve(&normalizer, path);
        let path_uri: ntex::http::Uri = path.parse().unwrap();

        // Validate status.
        assert_eq!(status, 302);

        // Validate uri.
        let response = redirect_of(outcome);
        let location_uri: ntex::http::Uri = response.location.unwrap().parse().unwrap();
        assert_eq!(location_uri.path(), path_uri.path().trim_end_matches("/"));
        assert_eq!(location_uri.query(), path_uri.query());

        // Validate extensions.
        assert!(response.original_url.is_some());
        assert_eq!(response.original_url.unwrap().as_str(), *path);
    }
}

#[test]
fn slash_redirection_307() {
    let normalizer = NormalizeReqPath::default()
        .use_slash_operation()
        .set_slash_redirect(true)
        .set_redirect_status(307);

    normal_works_well(&normalizer);

    for path in TEST_PATHS.iter() {
        let (status, outcome) = serve(&normalizer, path);
        let path_uri: ntex::http::Uri = path.parse().unwrap();

        // Validate status.
        assert_eq!(status, 307);
        assert_eq!(status, ntex::http::StatusCode::TEMPORARY_REDIRECT.as_u16());

        // Validate uri.
        let response = redirect_of(outcome);
        let location_uri: ntex::http::Uri = response.location.unwrap().parse().unwrap();
        assert_eq!(location_uri.path(), path_uri.path().trim_end_matches("/"));
        assert_eq!(location_uri.query(), path_uri.query());

        // Validate extensions.
        assert!(response.original_url.is_some());
        assert_eq!(response.original_url.unwrap().as_str(), *path);
    }
}

#[test]
fn interior_slash_ops() {
    let normalizer = NormalizeReqPath::default().use_slash_operation().enable_interior_slash_ops();

    normal_works_well(&normalizer);

    for path in TEST_PATHS_WITH_INTERIOR_SLASH.iter() {
        let (status, outcome) = serve(&normalizer, path);

        assert_eq!(status, 200);
        match outcome {
            Normalized::Rewrite { uri, original_url } => {
                let sent_on: ntex::http::Uri = uri.parse().unwrap();
                let came: ntex::http::Uri = path.parse().unwrap();
                assert_eq!(sent_on.path(), TEST_URL);
                assert_eq!(sent_on.query(), came.query());
                assert_eq!(original_url.as_str(), *path);
            }
            other => panic!("{:?}", other),
        }
    }
}

#[test]
fn interior_slash_ops_with_redirect() {
    let merge_multiple_interior_slash = Regex::new(r"//+").unwrap();
    let normalizer = NormalizeReqPath::default()
        .use_slash_operation()
        .set_slash_redirect(true)
        .enable_interior_slash_ops();

    normal_works_well(&normalizer);

    for path in TEST_PATHS_WITH_INTERIOR_SLASH.iter() {
        let (status, outcome) = serve(&normalizer, path);
        let path_uri: ntex::http::Uri = path.parse().unwrap();

        assert_eq!(status, 302);

        // Validate uri.
        let response = redirect_of(outcome);
        let location_uri: ntex::http::Uri = response.location.unwrap().parse().unwrap();
        assert_eq!(
            location_uri.path(),
            merge_multiple_interior_slash.replace_all(path_uri.path().trim_end_matches("/"), "/")
        );
        assert_eq!(location_uri.query(), path_uri.query());

        // Validate extensions.
        assert!(response.original_url.is_some());
        assert_eq!(response.original_url.unwrap().as_str(), *path);
    }
}
