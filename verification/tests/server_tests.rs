use tapplet_host::csp::normalize_csp;
use tower::util::ServiceExt;

fn runtime() -> tokio::runtime::Runtime {
    tokio::runtime::Builder::new_multi_thread()
        .worker_threads(2)
        .enable_all()
        .build()
        .unwrap()
}

/// Composes the service a tapplet server runs, exactly as the supervisor
/// builds it: static files under `root`, with the declared CSP normalized
/// by the library and injected into every response.
fn tapplet_service(root: String, csp: &str) -> axum::Router {
    let header = http::HeaderValue::from_str(&normalize_csp(csp)).unwrap();
    axum::Router::new()
        .fallback_service(tower_http::services::ServeDir::new(root))
        .layer(axum::middleware::from_fn(
            move |req: axum::extract::Request, next: axum::middleware::Next| {
                let header = header.clone();
                async move {
                    let mut resp = next.run(req).await;
                    resp.headers_mut().insert("Content-Security-Policy", header);
                    resp
                }
            },
        ))
}

async fn get(app: axum::Router, path: &str) -> (u16, Vec<String>, String) {
    let request =
        http::Request::builder().uri(path).body(axum::body::Body::empty()).unwrap();
    let response = app.oneshot(request).await.unwrap();
    let status = response.status().as_u16();
    let csp_headers = response
        .headers()
        .get_all("content-security-policy")
        .iter()
        .map(|v| v.to_str().unwrap().to_string())
        .collect();
    let bytes = axum::body::to_bytes(response.into_body(), 1 << 20).await.unwrap();
    (status, csp_headers, String::from_utf8_lossy(&bytes).to_string())
}

async fn make_root(name: &str, index_body: &str) -> String {
    let root = format!("/tmp/tapplet_www_{}", name);
    tokio::fs::create_dir_all(&root).await.unwrap();
    tokio::fs::write(format!("{}/index.html", root), index_body).await.unwrap();
    root
}

#[test]
fn serves_index_with_declared_csp() {
    runtime().block_on(async {
        let root = make_root("happy", "hi").await;
        let app = tapplet_service(root, "default-src 'self'");
        let (status, headers, body) = get(app, "/").await;
        assert_eq!(status, 200);
        assert_eq!(body, "hi");
        assert_eq!(headers, vec!["default-src 'self'"]);
    });
}

#[test]
fn quoted_csp_is_served_without_quotes() {
    runtime().block_on(async {
        let root = make_root("quoted", "hi").await;
        let app = tapplet_service(root, "\"default-src 'self'\"");
        let (status, headers, _) = get(app, "/").await;
        assert_eq!(status, 200);
        assert_eq!(headers, vec!["default-src 'self'"]);
    });
}

#[test]
fn invalid_csp_is_served_as_the_safe_default() {
    runtime().block_on(async {
        let root = make_root("invalid_csp", "hi").await;
        let app = tapplet_service(root, "foo\nbar");
        let (status, headers, _) = get(app, "/").await;
        assert_eq!(status, 200);
        assert_eq!(headers, vec!["default-src 'self'"]);
    });
}

#[test]
fn every_response_carries_exactly_one_csp_header() {
    runtime().block_on(async {
        let root = make_root("single_header", "hi").await;
        let app = tapplet_service(root, "default-src 'self'");
        let (ok_status, ok_headers, _) = get(app.clone(), "/").await;
        assert_eq!(ok_status, 200);
        assert_eq!(ok_headers.len(), 1);
        let (missing_status, missing_headers, _) = get(app, "/no-such-file").await;
        assert_eq!(missing_status, 404);
        assert_eq!(missing_headers, vec!["default-src 'self'"]);
    });
}

#[test]
fn named_file_is_served_with_its_content_type() {
    runtime().block_on(async {
        let root = make_root("named", "hi").await;
        tokio::fs::write(format!("{}/app.js", root), "console.log(1)").await.unwrap();
        let app = tapplet_service(root, "default-src 'self'");
        let (status, headers, body) = get(app, "/app.js").await;
        assert_eq!(status, 200);
        assert_eq!(body, "console.log(1)");
        assert_eq!(headers.len(), 1);
    });
}

#[test]
fn path_traversal_is_refused_without_reading_the_file() {
    runtime().block_on(async {
        let root = make_root("traversal", "hi").await;
        tokio::fs::write("/tmp/escape_marker.txt", "escaped-secret").await.unwrap();
        let app = tapplet_service(root, "default-src 'self'");
        let (status, _, body) = get(app, "/../escape_marker.txt").await;
        assert_eq!(status, 404);
        assert!(!body.contains("escaped-secret"));
    });
}

#[test]
fn directory_without_index_is_not_listed() {
    runtime().block_on(async {
        let root = make_root("no_index", "hi").await;
        tokio::fs::create_dir_all(format!("{}/assets", root)).await.unwrap();
        tokio::fs::write(format!("{}/assets/data.txt", root), "data").await.unwrap();
        let app = tapplet_service(root, "default-src 'self'");
        let (status, headers, _) = get(app, "/assets/").await;
        assert_eq!(status, 404);
        assert_eq!(headers.len(), 1);
    });
}
