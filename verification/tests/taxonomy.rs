//! The HTTP error taxonomy and the build-graph stats subscriber.

use more_futures::build_graph_stats::{
    BuildGraphStats, BuildResponse, CommandResult, ResponseTarget,
};
use more_futures::http::{category_from_status, http_error_label, Category, HttpError};

#[test]
fn test_http_error_label_ranges() {
    assert_eq!(http_error_label(500), "Server");
    assert_eq!(http_error_label(599), "Server");
    assert_eq!(http_error_label(400), "Client");
    assert_eq!(http_error_label(404), "Client");
    assert_eq!(http_error_label(499), "Client");
    assert_eq!(http_error_label(200), "Unknown");
    assert_eq!(http_error_label(399), "Unknown");
    assert_eq!(http_error_label(600), "Unknown");
}

#[test]
fn test_category_from_status() {
    assert_eq!(category_from_status(500), Some(Category::Infra));
    assert_eq!(category_from_status(503), Some(Category::Infra));
    assert_eq!(category_from_status(403), Some(Category::User));
    assert_eq!(category_from_status(404), Some(Category::User));
    assert_eq!(category_from_status(400), None);
    assert_eq!(category_from_status(200), None);
    assert_eq!(category_from_status(302), None);
}

#[test]
fn test_http_error_category() {
    let send = HttpError::SendRequest {
        uri: "https://example.com".to_string(),
    };
    assert_eq!(send.category(), Some(Category::Infra));

    let timeout = HttpError::Timeout {
        uri: "https://example.com".to_string(),
        duration: 30,
    };
    assert_eq!(timeout.category(), Some(Category::Infra));

    let status = HttpError::Status {
        status: 404,
        uri: "https://example.com".to_string(),
        text: "not found".to_string(),
    };
    assert_eq!(status.category(), Some(Category::User));
    assert_eq!(status.label(), "Client");

    let redirects = HttpError::TooManyRedirects {
        uri: "https://example.com".to_string(),
        max_redirects: 10,
    };
    assert_eq!(redirects.category(), None);
    assert_eq!(redirects.label(), "Unknown");
}

fn target(name: &str, cfg: &str, size: Option<u64>) -> ResponseTarget {
    ResponseTarget {
        target: name.to_string(),
        configuration: cfg.to_string(),
        configured_graph_size: size,
    }
}

#[test]
fn test_build_graph_stats_from_build_response() {
    let stats = BuildGraphStats::new("trace-1".to_string());
    let res = BuildResponse {
        build_targets: vec![
            target("//foo:bar", "cfg-a", Some(3)),
            target("//foo:baz", "cfg-b", None),
        ],
    };
    let ev = stats.build_graph_stats_from_build_response(&res);
    assert_eq!(ev.trace_id, "trace-1");
    assert_eq!(ev.build_targets.len(), 2);
    assert_eq!(ev.build_targets[0].target, "//foo:bar");
    assert_eq!(ev.build_targets[0].configuration, "cfg-a");
    assert_eq!(ev.build_targets[0].configured_graph_size, Some(3));
    assert_eq!(ev.build_targets[1].target, "//foo:baz");
    assert_eq!(ev.build_targets[1].configured_graph_size, None);
}

#[test]
fn test_handle_command_result() {
    let stats = BuildGraphStats::new("trace-2".to_string());
    let res = CommandResult::BuildResponse(BuildResponse {
        build_targets: vec![target("//a:b", "c", None)],
    });
    let ev = stats.handle_command_result(&res).unwrap();
    assert_eq!(ev.trace_id, "trace-2");
    assert_eq!(ev.build_targets.len(), 1);

    assert!(stats.handle_command_result(&CommandResult::Other).is_none());
}
