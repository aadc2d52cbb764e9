use shinning_trapezohedron::config::manager::ConfigError;
use shinning_trapezohedron::config::model::{test_config, InvalidConfig};
use shinning_trapezohedron::web::api::{
    replace_config_response, ApiError, ApplyMode, ConfigBody, ConfigField, HealthBody,
};
use shinning_trapezohedron::web::frontend::{cache_control, resolve_frontend_asset};

fn assets() -> Vec<String> {
    [
        "index.html",
        "settings/status.html",
        "favicon.png",
        "_app/immutable/entry/start.js",
        "_app/version.json",
    ]
    .iter()
    .map(|s| s.to_string())
    .collect()
}

fn resolve(path: &str) -> Option<String> {
    resolve_frontend_asset(path, &assets())
}

#[test]
fn health_body_is_ok() {
    assert_eq!(HealthBody::ok().status, "ok");
}

#[test]
fn config_body_lists_apply_modes() {
    let body = ConfigBody::new(test_config(2));
    assert_eq!(body.config, test_config(2));
    assert_eq!(body.hot_applied_fields, vec!["status.sample_interval_seconds"]);
    assert_eq!(
        body.restart_required_fields,
        vec!["web.listen_address", "logging.filter", "logging.ansi"]
    );
}

#[test]
fn each_field_has_one_apply_mode() {
    let body = ConfigBody::new(test_config(2));
    for field in [
        ConfigField::WebListenAddress,
        ConfigField::StatusSampleInterval,
        ConfigField::LoggingFilter,
        ConfigField::LoggingAnsi,
    ] {
        let hot = body.hot_applied_fields.contains(&field.path());
        let restart = body.restart_required_fields.contains(&field.path());
        assert!(hot != restart);
        assert_eq!(hot, field.apply_mode() == ApplyMode::Hot);
    }
}

#[test]
fn config_errors_map_to_status_codes() {
    let invalid = ApiError::from(ConfigError::Invalid(InvalidConfig::LogFilter));
    assert_eq!(invalid.status, 422);
    assert_eq!(invalid.body.code, "invalid_config");
    assert_eq!(invalid.body.message, "候选配置无效");

    let persistence = ApiError::from(ConfigError::Persistence("disk full".to_owned()));
    assert_eq!(persistence.status, 500);
    assert_eq!(persistence.body.code, "config_persistence_failed");
    assert_eq!(persistence.body.message, "配置保存失败");

    let unavailable = ApiError::from(ConfigError::Unavailable);
    assert_eq!(unavailable.status, 503);
    assert_eq!(unavailable.body.code, "config_manager_unavailable");
    assert_eq!(unavailable.body.message, "配置管理器暂不可用");
}

#[test]
fn unknown_api_path_is_json_404() {
    let error = ApiError::not_found();
    assert_eq!(error.status, 404);
    assert_eq!(error.body.code, "not_found");
    assert_eq!(error.body.message, "接口不存在");
}

#[test]
fn unsupported_method_is_json_405() {
    let error = ApiError::method_not_allowed();
    assert_eq!(error.status, 405);
    assert_eq!(error.body.code, "method_not_allowed");
    assert_eq!(error.body.message, "HTTP 方法不受支持");
}

#[test]
fn malformed_body_keeps_extractor_status() {
    let error = ApiError::invalid_request(400);
    assert_eq!(error.status, 400);
    assert_eq!(error.body.code, "invalid_request");
    assert_eq!(error.body.message, "请求体不是有效的完整配置");
    assert_eq!(ApiError::invalid_request(422).status, 422);
}

#[test]
fn replace_response_returns_candidate_or_error() {
    let body = replace_config_response(test_config(5), Ok(())).unwrap();
    assert_eq!(body.config.status.sample_interval_seconds(), 5);
    assert_eq!(body.hot_applied_fields, vec!["status.sample_interval_seconds"]);
    let error = replace_config_response(
        test_config(5),
        Err(ConfigError::Persistence("no such directory".to_owned())),
    )
    .unwrap_err();
    assert_eq!(error.status, 500);
    assert_eq!(error.body.code, "config_persistence_failed");
}

#[test]
fn root_path_serves_index() {
    assert_eq!(resolve("/").as_deref(), Some("index.html"));
    assert_eq!(resolve("").as_deref(), Some("index.html"));
    assert_eq!(resolve("//").as_deref(), Some("index.html"));
}

#[test]
fn prerendered_path_serves_its_page() {
    assert_eq!(resolve("/settings/status").as_deref(), Some("settings/status.html"));
    assert_eq!(resolve("/settings/status/").as_deref(), Some("settings/status.html"));
}

#[test]
fn unknown_page_path_serves_index() {
    assert_eq!(resolve("/network/settings").as_deref(), Some("index.html"));
}

#[test]
fn existing_files_are_served_as_themselves() {
    assert_eq!(resolve("/favicon.png").as_deref(), Some("favicon.png"));
    assert_eq!(
        resolve("/_app/immutable/entry/start.js").as_deref(),
        Some("_app/immutable/entry/start.js")
    );
}

#[test]
fn missing_files_are_not_found() {
    assert_eq!(resolve("/_app/missing.js"), None);
    assert_eq!(resolve("/_app/missing"), None);
    assert_eq!(resolve("/missing.css"), None);
}

#[test]
fn page_paths_without_index_are_not_found() {
    assert_eq!(resolve_frontend_asset("/network/settings", &Vec::new()), None);
}

#[test]
fn cache_control_depends_on_file_kind() {
    assert_eq!(cache_control("index.html"), "no-cache");
    assert_eq!(cache_control("settings/status.html"), "no-cache");
    assert_eq!(
        cache_control("_app/immutable/entry/start.js"),
        "public, max-age=31536000, immutable"
    );
    assert_eq!(cache_control("_app/version.json"), "public, max-age=3600");
    assert_eq!(cache_control("favicon.png"), "public, max-age=3600");
}
