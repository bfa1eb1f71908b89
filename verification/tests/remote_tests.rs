use portablesource_core::remote::{
    install_path_in_config_text, latest_release_decision, proxy_response_decision,
    version_from_tag,
};
use portablesource_core::text::u16_to_string;

#[test]
fn decimal_rendering_is_exact() {
    assert_eq!(u16_to_string(0), "0");
    assert_eq!(u16_to_string(7), "7");
    assert_eq!(u16_to_string(403), "403");
    assert_eq!(u16_to_string(65535), "65535");
}

#[test]
fn proxy_passes_the_body_through_on_success() {
    let r = proxy_response_decision(200, "payload".to_string());
    assert_eq!(r, Ok("payload".to_string()));
    let r = proxy_response_decision(299, "x".to_string());
    assert_eq!(r, Ok("x".to_string()));
}

#[test]
fn proxy_reports_a_failing_status() {
    let r = proxy_response_decision(404, "ignored".to_string());
    assert_eq!(r, Err("Request failed with status: 404".to_string()));
}

#[test]
fn version_tag_loses_a_single_v_prefix() {
    assert_eq!(version_from_tag("v1.2.3"), "1.2.3");
    assert_eq!(version_from_tag("1.2.3"), "1.2.3");
    assert_eq!(version_from_tag("vv9"), "v9");
    assert_eq!(version_from_tag(""), "");
}

#[test]
fn release_decision_reports_the_rate_limit_distinctly() {
    let r = latest_release_decision(403, "{}");
    assert_eq!(
        r,
        Err("GitHub API rate limit exceeded. Cannot check for updates.".to_string())
    );
}

#[test]
fn release_decision_reports_other_failing_statuses() {
    let r = latest_release_decision(500, "{}");
    assert_eq!(r, Err("GitHub API request failed with status: 500".to_string()));
}

#[test]
fn release_decision_rejects_a_body_that_is_not_json() {
    let r = latest_release_decision(200, "not json at all");
    assert_eq!(r, Err("Failed to parse GitHub API response".to_string()));
}

#[test]
fn release_decision_needs_a_tag_name() {
    let r = latest_release_decision(200, "{\"name\": \"untagged\"}");
    assert_eq!(r, Err("Could not find tag_name in GitHub API response".to_string()));
}

#[test]
fn release_decision_strips_the_tag_prefix() {
    let r = latest_release_decision(200, "{\"tag_name\": \"v2.10.0\"}");
    assert_eq!(r, Ok("2.10.0".to_string()));
    let r = latest_release_decision(200, "{\"tag_name\": \"3.0\"}");
    assert_eq!(r, Ok("3.0".to_string()));
}

#[test]
fn config_text_yields_its_install_path() {
    let text = "{\"install_path\": \"C:\\\\PS\\\\portablesource\", \"other\": 3}";
    assert_eq!(
        install_path_in_config_text(text),
        Some("C:\\PS\\portablesource".to_string())
    );
}

#[test]
fn config_text_without_a_string_path_yields_nothing() {
    assert_eq!(install_path_in_config_text("{\"install_path\": 7}"), None);
    assert_eq!(install_path_in_config_text("{}"), None);
    assert_eq!(install_path_in_config_text("###"), None);
}
