use skuffen_application::execution_detail::{
    map_arkiv_feil_detail, safe_execution_detail, EksekveringFeiltype,
};

#[test]
fn safe_execution_detail_strips_html2pdf_auth_body() {
    let detail = "html2pdf_auth_failed status=403 endpoint_host=renderer.example audience=renderer.example body=forbidden";

    let safe = safe_execution_detail(detail);

    assert_eq!(
        safe,
        "html2pdf_auth_failed status=403 endpoint_host=renderer.example audience=renderer.example"
    );
    assert!(!safe.contains("body="));
    assert!(!safe.contains("forbidden"));
}

#[test]
fn safe_execution_detail_strips_html2pdf_client_error_body_from_error_chain() {
    let detail =
        "render failed: html2pdf_client_error status=404 endpoint_path=/render body=not_found";

    let safe = safe_execution_detail(detail);

    assert_eq!(safe, "html2pdf_client_error status=404 endpoint_path=/render");
    assert!(!safe.contains("body="));
    assert!(!safe.contains("not_found"));
}

#[test]
fn safe_execution_detail_preserves_html2pdf_server_error() {
    let detail = "html2pdf_server_error status=503 status_class=server_error endpoint_host=renderer.example external_error_message=\"renderer queue unavailable\"";

    assert_eq!(safe_execution_detail(detail), detail);
}

#[test]
fn safe_execution_detail_preserves_html2pdf_request_failed() {
    let detail = "html2pdf_request_failed category=timeout endpoint_host=renderer.example";

    assert_eq!(safe_execution_detail(detail), detail);
}

#[test]
fn safe_execution_detail_preserves_html2pdf_response_read_failed() {
    let detail = "html2pdf_response_read_failed category=body_read endpoint_host=renderer.example";

    assert_eq!(safe_execution_detail(detail), detail);
}

#[test]
fn safe_execution_detail_redacts_sensitive_renderer_tokens() {
    let detail = "html2pdf_server_error token=secret Authorization: Bearer abc123 external_error_message=\"renderer failed\"";

    let safe = safe_execution_detail(detail);

    assert!(safe.contains("html2pdf_server_error"));
    assert!(safe.contains("external_error_message=\"renderer failed\""));
    assert!(!safe.contains("secret"));
    assert!(!safe.contains("abc123"));
    assert!(!safe.contains("body="));
    assert!(safe.contains("token=redacted"));
    assert!(safe.contains("Authorization:redacted"));
}

#[test]
fn safe_execution_detail_preserves_external_response_message_and_redacts_secrets() {
    let detail = "html2pdf_client_error category=client_error status=400 external_error_message=\"invalid css token=secret Authorization: Bearer abc123\" endpoint_host=renderer.example";

    let safe = safe_execution_detail(detail);

    assert!(safe.starts_with("html2pdf_client_error"));
    assert!(safe.contains("external_error_message=\"invalid css token=redacted"));
    assert!(safe.contains("Authorization:redacted"));
    assert!(!safe.contains("secret"));
    assert!(!safe.contains("abc123"));
}

#[test]
fn safe_execution_detail_strips_embedded_payload_for_renderer_detail() {
    let detail = "html2pdf_client_error status=400 {\"html\":\"<body>payload</body>\"}";

    let safe = safe_execution_detail(detail);

    assert_eq!(safe, "html2pdf_client_error status=400 [payload stripped]");
}

#[test]
fn safe_execution_detail_bounds_renderer_detail() {
    let detail = format!(
        "html2pdf_server_error category=server_error {}",
        "a".repeat(800)
    );

    let safe = safe_execution_detail(&detail);

    assert!(safe.starts_with("html2pdf_server_error"));
    assert!(safe.len() <= 503);
    assert!(safe.ends_with("..."));
}

#[test]
fn safe_execution_detail_strips_quoted_html2pdf_body_fields() {
    let detail = r#"html2pdf_client_error category=client_error status=400 body="<html>renderer failed</html>" error_body="free text with spaces" endpoint_host=renderer.example content_length=123"#;

    let safe = safe_execution_detail(detail);

    assert_eq!(
        safe,
        "html2pdf_client_error category=client_error status=400 endpoint_host=renderer.example content_length=123"
    );
    assert!(!safe.contains("body="));
    assert!(!safe.contains("error_body="));
    assert!(!safe.contains("renderer failed"));
    assert!(!safe.contains("free text"));
}

#[test]
fn safe_execution_detail_preserves_render_diagnostics() {
    let detail = "render_html_mal_lager_unavailable mal_referanse=019e3d15-0000-7000-8000-000000000001 error=\"object store unavailable\"";

    assert_eq!(safe_execution_detail(detail), detail);
}

#[test]
fn safe_execution_detail_redacts_render_diagnostics() {
    let detail = "rendered_dokument_save_failed token=secret Authorization: Bearer abc123 Authorization: Basic xyz789 credential=abc x-api-key=def Bearer=ghi Basic=jkl";

    let safe = safe_execution_detail(detail);

    assert!(safe.starts_with("rendered_dokument_save_failed"));
    assert!(!safe.contains("secret"));
    assert!(!safe.contains("abc123"));
    assert!(!safe.contains("xyz789"));
    assert!(!safe.contains("credential=abc"));
    assert!(!safe.contains("x-api-key=def"));
    assert!(!safe.contains("Bearer=ghi"));
    assert!(!safe.contains("Basic=jkl"));
    assert!(safe.contains("credential=redacted"));
    assert!(safe.contains("x-api-key=redacted"));
    assert!(safe.contains("Bearer=redacted"));
    assert!(safe.contains("Basic=redacted"));
}

#[test]
fn safe_execution_detail_bounds_render_diagnostics() {
    let detail = format!("render_state_update_failed error={}", "a".repeat(800));

    let safe = safe_execution_detail(&detail);

    assert!(safe.starts_with("render_state_update_failed"));
    assert!(safe.len() <= 503);
    assert!(safe.ends_with("..."));
}

#[test]
fn safe_execution_detail_preserves_sikri_code() {
    let detail = "Sikri error sikri_missing_document_content sikri_recoverability=irrecoverable";

    assert_eq!(
        safe_execution_detail(detail),
        "sikri_missing_document_content"
    );
}

#[test]
fn arkivmapping_contract_failures_are_irrecoverable() {
    for detail in [
        "arkivmapping_dokument_fact_mangler dokument_id=123 sikri_recoverability=irrecoverable",
        "arkivmapping_rendered_dokument_mangler dokument_id=456 sikri_recoverability=irrecoverable",
        "arkivmapping_dokumentform_mismatch dokument_id=789 sikri_recoverability=irrecoverable",
    ] {
        let feil = map_arkiv_feil_detail(detail, safe_execution_detail(detail));

        assert_eq!(feil.feiltype, EksekveringFeiltype::Irrecoverable);
        assert!(feil.melding.starts_with("arkivmapping_"));
        assert!(!feil.melding.contains("sikri_recoverability"));
    }
}

#[test]
fn safe_execution_detail_preserves_arkivmapping_category_after_recoverability_marker() {
    let detail =
        "sikri_recoverability=irrecoverable arkivmapping_dokumentform_mismatch dokument_id=789";

    let feil = map_arkiv_feil_detail(detail, safe_execution_detail(detail));

    assert_eq!(feil.feiltype, EksekveringFeiltype::Irrecoverable);
    assert!(feil.melding.starts_with("arkivmapping_dokumentform_mismatch"));
    assert!(!feil.melding.contains("sikri_recoverability"));
}

#[test]
fn safe_execution_detail_keeps_sikri_upstream_fallback() {
    let detail = "upstream failed sikri_recoverability=recoverable";

    assert_eq!(safe_execution_detail(detail), "execution_upstream_error");
}

#[test]
fn safe_execution_detail_collapses_generic_errors() {
    assert_eq!(
        safe_execution_detail("database unavailable"),
        "execution_error"
    );
}
