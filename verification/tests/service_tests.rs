use llm_backend::download::{DownloadEvent, DownloadState, DownloadStatus};
use llm_backend::model::{EmbeddedInferenceArgs, EmbeddedInferenceResult, EmbeddedModelConfig};
use llm_backend::service::{
    infer_response, internal_error, not_ready, operation_path, target_name, DownloadRequest,
    InferRequest, LoadRequest, Operation, ServiceState,
};

fn infer_request(prompt: &str) -> InferRequest {
    InferRequest { args: EmbeddedInferenceArgs { prompt: prompt.to_string(), max_tokens: Some(5) } }
}

fn record(id: &str) -> DownloadState {
    DownloadState::new(id.to_string(), format!("https://example.org/{}", id), format!("/m/{}", id))
}

fn request(target_name: Option<&str>) -> DownloadRequest {
    DownloadRequest {
        url: "https://example.org/weights.gguf".to_string(),
        target_name: target_name.map(|n| n.to_string()),
        sha256: None,
    }
}

#[test]
fn a_new_service_has_no_model_and_no_downloads() {
    let state = ServiceState::new(5_000);
    assert_eq!(state.started_at(), 5_000);
    assert_eq!(state.model_snapshot(), (false, None));
    assert!(state.downloads().is_empty());
    assert_eq!(state.ensure_ready(), Err("No embedded model loaded".to_string()));
}

#[test]
fn uptime_is_counted_in_whole_seconds() {
    let state = ServiceState::new(5_000);
    assert_eq!(state.uptime_s(5_000), 0);
    assert_eq!(state.uptime_s(5_999), 0);
    assert_eq!(state.uptime_s(6_000), 1);
    assert_eq!(state.uptime_s(65_500), 60);
    assert_eq!(state.uptime_s(4_000), 0);
    assert_eq!(ServiceState::new(0).uptime_s(u64::MAX), u64::MAX / 1000);
}

#[test]
fn a_loaded_model_makes_the_service_ready() {
    let mut state = ServiceState::new(0);
    state.record_model("/models/a.gguf".to_string(), Some(2048), 10);
    assert_eq!(state.model_snapshot(), (true, Some("/models/a.gguf".to_string())));
    assert_eq!(state.ensure_ready(), Ok(()));
    state.record_model("/models/b.gguf".to_string(), None, 20);
    assert_eq!(state.model_snapshot(), (true, Some("/models/b.gguf".to_string())));
}

#[test]
fn a_load_is_recorded_and_answered() {
    let mut state = ServiceState::new(0);
    let config = EmbeddedModelConfig {
        model_path: "/models/a.gguf".to_string(),
        context_length: Some(1024),
        gpu_layers: None,
        seed: None,
    };
    let response = state.loaded(&LoadRequest { config }, 1234, 99);
    assert!(response.loaded);
    assert_eq!(response.model_path, "/models/a.gguf");
    assert_eq!(response.stats.load_ms, 1234);
    assert_eq!(response.stats.context_length, Some(1024));
    assert_eq!(state.model_snapshot(), (true, Some("/models/a.gguf".to_string())));
}

#[test]
fn downloads_are_kept_in_the_order_of_registration() {
    let mut state = ServiceState::new(0);
    assert!(state.register_download(record("a")));
    assert!(state.register_download(record("b")));
    assert!(state.register_download(record("c")));
    assert_eq!(state.downloads(), vec![record("a"), record("b"), record("c")]);
}

#[test]
fn an_identifier_is_registered_once() {
    let mut state = ServiceState::new(0);
    assert!(state.register_download(record("a")));
    let mut other = record("a");
    other.url = "https://example.org/other".to_string();
    assert!(!state.register_download(other));
    assert_eq!(state.downloads(), vec![record("a")]);
}

#[test]
fn an_update_reaches_the_download_with_the_identifier() {
    let mut state = ServiceState::new(0);
    state.register_download(record("a"));
    state.register_download(record("b"));
    state.update_download("b", &DownloadEvent::Started { total_bytes: Some(100) });
    state.update_download("b", &DownloadEvent::Progress { downloaded: 40 });
    let downloads = state.downloads();
    assert_eq!(downloads[0], record("a"));
    assert_eq!(downloads[1].status, DownloadStatus::InProgress);
    assert_eq!(downloads[1].total_bytes, Some(100));
    assert_eq!(downloads[1].bytes_downloaded, 40);
    assert_eq!(downloads[1].id, "b");
}

#[test]
fn an_update_for_an_unknown_identifier_changes_nothing() {
    let mut state = ServiceState::new(0);
    state.register_download(record("a"));
    state.update_download("zzz", &DownloadEvent::Failed { message: "x".to_string() });
    assert_eq!(state.downloads(), vec![record("a")]);
}

#[test]
fn the_status_answer_shows_everything() {
    let mut state = ServiceState::new(1_000);
    state.register_download(record("a"));
    let response = state.status(4_500);
    assert!(!response.ready);
    assert_eq!(response.model, None);
    assert_eq!(response.uptime_s, 3);
    assert_eq!(response.downloads, vec![record("a")]);

    state.record_model("/m.gguf".to_string(), None, 5_000);
    let response = state.status(61_000);
    assert!(response.ready);
    assert_eq!(response.model, Some("/m.gguf".to_string()));
    assert_eq!(response.uptime_s, 60);
}

#[test]
fn the_default_file_name_comes_from_the_identifier() {
    let id = "123e4567-e89b-42d3-a456-426614174000";
    assert_eq!(target_name(id, &None), "model-123e4567.gguf");
    assert_eq!(target_name(id, &Some("weights.gguf".to_string())), "weights.gguf");
    assert_eq!(target_name("abcdefgh", &None), "model-abcdefgh.gguf");
    assert_eq!(target_name("short", &Some("weights.gguf".to_string())), "weights.gguf");
    assert_eq!(target_name("", &Some(String::new())), "");
}

#[test]
fn a_service_without_downloads_accepts_a_request() {
    let mut state = ServiceState::new(0);
    let answer = state.download(&request(Some("first.gguf")));
    let response = answer.unwrap();
    assert!(response.started);
    let downloads = state.downloads();
    assert_eq!(downloads.len(), 1);
    assert_eq!(downloads[0].id, response.id);
    assert_eq!(downloads[0].status, DownloadStatus::Pending);
}

#[test]
fn an_accepted_download_is_registered_as_pending() {
    let mut state = ServiceState::new(0);
    let answer = state
        .accept_download("id-1".to_string(), &request(None), "/m/model-id-1.gguf".to_string())
        .unwrap();
    assert_eq!(answer.id, "id-1");
    assert!(answer.started);
    assert_eq!(
        state.downloads(),
        vec![DownloadState {
            id: "id-1".to_string(),
            url: "https://example.org/weights.gguf".to_string(),
            target_path: "/m/model-id-1.gguf".to_string(),
            bytes_downloaded: 0,
            total_bytes: None,
            status: DownloadStatus::Pending,
            error: None,
        }]
    );

    let again = state.accept_download("id-1".to_string(), &request(None), "/x".to_string());
    let failure = again.unwrap_err();
    assert_eq!(failure.status, 500);
    assert_eq!(failure.body.error, "Download identifier already in use");
    assert_eq!(state.downloads().len(), 1);
}

#[test]
fn a_download_request_gets_a_fresh_identifier() {
    let mut state = ServiceState::new(0);
    let first = state.download(&request(None)).unwrap();
    let second = state.download(&request(Some("named.gguf"))).unwrap();
    assert!(first.started && second.started);
    assert_eq!(first.id.chars().count(), 36);
    assert_eq!(second.id.chars().count(), 36);
    assert_ne!(first.id, second.id);
    assert_eq!(first.id.matches('-').count(), 4);

    let downloads = state.downloads();
    assert_eq!(downloads.len(), 2);
    assert_eq!(downloads[0].id, first.id);
    assert_eq!(downloads[1].id, second.id);
    for download in &downloads {
        assert_eq!(download.status, DownloadStatus::Pending);
        assert_eq!(download.url, "https://example.org/weights.gguf");
        assert_eq!(download.bytes_downloaded, 0);
        assert_eq!(download.total_bytes, None);
        assert_eq!(download.error, None);
    }
    let models = dirs::home_dir()
        .unwrap_or_else(|| std::path::PathBuf::from("."))
        .join(".file-organizer")
        .join("models");
    let default_name = format!("model-{}.gguf", &first.id[..8]);
    assert_eq!(
        std::path::Path::new(&downloads[0].target_path),
        models.join(&default_name).as_path()
    );
    assert_eq!(
        std::path::Path::new(&downloads[1].target_path),
        models.join("named.gguf").as_path()
    );
}

#[test]
fn an_inference_is_admitted_once_a_model_is_loaded() {
    let mut state = ServiceState::new(0);
    let refused = state.admit_inference(infer_request("hello")).unwrap_err();
    assert_eq!(refused.status, 400);
    assert_eq!(refused.body.error, "No embedded model loaded");
    state.record_model("/m.gguf".to_string(), None, 1);
    assert_eq!(state.admit_inference(infer_request("hello")), Ok(infer_request("hello").args));
}

#[test]
fn failures_carry_a_status_and_a_message() {
    let failure = not_ready();
    assert_eq!(failure.status, 400);
    assert_eq!(failure.body.error, "No embedded model loaded");
    let failure = internal_error("Failed to join load task: cancelled");
    assert_eq!(failure.status, 500);
    assert_eq!(failure.body.error, "Failed to join load task: cancelled");
}

#[test]
fn an_inference_is_answered_with_its_latency() {
    let result = EmbeddedInferenceResult {
        content: "{\"category\": \"docs\"}".to_string(),
        prompt_tokens: 42,
        completion_tokens: 7,
    };
    let response = infer_response(result, 815);
    assert_eq!(response.content, "{\"category\": \"docs\"}");
    assert_eq!(response.prompt_tokens, 42);
    assert_eq!(response.completion_tokens, 7);
    assert_eq!(response.latency_ms, 815);
}

#[test]
fn the_operations_have_their_paths() {
    assert_eq!(operation_path(Operation::Status), "/status");
    assert_eq!(operation_path(Operation::Load), "/load");
    assert_eq!(operation_path(Operation::Infer), "/infer");
    assert_eq!(operation_path(Operation::Download), "/download");
}
