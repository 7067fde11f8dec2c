use azusa_lens::model_install::{
    file_progress_detail, install_file_error, model_action_route, model_file_action,
    partial_download_path, remove_file_error, tier_installed_detail, ModelFileAction,
};
use azusa_lens::ocr::OcrError;
use azusa_lens::ocr_models::{
    FastModelPaths, ModelRoute, OcrModelManager, PpOcrTier, MODEL_BASE_URL,
};
use azusa_lens::ollama::OllamaOcrModel;

fn steps() -> Vec<azusa_lens::ocr_models::ModelFileStep> {
    FastModelPaths::in_directory("/models".to_owned(), PpOcrTier::Tiny, '/').install_steps()
}

#[test]
fn partial_downloads_sit_beside_the_file() {
    assert_eq!(partial_download_path("/m/PP-OCRv6_tiny_det.mnn", '/'), "/m/PP-OCRv6_tiny_det.mnn.part");
    assert_eq!(partial_download_path("/m/keys", '/'), "/m/keys.download.part");
    assert_eq!(partial_download_path("/m/.hidden", '/'), "/m/.hidden.download.part");
    assert_eq!(partial_download_path("/m/a.txt/", '/'), "/m/a.txt.part");
    assert_eq!(partial_download_path("", '/'), "");
    assert_eq!(partial_download_path("/m/..", '/'), "/m/..");
}

#[test]
fn pre_cancelled_install_never_starts_a_download() {
    for step in steps() {
        match model_file_action(&step, true, None, None, '/') {
            ModelFileAction::Stop(OcrError::Cancelled(message)) => {
                assert_eq!(message, "model download was cancelled")
            }
            other => panic!("unexpected {other:?}"),
        }
    }
}

#[test]
fn already_installed_model_reports_completion_without_network() {
    let steps = steps();
    match model_file_action(&steps[0], false, Some(901_896), None, '/') {
        ModelFileAction::Keep { progress } => assert_eq!(progress, 901_896),
        other => panic!("unexpected {other:?}"),
    }
    match model_file_action(&steps[2], false, Some(4096), None, '/') {
        ModelFileAction::Keep { progress } => assert_eq!(progress, 901_896 + 2_251_616),
        other => panic!("unexpected {other:?}"),
    }
}

#[test]
fn missing_or_wrong_files_are_downloaded_and_checked() {
    let steps = steps();
    match model_file_action(&steps[1], false, Some(10), None, '/') {
        ModelFileAction::Download { url, partial } => {
            assert_eq!(url, format!("{MODEL_BASE_URL}/PP-OCRv6_tiny_rec.mnn"));
            assert_eq!(partial, "/models/PP-OCRv6_tiny_rec.mnn.part");
        }
        other => panic!("unexpected {other:?}"),
    }
    match model_file_action(&steps[1], false, None, Some(2_251_616), '/') {
        ModelFileAction::Install { partial, progress } => {
            assert_eq!(partial, "/models/PP-OCRv6_tiny_rec.mnn.part");
            assert_eq!(progress, 901_896 + 2_251_616);
        }
        other => panic!("unexpected {other:?}"),
    }
    match model_file_action(&steps[1], false, None, Some(12), '/') {
        ModelFileAction::Discard { partial, error } => {
            assert_eq!(partial, "/models/PP-OCRv6_tiny_rec.mnn.part");
            assert_eq!(
                error.message(),
                "OCR model download error: downloaded PP-OCRv6_tiny_rec.mnn has unexpected size 12 bytes"
            );
        }
        other => panic!("unexpected {other:?}"),
    }
    match model_file_action(&steps[2], false, None, Some(100), '/') {
        ModelFileAction::Discard { .. } => {}
        other => panic!("unexpected {other:?}"),
    }
}

#[test]
fn installs_and_removals_are_routed_by_model() {
    assert!(matches!(model_action_route("ppocrv6-medium-mnn"), Ok(ModelRoute::PaddleOcr(PpOcrTier::Medium))));
    assert!(matches!(model_action_route("glm-ocr-ollama"), Ok(ModelRoute::Ollama(OllamaOcrModel::Glm))));
    match model_action_route("nope") {
        Err(error) => assert_eq!(error.message(), "OCR model error: unknown OCR model: nope"),
        other => panic!("unexpected {other:?}"),
    }
    let paths = FastModelPaths::in_directory("/models".to_owned(), PpOcrTier::Small, '/');
    assert_eq!(
        paths.removal_files(),
        vec!["/models/PP-OCRv6_small_det.mnn", "/models/PP-OCRv6_small_rec.mnn", "/models/ppocr_keys_v6_small.txt"]
    );
}

#[test]
fn install_messages_name_the_file() {
    assert_eq!(file_progress_detail("a.mnn"), "Downloading a.mnn");
    assert!(tier_installed_detail(PpOcrTier::Tiny).ends_with(" downloaded"));
    assert!(remove_file_error("/m/a", "busy").message().ends_with("failed to remove OCR model file /m/a: busy"));
    assert!(install_file_error("/m/a", "busy").message().ends_with("failed to install OCR model /m/a: busy"));
}

#[test]
fn active_model_setting_lives_in_the_config_directory() {
    let manager = OcrModelManager::with_directories("/cfg/ocr".to_owned(), "/models".to_owned());
    assert_eq!(manager.config_directory_text(), "/cfg/ocr");
    assert_eq!(manager.active_model_path('/'), "/cfg/ocr/active-model");
}
