use base64::Engine;
use azusa_lens::ocr::{padded_crop_bounds, plain_text_of, unsupported_task_error, OcrError, OcrImage, OcrTaskKind};
use azusa_lens::ocr_models::{
    download_progress, download_size_is_valid, model_route, FastModelPaths, ModelRoute,
    OcrModelManager, PpOcrTier, MODEL_BASE_URL, PPOCR_MEDIUM_ENGINE_ID,
    PPOCR_MEDIUM_MODEL_DOWNLOAD_SIZE, PPOCR_MEDIUM_MODEL_VERSION, PPOCR_SMALL_ENGINE_ID,
    PPOCR_SMALL_MODEL_DOWNLOAD_SIZE, PPOCR_TINY_ENGINE_ID, PPOCR_TINY_LANGUAGE_SUMMARY,
    PPOCR_TINY_MODEL_DOWNLOAD_SIZE,
};
use azusa_lens::ollama::{
    clean_generated_text, encode_png_base64, is_layout_label, model_names_match,
    ollama_base_url, ollama_url, parse_grounding_segments, OllamaOcrModel, DEEPSEEK_ENGINE_ID,
    GLM_ENGINE_ID,
};
use azusa_lens::progress::OcrDownloadCancellation;

#[test]
fn validates_rgba_buffer_length() {
    assert!(OcrImage::new(2, 2, vec![0; 16]).is_ok());
    assert!(OcrImage::new(2, 2, vec![0; 15]).is_err());
    assert!(OcrImage::new(0, 2, Vec::new()).is_err());
}

#[test]
fn image_errors_explain_the_problem() {
    assert_eq!(
        OcrImage::new(2, 2, vec![0; 15]).unwrap_err(),
        OcrError::InvalidImage("RGBA buffer length 15 does not match 2×2×4 (16)".to_owned())
    );
    assert_eq!(
        OcrImage::new(65_536, 65_536, Vec::new()).unwrap_err(),
        OcrError::InvalidImage("OCR image dimensions overflow".to_owned())
    );
    assert_eq!(
        OcrError::Cancelled("stop".to_owned()).message(),
        "OCR operation cancelled: stop"
    );
}

#[test]
fn task_ids_round_trip() {
    for task in OcrTaskKind::all() {
        assert_eq!(OcrTaskKind::from_value(task.as_str()), Some(task));
    }
    assert_eq!(OcrTaskKind::from_value("unknown"), None);
}

#[test]
fn tasks_name_their_output() {
    assert_eq!(OcrTaskKind::Text.output_extension(), "txt");
    assert_eq!(OcrTaskKind::Table.output_extension(), "md");
    assert_eq!(
        unsupported_task_error("PP-OCRv6 Tiny · fastest local", OcrTaskKind::Table),
        OcrError::Model("PP-OCRv6 Tiny · fastest local does not support Table recognition".to_owned())
    );
}

#[test]
fn plain_text_follows_block_order() {
    let texts = vec!["你好 Azusa".to_owned(), String::new(), "Local OCR".to_owned()];
    assert_eq!(plain_text_of(&texts), "你好 Azusa\nLocal OCR");
}

#[test]
fn model_manifest_is_pinned_for_all_v6_tiers() {
    assert!(MODEL_BASE_URL.contains("v2.4.1"));
    assert_eq!(PpOcrTier::Tiny.detection_model_size(), 901_896);
    assert_eq!(PpOcrTier::Tiny.recognition_model_size(), 2_251_616);
    assert_eq!(
        PPOCR_TINY_MODEL_DOWNLOAD_SIZE,
        PpOcrTier::Tiny.detection_model_size() + PpOcrTier::Tiny.recognition_model_size()
    );
    assert_eq!(PpOcrTier::Small.detection_model_size(), 4_965_224);
    assert_eq!(PpOcrTier::Small.recognition_model_size(), 10_646_760);
    assert_eq!(
        PPOCR_SMALL_MODEL_DOWNLOAD_SIZE,
        PpOcrTier::Small.detection_model_size() + PpOcrTier::Small.recognition_model_size()
    );
    assert_eq!(PpOcrTier::Medium.detection_model_size(), 31_078_716);
    assert_eq!(PpOcrTier::Medium.recognition_model_size(), 38_382_108);
    assert_eq!(
        PPOCR_MEDIUM_MODEL_DOWNLOAD_SIZE,
        PpOcrTier::Medium.detection_model_size() + PpOcrTier::Medium.recognition_model_size()
    );
    assert!(PPOCR_TINY_LANGUAGE_SUMMARY.contains("no Japanese"));
    assert!(PPOCR_MEDIUM_MODEL_VERSION.contains("inference"));
}

#[test]
fn tier_specific_paths_do_not_collide() {
    let tiny = FastModelPaths::in_directory("models".to_owned(), PpOcrTier::Tiny, '/');
    let small = FastModelPaths::in_directory("models".to_owned(), PpOcrTier::Small, '/');
    let medium = FastModelPaths::in_directory("models".to_owned(), PpOcrTier::Medium, '/');
    assert_ne!(tiny.detection, small.detection);
    assert_ne!(small.recognition, medium.recognition);
    assert_ne!(tiny.charset, medium.charset);
    assert_eq!(tiny.detection, "models/PP-OCRv6_tiny_det.mnn");
}

#[test]
fn model_files_are_ready_only_at_their_sizes() {
    let paths = FastModelPaths::in_directory("m".to_owned(), PpOcrTier::Tiny, '/');
    assert!(paths.are_ready(Some(901_896), Some(2_251_616), Some(1024)));
    assert!(!paths.are_ready(Some(11), Some(2_251_616), Some(1024)));
    assert!(!paths.are_ready(Some(901_896), Some(2_251_616), Some(1023)));
    assert!(!paths.are_ready(None, Some(2_251_616), Some(4096)));
    let steps = paths.install_steps();
    assert_eq!(steps.len(), 3);
    assert_eq!(steps[1].progress_base, 901_896);
    assert_eq!(steps[2].progress_base, PPOCR_TINY_MODEL_DOWNLOAD_SIZE);
    assert!(download_size_is_valid(5, Some(5), 9));
    assert!(!download_size_is_valid(2000, None, 4096));
    assert_eq!(download_progress(10, 5, 100), 15);
    assert_eq!(download_progress(10, 0, 100), 10);
}

#[test]
fn catalog_exposes_three_ppocr_tiers_and_optional_vlm_models() {
    let tiny = OcrModelManager::descriptor(PPOCR_TINY_ENGINE_ID).unwrap();
    assert!(tiny.name.contains("Tiny"));
    assert!(tiny.languages.contains("no Japanese"));

    let small = OcrModelManager::descriptor(PPOCR_SMALL_ENGINE_ID).unwrap();
    assert!(small.name.contains("Small"));
    assert!(small.languages.contains("Japanese"));

    let medium = OcrModelManager::descriptor(PPOCR_MEDIUM_ENGINE_ID).unwrap();
    assert!(medium.name.contains("Medium"));
    assert!(medium.version.contains("inference"));
    assert!(medium.download_size_bytes > small.download_size_bytes);

    let glm = OcrModelManager::descriptor(GLM_ENGINE_ID).unwrap();
    assert!(glm.name.contains("GLM-OCR"));
    assert!(glm.version.contains("Ollama"));

    let deepseek = OcrModelManager::descriptor(DEEPSEEK_ENGINE_ID).unwrap();
    assert!(deepseek.name.contains("DeepSeek-OCR"));
    assert!(deepseek.version.contains("Ollama"));
    assert_eq!(OcrModelManager::catalog().len(), 5);
}

#[test]
fn active_model_must_be_known_and_installed() {
    let installed = [false, true, false, false, false];
    assert_eq!(
        OcrModelManager::active_model_id(Some(" ppocrv6-small-mnn\n"), &installed).as_deref(),
        Some("ppocrv6-small-mnn")
    );
    assert_eq!(OcrModelManager::active_model_id(Some("ppocrv6-tiny-mnn"), &installed), None);
    assert_eq!(OcrModelManager::active_model_id(Some("other"), &installed), None);
    assert!(OcrModelManager::check_activation(PPOCR_MEDIUM_ENGINE_ID, &installed).is_err());
    assert!(OcrModelManager::check_activation(PPOCR_SMALL_ENGINE_ID, &installed).is_ok());
    assert_eq!(
        OcrModelManager::check_activation("nope", &installed).unwrap_err(),
        OcrError::Model("unknown OCR model: nope".to_owned())
    );
    let states = OcrModelManager::states(Some(PPOCR_SMALL_ENGINE_ID), &installed);
    assert!(states[1].active && states[1].installed);
    assert!(!states[0].active && !states[0].installed);
    assert_eq!(model_route(GLM_ENGINE_ID), Some(ModelRoute::Ollama(OllamaOcrModel::Glm)));
    assert_eq!(model_route(PPOCR_TINY_ENGINE_ID), Some(ModelRoute::PaddleOcr(PpOcrTier::Tiny)));
    assert!(OcrModelManager::clears_selection(Some("a"), "a"));
    assert_eq!(OcrModelManager::selected_model_id(Some("  \n")), None);
}

#[test]
fn latest_model_names_are_equivalent() {
    assert!(model_names_match("glm-ocr", "glm-ocr:latest"));
    assert!(model_names_match("deepseek-ocr:latest", "deepseek-ocr"));
    assert!(!model_names_match("glm-ocr:q8_0", "glm-ocr:latest"));
}

#[test]
fn ollama_address_comes_from_the_host_setting() {
    assert_eq!(ollama_base_url(None), "http://127.0.0.1:11434");
    assert_eq!(ollama_base_url(Some("localhost:9999//")), "http://localhost:9999");
    assert_eq!(ollama_base_url(Some("https://box/")), "https://box");
    assert_eq!(ollama_url("tags", None), "http://127.0.0.1:11434/api/tags");
}

#[test]
fn parses_deepseek_text_grounding_into_image_coordinates() {
    let raw = "<|ref|>你好 Azusa<|/ref|><|det|>[[100, 200, 500, 300]]<|/det|>";
    let segments = parse_grounding_segments(raw);
    assert_eq!(segments.len(), 1);
    assert_eq!(segments[0].text, "你好 Azusa");
    assert_eq!(segments[0].coordinates, "[[100, 200, 500, 300]]");
}

#[test]
fn parses_layout_label_with_following_content() {
    let raw = "<|ref|>title<|/ref|><|det|>[[10, 20, 900, 100]]<|/det|>AzusaOCR\n";
    let segments = parse_grounding_segments(raw);
    assert_eq!(segments.len(), 1);
    assert_eq!(segments[0].text, "AzusaOCR");
}

#[test]
fn grounding_takes_the_next_box_and_drops_empty_regions() {
    let raw = "<|ref|>a<|/ref|>no box<|ref|>  <|/ref|><|det|>[1]<|/det|><|ref|>b<|/ref|><|det|>[2]";
    let segments = parse_grounding_segments(raw);
    assert_eq!(segments.len(), 1);
    assert_eq!(segments[0].text, "a");
    assert_eq!(segments[0].coordinates, "[1]");
    let raw = "<|ref|>  <|/ref|><|det|>[1]<|/det|>";
    assert!(parse_grounding_segments(raw).is_empty());
    assert_eq!(clean_generated_text("  <|grounding|>Hello<|grounding|> "), "Hello");
    assert!(is_layout_label(" Page_Number "));
    assert!(!is_layout_label("hello"));
}

#[test]
fn images_are_sent_as_base64_png() {
    let image = OcrImage::new(1, 1, vec![255, 0, 0, 255]).unwrap();
    let encoded = encode_png_base64(&image).unwrap();
    assert!(encoded.starts_with("iVBORw0KGgo"));
    assert_eq!(encoded.len() % 4, 0);
    let png = base64::engine::general_purpose::STANDARD.decode(&encoded).unwrap();
    assert_eq!(&png[..8], &[137, 80, 78, 71, 13, 10, 26, 10]);
}

#[test]
fn cancellation_is_shared_across_clones() {
    let cancellation = OcrDownloadCancellation::new();
    let worker = cancellation.clone();
    assert!(!worker.is_cancelled());
    cancellation.cancel();
    assert!(worker.is_cancelled());
    assert!(matches!(worker.ensure_active(), Err(OcrError::Cancelled(_))));
}

#[test]
fn padded_crop_bounds_preserve_padding_and_clip_to_image() {
    assert_eq!(padded_crop_bounds(100, 80, 10, 20, 30, 10, 2), Some((8, 18, 34, 14)));
    assert_eq!(padded_crop_bounds(100, 80, -3, 75, 10, 10, 2), Some((0, 73, 9, 7)));
    assert_eq!(padded_crop_bounds(100, 80, 120, 10, 20, 10, 2), None);
}

#[test]
fn installed_models_are_looked_up_in_catalog_order() {
    let installed = [false, true, false, false, true];
    assert!(OcrModelManager::is_installed("ppocrv6-small-mnn", &installed));
    assert!(!OcrModelManager::is_installed("ppocrv6-tiny-mnn", &installed));
    assert!(OcrModelManager::is_installed("deepseek-ocr-ollama", &installed));
    assert!(!OcrModelManager::is_installed("glm-ocr-ollama", &installed));
    assert!(!OcrModelManager::is_installed("unknown", &[true; 5]));
}
