use azusa_lens::annotation::{color_from_index, color_index, validate_buffer, Color, RenderError, ToolKind};
use azusa_lens::app_state::{AppState, CapabilityStatus};
use azusa_lens::file_ocr::{output_base, output_file_name, request_from_args, xdg_documents_dir};
use azusa_lens::ocr::OcrTaskKind;
use azusa_lens::shell_integration::{
    desktop_exec_quote, linux_data_home, reg_error, windows_context_menu_key,
    windows_registration_steps, CONTEXT_MENU_LABEL,
};
use azusa_lens::ui_state::{
    model_action_feedback, next_sequence_number, ocr_selection_range, ocr_selection_text, recognition_status,
    ModelErrorDisplay, OcrActionResult, OcrModelAction,
};

#[test]
fn label_matches_product_copy() {
    assert_eq!(CONTEXT_MENU_LABEL, "使用 Azusa Lens 识别");
}

#[test]
fn desktop_exec_path_is_quoted() {
    assert_eq!(desktop_exec_quote("/tmp/Azusa Lens/azusa-lens"), "\"/tmp/Azusa Lens/azusa-lens\"");
}

#[test]
fn desktop_exec_path_escapes_quotes_and_backslashes() {
    assert_eq!(desktop_exec_quote("a\"b\\c"), "\"a\\\"b\\\\c\"");
    assert_eq!(
        windows_context_menu_key(".png"),
        "HKCU\\Software\\Classes\\SystemFileAssociations\\.png\\shell\\AzusaLensOCR"
    );
    assert_eq!(linux_data_home(Some(""), Some("/home/u")).unwrap(), "/home/u/.local/share");
    assert!(linux_data_home(None, None).is_err());
}

#[test]
fn file_requests_come_from_the_command_line() {
    let args: Vec<String> = ["--ocr-type", "table", "--ocr-file", "/tmp/a.png"].iter().map(|s| s.to_string()).collect();
    let request = request_from_args(&args).unwrap();
    assert_eq!(request.task, OcrTaskKind::Table);
    assert_eq!(request.source_path, "/tmp/a.png");
    let args: Vec<String> = ["--ocr-file", "/tmp/b.png"].iter().map(|s| s.to_string()).collect();
    assert_eq!(request_from_args(&args).unwrap().task, OcrTaskKind::Document);
    let args: Vec<String> = ["--ocr-type", "text"].iter().map(|s| s.to_string()).collect();
    assert!(request_from_args(&args).is_none());
}

#[test]
fn output_names_count_up_after_the_first() {
    assert_eq!(output_file_name("scan.azusa-text", "txt", 1), "scan.azusa-text.txt");
    assert_eq!(output_file_name("table.azusa-table", "md", 2), "table.azusa-table_2.md");
    assert_eq!(output_base("scan", OcrTaskKind::Document), "scan.azusa-document");
}

#[test]
fn documents_directory_is_read_from_user_dirs() {
    let contents = "# comment\r\nXDG_DESKTOP_DIR=\"$HOME/Desktop\"\r\nXDG_DOCUMENTS_DIR=\"$HOME/Docs\"\n";
    assert_eq!(xdg_documents_dir(contents, "/home/u").as_deref(), Some("/home/u/Docs"));
    assert_eq!(xdg_documents_dir("XDG_DOCUMENTS_DIR=\"\"\n", "/h"), None);
    assert_eq!(xdg_documents_dir("", "/h"), None);
}

#[test]
fn selection_range_is_ordered_and_bounded() {
    assert_eq!(ocr_selection_range(3, 1, 5), Some((1, 3)));
    assert_eq!(ocr_selection_range(1, 5, 5), None);
    assert_eq!(ocr_selection_range(-1, 2, 5), None);
}

#[test]
fn palette_positions_round_trip() {
    for index in 0..8 {
        assert_eq!(color_index(color_from_index(index)), index);
    }
    assert_eq!(color_from_index(42), Color::red());
    assert_eq!(color_index(Color::rgb(1, 2, 3)), 0);
}

#[test]
fn tools_round_trip_through_their_ids() {
    for tool in ToolKind::all() {
        assert_eq!(ToolKind::from_id(tool.id()), Some(tool));
    }
    assert_eq!(ToolKind::from_id("number"), None);
}

#[test]
fn buffers_must_hold_every_pixel() {
    assert!(validate_buffer(&[0; 16], 2, 2).is_ok());
    let error = validate_buffer(&[0; 15], 2, 2).unwrap_err();
    assert_eq!(error.message(), "invalid RGBA buffer 2x2: got 15 bytes, expected 16");
    assert!(matches!(validate_buffer(&[], 0, 2), Err(RenderError::InvalidBuffer { .. })));
}

#[test]
fn app_states_have_labels() {
    assert_eq!(AppState::Recognizing.label(), "Recognizing");
    let status = CapabilityStatus::default();
    assert!(status.capture && !status.ocr && status.annotation);
}

fn text_rows() -> Vec<String> {
    ["轻量截图工具", "Select, annotate, copy", "OCR 文字识别"]
        .into_iter()
        .map(str::to_owned)
        .collect()
}

#[test]
fn ocr_selection_preserves_reading_order_in_both_directions() {
    let rows = text_rows();
    assert_eq!(ocr_selection_text(&rows, 1, 1), "Select, annotate, copy");
    assert_eq!(ocr_selection_text(&rows, 0, 2), ocr_selection_text(&rows, 2, 0));
    assert_eq!(
        ocr_selection_text(&rows, 0, 2),
        "轻量截图工具\nSelect, annotate, copy\nOCR 文字识别"
    );
    for (anchor, focus) in [(-1, -1), (0, -1), (0, 3), (3, 0)] {
        assert!(ocr_selection_text(&rows, anchor, focus).is_empty());
    }
    assert_eq!(ocr_selection_range(0, 0, 0), None);
}

#[test]
fn blank_ocr_rows_are_left_out_of_the_selection() {
    let rows = vec!["  first ".to_owned(), "   ".to_owned(), String::new(), "last".to_owned()];
    assert_eq!(ocr_selection_text(&rows, 3, 0), "  first \nlast");
    assert_eq!(ocr_selection_text(&rows, 1, 2), "");
}

#[test]
fn recognition_results_of_old_captures_are_dropped() {
    assert_eq!(recognition_status(2, 1, Ok(3)), None);
    assert_eq!(
        recognition_status(2, 2, Ok(3)).as_deref(),
        Some("Local OCR completed · 3 text blocks · OCR text layer is not exported")
    );
    assert_eq!(
        recognition_status(2, 2, Ok(0)).as_deref(),
        Some("Local OCR completed · no text found")
    );
    assert_eq!(
        recognition_status(2, 2, Err("no model")).as_deref(),
        Some("Local OCR failed · no model")
    );
}

#[test]
fn model_actions_report_their_outcome() {
    let (status, error) =
        model_action_feedback("glm-ocr-ollama", OcrModelAction::Install, &OcrActionResult::Succeeded);
    assert_eq!(status, "Downloaded GLM-OCR · local via Ollama · select Enable to use it for OCR");
    assert!(matches!(error, ModelErrorDisplay::Clear));
    let (status, error) = model_action_feedback(
        "mystery",
        OcrModelAction::Install,
        &OcrActionResult::Failed("offline".to_owned()),
    );
    assert_eq!(status, "OCR model download failed · offline");
    match error {
        ModelErrorDisplay::Show { model_id, text } => {
            assert_eq!(model_id, "mystery");
            assert_eq!(text, "offline");
        }
        other => panic!("unexpected {other:?}"),
    }
    let (status, _) = model_action_feedback(
        "mystery",
        OcrModelAction::Install,
        &OcrActionResult::Cancelled("stop".to_owned()),
    );
    assert_eq!(status, "Download cancelled · OCR model remains disabled");
    let (status, error) =
        model_action_feedback("mystery", OcrModelAction::Remove, &OcrActionResult::Succeeded);
    assert_eq!(status, "Removed OCR model · OCR model");
    assert!(matches!(error, ModelErrorDisplay::Keep));
    let (status, _) = model_action_feedback(
        "mystery",
        OcrModelAction::Remove,
        &OcrActionResult::Cancelled("busy".to_owned()),
    );
    assert_eq!(status, "OCR model removal cancelled · busy");
}

#[test]
fn windows_registration_writes_label_icon_and_command_per_extension() {
    let steps = windows_registration_steps("C:\\Apps\\azusa.exe");
    assert_eq!(steps.len(), 21);
    let key = "HKCU\\Software\\Classes\\SystemFileAssociations\\.png\\shell\\AzusaLensOCR";
    assert_eq!(steps[0], vec!["add", key, "/ve", "/d", CONTEXT_MENU_LABEL, "/f"]);
    assert_eq!(steps[1], vec!["add", key, "/v", "Icon", "/d", "C:\\Apps\\azusa.exe", "/f"]);
    assert_eq!(
        steps[2],
        vec![
            "add",
            &format!("{key}\\command"),
            "/ve",
            "/d",
            "\"C:\\Apps\\azusa.exe\" --ocr-type document --ocr-file \"%1\"",
            "/f"
        ]
    );
    assert!(steps[20][1].ends_with(".tiff\\shell\\AzusaLensOCR\\command"));
}

#[test]
fn registry_errors_prefer_error_output() {
    assert_eq!(reg_error("add key", "exit code: 1", " access denied\r\n", "out"), "failed to add key: access denied");
    assert_eq!(reg_error("add key", "exit code: 1", "  ", " done \n"), "failed to add key: done");
    assert_eq!(reg_error("add key", "exit code: 1", "", ""), "failed to add key: exit code: 1");
}

#[test]
fn sequence_markers_count_on_from_the_largest() {
    assert_eq!(next_sequence_number(&vec![]), 1);
    assert_eq!(next_sequence_number(&vec![None, Some(3), Some(1), None]), 4);
    assert_eq!(next_sequence_number(&vec![Some(u32::MAX)]), u32::MAX);
}
