use azusa_lens::config::LanguageMode;
use azusa_lens::feedback::{
    classify, notification_summary, should_use_system_notification, FeedbackLevel,
};
use azusa_lens::i18n::{effective_language, localize_status, EffectiveLanguage};
use azusa_lens::ui_state::capture_status;

#[test]
fn feedback_classification_is_stable_for_common_actions() {
    assert_eq!(classify("Image copied"), FeedbackLevel::Success);
    assert_eq!(classify("Save As cancelled"), FeedbackLevel::Warning);
    assert_eq!(classify("Region capture failed · denied"), FeedbackLevel::Error);
    assert_eq!(classify("Starting region capture…"), FeedbackLevel::Info);
}

#[test]
fn system_notifications_are_reserved_for_background_worthy_events() {
    assert!(!should_use_system_notification("Image copied", FeedbackLevel::Success));
    assert!(!should_use_system_notification(
        "Saved edited PNG · /tmp/a.png",
        FeedbackLevel::Success
    ));
    assert!(should_use_system_notification(
        "OCR model download failed · network",
        FeedbackLevel::Error
    ));
    assert!(should_use_system_notification(
        "Downloaded Fast OCR · select Enable to use it for OCR",
        FeedbackLevel::Success
    ));
}

#[test]
fn explicit_language_modes_resolve_without_system_locale() {
    assert_eq!(effective_language(LanguageMode::English, None), EffectiveLanguage::English);
    assert_eq!(
        effective_language(LanguageMode::SimplifiedChinese, None),
        EffectiveLanguage::SimplifiedChinese
    );
}

#[test]
fn chinese_status_localizes_dynamic_capture_result() {
    assert_eq!(
        localize_status(
            EffectiveLanguage::SimplifiedChinese,
            "Captured 640×480 · copied to clipboard · ready to annotate"
        ),
        "已截图 640×480 · 已复制到剪贴板 · 可以开始标注"
    );
}

#[test]
fn system_locale_selects_chinese_in_any_case() {
    assert_eq!(
        effective_language(LanguageMode::System, Some("ZH_cn")),
        EffectiveLanguage::SimplifiedChinese
    );
    assert_eq!(effective_language(LanguageMode::System, Some("en-US")), EffectiveLanguage::English);
    assert_eq!(effective_language(LanguageMode::System, None), EffectiveLanguage::English);
}

#[test]
fn english_status_is_shown_unchanged() {
    let raw = "Captured 640×480 · copied to clipboard · ready to annotate";
    assert_eq!(localize_status(EffectiveLanguage::English, raw), raw);
    assert_eq!(localize_status(EffectiveLanguage::SimplifiedChinese, ""), "");
}

#[test]
fn chinese_status_covers_each_kind_of_rule() {
    let zh = EffectiveLanguage::SimplifiedChinese;
    assert_eq!(localize_status(zh, "Language saved"), "语言设置已保存");
    assert_eq!(localize_status(zh, "Undo failed · busy"), "撤销失败 · busy");
    assert_eq!(localize_status(zh, "Appearance saved · dark"), "外观已保存 · 暗色");
    assert_eq!(localize_status(zh, "Appearance saved · sepia"), "外观已保存 · sepia");
    assert_eq!(localize_status(zh, "Annotation tool · mosaic"), "标注工具 · 马赛克");
    assert_eq!(localize_status(zh, "Fast OCR running locally…"), "Fast OCR 正在本地识别…");
    assert_eq!(localize_status(zh, "Starting GLM download…"), "正在开始下载 GLM…");
    assert_eq!(
        localize_status(zh, "Local OCR completed · 3 text blocks · OCR text layer is not exported"),
        "本地 OCR 已完成 · 3 个文字区域 · OCR 文字层不会导出到图片"
    );
    assert_eq!(
        localize_status(zh, "Captured 10×20 · clipboard failed: busy · ready to annotate"),
        "已截图 10×20 · 复制到剪贴板失败：busy · 可以开始标注"
    );
    assert_eq!(localize_status(zh, "Captured 10×20 · ready to annotate"), "已截图 10×20 · 可以开始标注");
    assert_eq!(
        localize_status(zh, "Registering screenshot shortcut · Ctrl+S"),
        "正在注册截图快捷键 · Ctrl+S"
    );
    assert_eq!(localize_status(zh, "Registering Ctrl+S…"), "正在注册 Ctrl+S…");
    assert_eq!(localize_status(zh, "Something new"), "Something new");
}

#[test]
fn levels_have_names_and_durations() {
    assert_eq!(FeedbackLevel::Error.as_str(), "error");
    assert_eq!(FeedbackLevel::Success.duration_ms(), 2200);
    assert_eq!(FeedbackLevel::Warning.duration_ms(), 4000);
    assert_eq!(classify("Could not save language · disk full"), FeedbackLevel::Error);
    assert_eq!(classify("No OCR text to copy"), FeedbackLevel::Warning);
    assert_eq!(classify("Undid last editor change"), FeedbackLevel::Success);
    assert_eq!(
        notification_summary(EffectiveLanguage::SimplifiedChinese, FeedbackLevel::Error),
        "Azusa Lens · 错误"
    );
    assert_eq!(notification_summary(EffectiveLanguage::English, FeedbackLevel::Info), "Azusa Lens");
}

#[test]
fn capture_status_reports_the_clipboard_outcome() {
    assert_eq!(capture_status(640, 480, None), "Captured 640×480 · ready to annotate");
    let copied = capture_status(640, 480, Some(Ok(())));
    assert_eq!(copied, "Captured 640×480 · copied to clipboard · ready to annotate");
    assert_eq!(
        localize_status(EffectiveLanguage::SimplifiedChinese, &copied),
        "已截图 640×480 · 已复制到剪贴板 · 可以开始标注"
    );
    assert_eq!(
        capture_status(1, 2, Some(Err("busy"))),
        "Captured 1×2 · clipboard failed: busy · ready to annotate"
    );
}
