//! Verified core of Azusa Lens: capture geometry, annotation history,
//! settings, shortcut bindings, OCR model routing and status text.

pub mod annotation;
pub mod app_state;
pub mod calendar;
pub mod capture;
pub mod capture_session;
pub mod config;
pub mod dialogs;
pub mod document;
pub mod effects;
pub mod encoding;
pub mod feedback;
pub mod file_ocr;
pub mod fonts;
pub mod hotkey;
pub mod i18n;
pub mod model_install;
pub mod ocr;
pub mod ocr_models;
pub mod ollama;
pub mod paths;
pub mod pixels;
pub mod platform;
pub mod progress;
pub mod shell_integration;
pub mod shortcut_registration;
pub mod shortcut_settings;
pub mod text;
pub mod ui_state;
