use azusa_lens::fonts::{fallback_font_directories, is_font_extension, preferred_font_paths};
use azusa_lens::platform::Platform;

#[test]
fn user_font_is_tried_before_system_fonts() {
    let paths = preferred_font_paths(Platform::Linux, Some("/home/a/font.ttf".to_owned()), None);
    assert_eq!(paths.len(), 5);
    assert_eq!(paths[0], "/home/a/font.ttf");
    assert_eq!(paths[4], "/usr/share/fonts/truetype/dejavu/DejaVuSans.ttf");
    assert!(preferred_font_paths(Platform::Other, None, None).is_empty());
}

#[test]
fn windows_fonts_live_under_the_windows_directory() {
    let paths = preferred_font_paths(Platform::Windows, None, Some("D:\\Win".to_owned()));
    assert_eq!(paths, vec!["D:\\Win\\Fonts\\msyh.ttc", "D:\\Win\\Fonts\\segoeui.ttf", "D:\\Win\\Fonts\\arial.ttf"]);
    let paths = preferred_font_paths(Platform::Windows, None, None);
    assert_eq!(paths[0], "C:\\Windows\\Fonts\\msyh.ttc");
    assert!(fallback_font_directories(Platform::Windows, None, None).is_empty());
}

#[test]
fn font_directories_end_with_the_user_fonts() {
    let directories = fallback_font_directories(Platform::Linux, None, Some("/home/a".to_owned()));
    assert_eq!(directories, vec!["/usr/share/fonts", "/usr/local/share/fonts", "/home/a/.local/share/fonts"]);
    let directories = fallback_font_directories(Platform::MacOs, None, None);
    assert_eq!(directories, vec!["/System/Library/Fonts", "/Library/Fonts"]);
}

#[test]
fn font_files_are_known_by_extension() {
    assert!(is_font_extension("ttf"));
    assert!(is_font_extension("OTF"));
    assert!(is_font_extension("TtC"));
    assert!(!is_font_extension("woff"));
    assert!(!is_font_extension(""));
}
