use rsocr::gui::{ClipboardOutcome, UiAction, UiState};
use rsocr::logger::LogLevel;
use rsocr::text::decimal;
use rsocr::RsOcrError;

fn fresh() -> UiState {
    UiState::new("http://127.0.0.1:1224/api/ocr".to_string())
}

#[test]
fn a_new_window_is_empty() {
    let ui = fresh();
    assert_eq!(ui.selected_image_path, "");
    assert_eq!(ui.api_url, "http://127.0.0.1:1224/api/ocr");
    assert_eq!(ui.ocr_result, "");
    assert_eq!(ui.status_message, "");
    assert!(!ui.processing);
}

#[test]
fn a_cancelled_dialog_changes_nothing() {
    let mut ui = fresh();
    ui.status_message = "before".to_string();
    assert!(ui.select_image(None, true).is_none());
    assert_eq!(ui.selected_image_path, "");
    assert_eq!(ui.status_message, "before");
}

#[test]
fn a_picked_image_is_selected_and_named() {
    let mut ui = fresh();
    assert!(ui.select_image(Some("/tmp/a.png".to_string()), true).is_none());
    assert_eq!(ui.selected_image_path, "/tmp/a.png");
    assert_eq!(ui.status_message, "已选择图片: /tmp/a.png");
}

#[test]
fn an_image_without_preview_is_selected_and_reported() {
    let mut ui = fresh();
    let record = ui.select_image(Some("/tmp/a.txt".to_string()), false).unwrap();
    assert_eq!(ui.selected_image_path, "/tmp/a.txt");
    assert_eq!(ui.status_message, "错误: 无法加载图片: /tmp/a.txt");
    assert_eq!(record.level, LogLevel::Error);
    assert_eq!(record.message, "无法加载图片: /tmp/a.txt");
}

#[test]
fn recognition_needs_an_image() {
    let mut ui = fresh();
    let (action, record) = ui.perform_ocr();
    let record = record.unwrap();
    assert!(matches!(action, UiAction::Nothing));
    assert_eq!(record.level, LogLevel::Error);
    assert_eq!(record.message, "请先选择图片");
    assert_eq!(ui.status_message, "错误: 请先选择图片");
    assert!(!ui.processing);
}

#[test]
fn recognition_starts_with_the_selected_image() {
    let mut ui = fresh();
    ui.select_image(Some("a.png".to_string()), true);
    let (action, record) = ui.perform_ocr();
    assert!(matches!(action, UiAction::StartOcr { ref image_path, ref api_url }
        if image_path == "a.png" && api_url == "http://127.0.0.1:1224/api/ocr"));
    let record = record.unwrap();
    assert_eq!(record.level, LogLevel::Info);
    assert_eq!(record.message, "开始处理图片: a.png");
    assert_eq!(ui.status_message, "正在处理图片...");
    assert!(ui.processing);
}

#[test]
fn a_recognised_text_is_shown_and_counted_in_bytes() {
    let mut ui = fresh();
    ui.select_image(Some("a.png".to_string()), true);
    ui.perform_ocr();
    let record = ui.ocr_finished(Ok("hello 世界".to_string()));
    assert_eq!(ui.ocr_result, "hello 世界");
    assert_eq!(ui.status_message, "OCR完成，识别到 12 个字符");
    assert_eq!(record.level, LogLevel::Info);
    assert_eq!(record.message, "OCR处理成功，识别到 12 个字符");
    assert!(!ui.processing);
}

#[test]
fn a_failed_recognition_shows_the_error() {
    let mut ui = fresh();
    ui.select_image(Some("a.png".to_string()), true);
    ui.perform_ocr();
    ui.ocr_finished(Ok("old".to_string()));
    ui.perform_ocr();
    let record = ui.ocr_finished(Err(RsOcrError::Io("denied".to_string())));
    assert_eq!(ui.ocr_result, "old");
    assert_eq!(ui.status_message, "IO错误: denied");
    assert_eq!(record.level, LogLevel::Error);
    assert_eq!(record.message, "OCR处理失败: IO错误: denied");
    assert!(!ui.processing);
}

#[test]
fn copying_before_any_recognition_reports_nothing_to_copy() {
    let mut ui = fresh();
    let (action, record) = ui.copy_to_clipboard();
    assert!(matches!(action, UiAction::Nothing));
    let record = record.unwrap();
    assert_eq!(record.level, LogLevel::Warn);
    assert_eq!(record.message, "没有可复制的内容");
    assert_eq!(ui.status_message, "错误: 没有可复制的内容");
}

#[test]
fn copying_hands_out_the_result() {
    let mut ui = fresh();
    ui.ocr_finished(Ok("text".to_string()));
    let status = ui.status_message.clone();
    let (action, record) = ui.copy_to_clipboard();
    assert!(matches!(action, UiAction::CopyText(ref t) if t == "text"));
    assert!(record.is_none());
    assert_eq!(ui.status_message, status);
}

#[test]
fn the_clipboard_answer_becomes_the_status() {
    let mut ui = fresh();
    ui.ocr_finished(Ok("text".to_string()));
    let record = ui.clipboard_finished(ClipboardOutcome::Copied);
    assert_eq!(ui.status_message, "结果已复制到剪贴板");
    assert_eq!(record.level, LogLevel::Info);
    assert_eq!(record.message, "结果已复制到剪贴板，字符数: 4");

    let record = ui.clipboard_finished(ClipboardOutcome::Unavailable("no display".to_string()));
    assert_eq!(ui.status_message, "剪贴板初始化失败: no display");
    assert_eq!(record.level, LogLevel::Error);
    assert_eq!(record.message, "剪贴板初始化失败: no display");

    let record = ui.clipboard_finished(ClipboardOutcome::Refused("busy".to_string()));
    assert_eq!(ui.status_message, "复制失败: busy");
    assert_eq!(record.level, LogLevel::Error);
    assert_eq!(record.message, "复制失败: busy");
    assert_eq!(ui.ocr_result, "text");
}

#[test]
fn numerals_are_decimal() {
    assert_eq!(decimal(0), "0");
    assert_eq!(decimal(7), "7");
    assert_eq!(decimal(10), "10");
    assert_eq!(decimal(500), "500");
    assert_eq!(decimal(1234567890), "1234567890");
    assert_eq!(decimal(usize::MAX), usize::MAX.to_string());
}

#[test]
fn a_second_request_while_one_is_under_way_is_refused() {
    let mut ui = fresh();
    ui.select_image(Some("a.png".to_string()), true);
    let (first, _) = ui.perform_ocr();
    assert!(matches!(first, UiAction::StartOcr { .. }));
    assert!(ui.processing);

    let (second, record) = ui.perform_ocr();
    assert!(matches!(second, UiAction::Nothing));
    assert!(record.is_none());
    assert!(ui.processing);
    assert_eq!(ui.selected_image_path, "a.png");
    assert_eq!(ui.api_url, "http://127.0.0.1:1224/api/ocr");
    assert_eq!(ui.ocr_result, "");
    assert_eq!(ui.status_message, "正在处理图片...");

    ui.ocr_finished(Ok("text".to_string()));
    assert!(!ui.processing);
    let (third, record) = ui.perform_ocr();
    assert!(matches!(third, UiAction::StartOcr { ref image_path, .. } if image_path == "a.png"));
    assert_eq!(record.unwrap().message, "开始处理图片: a.png");
    assert!(ui.processing);
}

#[test]
fn a_request_under_way_is_refused_even_without_an_image() {
    let mut ui = fresh();
    ui.processing = true;
    ui.status_message = "before".to_string();
    let (action, record) = ui.perform_ocr();
    assert!(matches!(action, UiAction::Nothing));
    assert!(record.is_none());
    assert!(ui.processing);
    assert_eq!(ui.status_message, "before");
}
