//! The state of the window and what each action of the user does to it.
//!
//! The window shows a selected image, the recognised text, a status line and
//! whether a recognition is under way. The program around the library owns
//! the widgets, the file dialog, the worker and the clipboard: it reports each
//! event here, applies the new state, logs the record, and carries out the
//! action that comes back.

use crate::logger::{LogEntry, LogLevel};
use crate::models::RsOcrError;
use crate::text::{decimal, decimal_text};
use vstd::prelude::*;
use vstd::string::*;

verus! {

/// What the window shows.
#[derive(Debug)]
pub struct UiState {
    /// The path of the selected image; empty before the first selection.
    pub selected_image_path: String,
    /// The address of the OCR service.
    pub api_url: String,
    /// The recognised text; empty before the first recognition.
    pub ocr_result: String,
    /// The status line.
    pub status_message: String,
    /// Whether a recognition is under way.
    pub processing: bool,
}

/// What a `UiState` holds, as values.
pub struct UiView {
    pub path: Seq<char>,
    pub url: Seq<char>,
    pub result: Seq<char>,
    pub status: Seq<char>,
    pub processing: bool,
}

impl View for UiState {
    type V = UiView;

    open spec fn view(&self) -> UiView {
        UiView {
            path: self.selected_image_path@,
            url: self.api_url@,
            result: self.ocr_result@,
            status: self.status_message@,
            processing: self.processing,
        }
    }
}

impl UiView {
    /// The same window with another status line.
    pub open spec fn with_status(self, status: Seq<char>) -> UiView {
        UiView { status, ..self }
    }

    /// The window at the start, for the given address of the service.
    pub open spec fn initial(url: Seq<char>) -> UiView {
        UiView {
            path: Seq::<char>::empty(),
            url,
            result: Seq::<char>::empty(),
            status: Seq::<char>::empty(),
            processing: false,
        }
    }

    /// The window after an image was picked.
    pub open spec fn after_selection(self, path: Seq<char>, preview_loaded: bool) -> UiView {
        UiView {
            path,
            status: if preview_loaded {
                selected_text(path)
            } else {
                as_error(unloadable_text(path))
            },
            ..self
        }
    }

    /// The window after a recognition was asked for. While one is under way
    /// the request is refused and nothing changes.
    pub open spec fn after_request(self) -> UiView {
        if self.processing {
            self
        } else if self.path.len() == 0 {
            self.with_status(as_error(no_image_text()))
        } else {
            UiView { processing: true, status: working_text(), ..self }
        }
    }

    /// The window after a recognition gave a text.
    pub open spec fn after_success(self, data: Seq<char>) -> UiView {
        UiView {
            result: data,
            status: finished_text(byte_len(data)),
            processing: false,
            ..self
        }
    }

    /// The window after a recognition failed with an error of this text.
    pub open spec fn after_failure(self, words: Seq<char>) -> UiView {
        UiView { status: words, processing: false, ..self }
    }

    /// The window after a copy was asked for.
    pub open spec fn after_copy_request(self) -> UiView {
        if self.result.len() == 0 {
            self.with_status(as_error(nothing_to_copy_text()))
        } else {
            self
        }
    }
}

/// What the program is to do after an event.
#[derive(Debug)]
pub enum UiAction {
    /// Nothing.
    Nothing,
    /// Recognise this image at this address, off the window's own context,
    /// and report the result.
    StartOcr { image_path: String, api_url: String },
    /// Put this text on the clipboard and report what became of it.
    CopyText(String),
}

/// What became of putting a text on the clipboard.
#[derive(Debug)]
pub enum ClipboardOutcome {
    /// The text is on the clipboard.
    Copied,
    /// The clipboard could not be opened; the words say why.
    Unavailable(String),
    /// The clipboard did not take the text; the words say why.
    Refused(String),
}

/// The length of a text in bytes, as the machine counts it.
pub open spec fn byte_len(text: Seq<char>) -> usize {
    vstd::utf8::encode_utf8(text).len() as usize
}

/// A message shown as an error in the status line.
pub open spec fn as_error(message: Seq<char>) -> Seq<char> {
    "错误: "@ + message
}

/// The status line after an image was selected.
pub open spec fn selected_text(path: Seq<char>) -> Seq<char> {
    "已选择图片: "@ + path
}

/// The message for an image that could not be loaded for the preview.
pub open spec fn unloadable_text(path: Seq<char>) -> Seq<char> {
    "无法加载图片: "@ + path
}

/// The message for a recognition without a selected image.
pub open spec fn no_image_text() -> Seq<char> {
    "请先选择图片"@
}

/// The status line while a recognition is under way.
pub open spec fn working_text() -> Seq<char> {
    "正在处理图片..."@
}

/// The record of a recognition that starts.
pub open spec fn started_text(path: Seq<char>) -> Seq<char> {
    "开始处理图片: "@ + path
}

/// The record of a recognition that gave `n` bytes of text.
pub open spec fn succeeded_text(n: usize) -> Seq<char> {
    "OCR处理成功，识别到 "@ + decimal_text(n as nat) + " 个字符"@
}

/// The status line after a recognition that gave `n` bytes of text.
pub open spec fn finished_text(n: usize) -> Seq<char> {
    "OCR完成，识别到 "@ + decimal_text(n as nat) + " 个字符"@
}

/// The record of a recognition that failed.
pub open spec fn failed_text(words: Seq<char>) -> Seq<char> {
    "OCR处理失败: "@ + words
}

/// The message for a copy without a result.
pub open spec fn nothing_to_copy_text() -> Seq<char> {
    "没有可复制的内容"@
}

/// The status line after the result was copied.
pub open spec fn copied_text() -> Seq<char> {
    "结果已复制到剪贴板"@
}

/// The record of a copy of `n` bytes.
pub open spec fn copied_record_text(n: usize) -> Seq<char> {
    "结果已复制到剪贴板，字符数: "@ + decimal_text(n as nat)
}

/// The message for a clipboard that could not be opened.
pub open spec fn clipboard_unavailable_text(words: Seq<char>) -> Seq<char> {
    "剪贴板初始化失败: "@ + words
}

/// The message for a clipboard that did not take the text.
pub open spec fn copy_refused_text(words: Seq<char>) -> Seq<char> {
    "复制失败: "@ + words
}

fn joined(head: &str, tail: &str) -> (whole: String)
    ensures
        whole@ == head@ + tail@,
{
    String::from_str(head).concat(tail)
}

fn counted(head: &str, n: usize, tail: &str) -> (whole: String)
    ensures
        whole@ == head@ + decimal_text(n as nat) + tail@,
{
    let mut whole: String = String::from_str(head);
    whole.append(decimal(n).as_str());
    whole.append(tail);
    whole
}

impl UiState {
    /// The window at the start: nothing selected, nothing recognised, no
    /// status, nothing under way.
    pub fn new(api_url: String) -> (state: UiState)
        ensures
            state@ == UiView::initial(api_url@),
    {
        UiState {
            selected_image_path: String::new(),
            api_url,
            ocr_result: String::new(),
            status_message: String::new(),
            processing: false,
        }
    }

    /// The user was asked for an image. Where none was picked nothing
    /// changes. A picked image becomes the selected one; the status line names
    /// it, or, where the image could not be loaded for the preview, says so,
    /// and that failure is logged.
    pub fn select_image(&mut self, picked: Option<String>, preview_loaded: bool) -> (record:
        Option<LogEntry>)
        ensures
            picked is None ==> *final(self) == *old(self) && record is None,
            picked matches Some(path) ==> final(self)@ == old(self)@.after_selection(
                path@,
                preview_loaded,
            ),
            picked is Some && preview_loaded ==> record is None,
            picked matches Some(path) ==> (!preview_loaded ==> (record matches Some(e) && e.holds(
                LogLevel::Error,
                unloadable_text(path@),
            ))),
    {
        match picked {
            None => None,
            Some(path) => {
                if preview_loaded {
                    self.status_message = joined("已选择图片: ", path.as_str());
                    self.selected_image_path = path;
                    None
                } else {
                    let message: String = joined("无法加载图片: ", path.as_str());
                    self.status_message = joined("错误: ", message.as_str());
                    self.selected_image_path = path;
                    Some(LogEntry { level: LogLevel::Error, message })
                }
            },
        }
    }

    /// The user asked for a recognition. While one is under way the request
    /// is refused: nothing changes, nothing is logged and nothing is to be
    /// done, so that no second recognition starts before the first has ended.
    /// Else, without a selected image the status line says so, which is logged
    /// as an error, and nothing is to be done. Else a recognition is under way
    /// from now on, and the selected image is to be recognised at the address
    /// of the service.
    pub fn perform_ocr(&mut self) -> (step: (UiAction, Option<LogEntry>))
        ensures
            final(self)@ == old(self)@.after_request(),
            old(self)@.processing ==> *final(self) == *old(self) && step.0 is Nothing && step.1
                is None,
            !old(self)@.processing && old(self)@.path.len() == 0 ==> step.0 is Nothing && (step.1
                matches Some(e) && e.holds(LogLevel::Error, no_image_text())),
            !old(self)@.processing && old(self)@.path.len() != 0 ==> (step.1 matches Some(e)
                && e.holds(LogLevel::Info, started_text(old(self)@.path))),
            !old(self)@.processing && old(self)@.path.len() != 0 ==> (step.0 matches UiAction::StartOcr {
                image_path,
                api_url,
            } && image_path@ == old(self)@.path && api_url@ == old(self)@.url),
    {
        if self.processing {
            (UiAction::Nothing, None)
        } else if self.selected_image_path.as_str().is_empty() {
            self.status_message = joined("错误: ", "请先选择图片");
            (
                UiAction::Nothing,
                Some(
                    LogEntry {
                        level: LogLevel::Error,
                        message: String::from_str("请先选择图片"),
                    },
                ),
            )
        } else {
            self.processing = true;
            self.status_message = String::from_str("正在处理图片...");
            let message: String = joined("开始处理图片: ", self.selected_image_path.as_str());
            (
                UiAction::StartOcr {
                    image_path: self.selected_image_path.clone(),
                    api_url: self.api_url.clone(),
                },
                Some(LogEntry { level: LogLevel::Info, message }),
            )
        }
    }

    /// A recognition ended, and nothing is under way any more. A text becomes
    /// the shown result, and the status line and the record count its bytes.
    /// An error leaves the shown result as it was; its text becomes the status
    /// line and is logged as an error.
    pub fn ocr_finished(&mut self, result: Result<String, RsOcrError>) -> (record: LogEntry)
        ensures
            match result {
                Ok(data) => final(self)@ == old(self)@.after_success(data@) && record.holds(
                    LogLevel::Info,
                    succeeded_text(byte_len(data@)),
                ),
                Err(e) => final(self)@ == old(self)@.after_failure(e.text()) && record.holds(
                    LogLevel::Error,
                    failed_text(e.text()),
                ),
            },
    {
        self.processing = false;
        match result {
            Ok(data) => {
                let n: usize = data.as_str().len();
                self.ocr_result = data;
                self.status_message = counted("OCR完成，识别到 ", n, " 个字符");
                LogEntry {
                    level: LogLevel::Info,
                    message: counted("OCR处理成功，识别到 ", n, " 个字符"),
                }
            },
            Err(e) => {
                let words: String = e.to_string();
                let message: String = joined("OCR处理失败: ", words.as_str());
                self.status_message = words;
                LogEntry { level: LogLevel::Error, message }
            },
        }
    }

    /// The user asked for the result on the clipboard. With nothing to copy
    /// the status line says so, which is logged as a warning, and nothing is
    /// to be done. Else the shown result is to be copied, and nothing changes
    /// until the clipboard has answered.
    pub fn copy_to_clipboard(&mut self) -> (step: (UiAction, Option<LogEntry>))
        ensures
            final(self)@ == old(self)@.after_copy_request(),
            old(self)@.result.len() == 0 ==> step.0 is Nothing && (step.1 matches Some(e)
                && e.holds(LogLevel::Warn, nothing_to_copy_text())),
            old(self)@.result.len() != 0 ==> step.1 is None && (step.0 matches UiAction::CopyText(
                text,
            ) && text@ == old(self)@.result),
    {
        if self.ocr_result.as_str().is_empty() {
            self.status_message = joined("错误: ", "没有可复制的内容");
            (
                UiAction::Nothing,
                Some(
                    LogEntry {
                        level: LogLevel::Warn,
                        message: String::from_str("没有可复制的内容"),
                    },
                ),
            )
        } else {
            (UiAction::CopyText(self.ocr_result.clone()), None)
        }
    }

    /// The clipboard answered. Only the status line changes: it says that the
    /// result was copied, or why it was not. A copy is logged with the count
    /// of the bytes of the shown result, a failure as an error.
    pub fn clipboard_finished(&mut self, outcome: ClipboardOutcome) -> (record: LogEntry)
        ensures
            match outcome {
                ClipboardOutcome::Copied => final(self)@ == old(self)@.with_status(copied_text())
                    && record.holds(
                    LogLevel::Info,
                    copied_record_text(byte_len(old(self)@.result)),
                ),
                ClipboardOutcome::Unavailable(words) => final(self)@ == old(self)@.with_status(
                    clipboard_unavailable_text(words@),
                ) && record.holds(LogLevel::Error, clipboard_unavailable_text(words@)),
                ClipboardOutcome::Refused(words) => final(self)@ == old(self)@.with_status(
                    copy_refused_text(words@),
                ) && record.holds(LogLevel::Error, copy_refused_text(words@)),
            },
    {
        match outcome {
            ClipboardOutcome::Copied => {
                let n: usize = self.ocr_result.as_str().len();
                self.status_message = String::from_str("结果已复制到剪贴板");
                LogEntry {
                    level: LogLevel::Info,
                    message: joined("结果已复制到剪贴板，字符数: ", decimal(n).as_str()),
                }
            },
            ClipboardOutcome::Unavailable(words) => {
                let message: String = joined("剪贴板初始化失败: ", words.as_str());
                self.status_message = message.clone();
                LogEntry { level: LogLevel::Error, message }
            },
            ClipboardOutcome::Refused(words) => {
                let message: String = joined("复制失败: ", words.as_str());
                self.status_message = message.clone();
                LogEntry { level: LogLevel::Error, message }
            },
        }
    }
}

/// A recognition that was started and then ended, however it ended, leaves
/// nothing under way, the selected image and the address as they were, and,
/// where it failed, the shown result as it was.
pub proof fn lemma_request_then_end(
    before: UiView,
    outcome: Result<Seq<char>, Seq<char>>,
)
    requires
        !before.processing,
        before.path.len() != 0,
    ensures
        before.after_request().processing,
        match outcome {
            Ok(data) => {
                let after = before.after_request().after_success(data);
                !after.processing && after.path == before.path && after.url == before.url
                    && after.result == data
            },
            Err(words) => {
                let after = before.after_request().after_failure(words);
                !after.processing && after.path == before.path && after.url == before.url
                    && after.result == before.result && after.status == words
            },
        },
{
}

/// While a recognition is under way, asking for another changes nothing. So
/// to ask twice in a row is to ask once: a request that started a
/// recognition is followed only by requests that are refused, until the
/// recognition has ended.
pub proof fn lemma_request_while_processing_is_refused(before: UiView)
    ensures
        before.processing ==> before.after_request() == before,
        before.after_request().after_request() == before.after_request(),
{
}

/// Asking for a copy never changes anything but the status line, and can be
/// asked for before any recognition: the fresh window then reports that there
/// is nothing to copy.
pub proof fn lemma_copy_request_is_harmless(before: UiView, url: Seq<char>)
    ensures
        before.after_copy_request() == before.with_status(before.after_copy_request().status),
        UiView::initial(url).after_copy_request().status == as_error(nothing_to_copy_text()),
{
}

} // verus!
