//! The data that travels between the program and the OCR service, and the
//! errors of the whole pipeline.

use vstd::prelude::*;
use vstd::string::*;

verus! {

/// The JSON document type of `serde_json`. The library carries such a value
/// through untouched and never looks inside.
#[verifier::external_type_specification]
#[verifier::external_body]
pub struct ExJsonValue(serde_json::Value);

/// Options of one OCR request. On the wire the field is named `data.format`.
#[derive(Debug)]
pub struct OcrOptions {
    pub data_format: String,
}

/// The body of one OCR request.
#[derive(Debug)]
pub struct OcrRequest {
    pub base64: String,
    pub options: OcrOptions,
}

/// What the OCR service answered: the recognised text, if any, and every
/// other field of the answer, kept as it came.
#[derive(Debug)]
pub struct OcrResponse {
    pub data: Option<String>,
    pub extra: serde_json::Value,
}

/// The errors of the pipeline. Each kind carries a message for the user.
#[derive(Debug)]
pub enum RsOcrError {
    /// A file could not be read or written.
    Io(String),
    /// The HTTP request failed in transport.
    Http(String),
    /// A body was not the JSON that was expected.
    Json(String),
    /// A text was not valid base64.
    Base64(String),
    /// The configuration is incomplete or cannot be stored.
    Config(String),
    /// The OCR service reported, or implied, a failure.
    OcrApi(String),
    /// An image could not be processed.
    ImageProcessing(String),
    /// The clipboard could not be used.
    Clipboard(String),
    /// Anything else.
    Generic(String),
}

impl RsOcrError {
    /// The message that the error carries.
    pub open spec fn detail(self) -> Seq<char> {
        match self {
            RsOcrError::Io(m) => m@,
            RsOcrError::Http(m) => m@,
            RsOcrError::Json(m) => m@,
            RsOcrError::Base64(m) => m@,
            RsOcrError::Config(m) => m@,
            RsOcrError::OcrApi(m) => m@,
            RsOcrError::ImageProcessing(m) => m@,
            RsOcrError::Clipboard(m) => m@,
            RsOcrError::Generic(m) => m@,
        }
    }

    /// The words that introduce an error of this kind.
    pub open spec fn heading(self) -> Seq<char> {
        match self {
            RsOcrError::Io(_) => "IO错误: "@,
            RsOcrError::Http(_) => "HTTP请求错误: "@,
            RsOcrError::Json(_) => "JSON解析错误: "@,
            RsOcrError::Base64(_) => "Base64编码错误: "@,
            RsOcrError::Config(_) => "配置文件错误: "@,
            RsOcrError::OcrApi(_) => "OCR API错误: "@,
            RsOcrError::ImageProcessing(_) => "图片处理错误: "@,
            RsOcrError::Clipboard(_) => "剪贴板错误: "@,
            RsOcrError::Generic(_) => "通用错误: "@,
        }
    }

    /// The text shown to the user: the heading of the kind, then the message.
    pub open spec fn text(self) -> Seq<char> {
        self.heading() + self.detail()
    }

    /// The text shown to the user.
    pub fn to_string(&self) -> (s: String)
        ensures
            s@ == self.text(),
    {
        match self {
            RsOcrError::Io(m) => String::from_str("IO错误: ").concat(m.as_str()),
            RsOcrError::Http(m) => String::from_str("HTTP请求错误: ").concat(m.as_str()),
            RsOcrError::Json(m) => String::from_str("JSON解析错误: ").concat(m.as_str()),
            RsOcrError::Base64(m) => String::from_str("Base64编码错误: ").concat(m.as_str()),
            RsOcrError::Config(m) => String::from_str("配置文件错误: ").concat(m.as_str()),
            RsOcrError::OcrApi(m) => String::from_str("OCR API错误: ").concat(m.as_str()),
            RsOcrError::ImageProcessing(m) => String::from_str("图片处理错误: ").concat(
                m.as_str(),
            ),
            RsOcrError::Clipboard(m) => String::from_str("剪贴板错误: ").concat(m.as_str()),
            RsOcrError::Generic(m) => String::from_str("通用错误: ").concat(m.as_str()),
        }
    }
}

/// The message of an error always is the tail of its text.
pub proof fn lemma_text_ends_with_detail(e: RsOcrError)
    ensures
        crate::text::contains_text(e.text(), e.detail()),
{
    let h = e.heading();
    let d = e.detail();
    assert((h + d).subrange(h.len() as int, (h.len() + d.len()) as int) =~= d);
}

} // verus!
