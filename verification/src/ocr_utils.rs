//! The pipeline from the bytes of an image to the recognised text: encode,
//! build the request, and judge what the service answered.
//!
//! Reading the file and sending the request are the caller's work. The caller
//! hands over what it read and what came back, and gets the next value or the
//! error.

use crate::models::{OcrOptions, OcrRequest, OcrResponse, RsOcrError};
use crate::text::decimal_text;
use base64::Engine;
use vstd::prelude::*;
use vstd::string::*;

verus! {

/// The error of `base64` for a text that does not decode.
#[verifier::external_type_specification]
#[verifier::external_body]
pub struct ExDecodeError(base64::DecodeError);

/// The standard base64 encoding, with padding, of a sequence of bytes.
pub uninterp spec fn base64_text(bytes: Seq<u8>) -> Seq<char>;

/// The canonical reason phrase of an HTTP status code, where it has one.
pub uninterp spec fn canonical_reason_text(code: u16) -> Option<Seq<char>>;

/// Whether the encoding of `n` bytes has a length that fits the machine.
pub open spec fn encodable_len(n: nat) -> bool {
    n / 3 * 4 + 4 <= usize::MAX
}

/// The reason phrase of a status code, or `fallback` where it has none.
pub open spec fn reason_or(code: u16, fallback: Seq<char>) -> Seq<char> {
    match canonical_reason_text(code) {
        Some(reason) => reason,
        None => fallback,
    }
}

/// A status code as it is displayed: the number, a space, and the reason
/// phrase or a note that there is none.
pub open spec fn status_line_text(code: u16) -> Seq<char> {
    decimal_text(code as nat) + " "@ + reason_or(code, "<unknown status code>"@)
}

/// The message of the error for a response whose status is no success, from
/// the status as it is displayed and its reason phrase.
pub open spec fn failure_text_of(displayed: Seq<char>, reason: Option<Seq<char>>) -> Seq<char> {
    "OCR API请求失败: HTTP状态码 "@ + displayed + " ("@ + (match reason {
        Some(words) => words,
        None => "未知错误"@,
    }) + ")"@
}

/// The message of the error for a response whose status is no success.
pub open spec fn failure_text(code: u16) -> Seq<char> {
    failure_text_of(status_line_text(code), canonical_reason_text(code))
}

/// The message of the error for a response without text.
pub open spec fn empty_result_text() -> Seq<char> {
    "OCR API返回空结果"@
}

/// Decoding undoes encoding: where `text` is the encoding of some bytes,
/// `decoded` holds those bytes.
pub open spec fn inverts_encoding<E>(decoded: Result<Vec<u8>, E>, text: Seq<char>) -> bool {
    forall|bytes: Seq<u8>| #[trigger]
        base64_text(bytes) == text ==> (decoded matches Ok(v) && v@ == bytes)
}

/// `Engine::encode` of `base64`, on the engine `general_purpose::STANDARD`:
/// the result is the standard encoding of the bytes. The call panics where
/// the length of the encoding overflows, which `requires` leaves out.
#[verifier::external_body]
fn encode_standard(bytes: &[u8]) -> (text: String)
    requires
        encodable_len(bytes@.len()),
    ensures
        text@ == base64_text(bytes@),
{
    base64::engine::general_purpose::STANDARD.encode(bytes)
}

/// `Engine::decode` of `base64`, on the engine `general_purpose::STANDARD`:
/// a text that is the standard encoding of some bytes decodes to those
/// bytes. Nothing is claimed of any other text.
#[verifier::external_body]
fn decode_standard(text: &str) -> (decoded: Result<Vec<u8>, base64::DecodeError>)
    ensures
        inverts_encoding(decoded, text@),
{
    base64::engine::general_purpose::STANDARD.decode(text)
}

/// `Display` of `base64::DecodeError`: the words of the error. Nothing is
/// claimed of them.
#[verifier::external_body]
fn decode_error_text(e: &base64::DecodeError) -> (words: String) {
    e.to_string()
}

/// `StatusCode::canonical_reason` of `reqwest`, for the status that
/// `StatusCode::from_u16` makes of `code`: the reason phrase, where the code
/// has one. `from_u16` takes the codes from 100 to 999.
#[verifier::external_body]
fn canonical_reason(code: u16) -> (reason: Option<&'static str>)
    requires
        100 <= code <= 999,
    ensures
        match reason {
            Some(words) => canonical_reason_text(code) == Some(words@),
            None => canonical_reason_text(code) is None,
        },
{
    match reqwest::StatusCode::from_u16(code) {
        Ok(status) => status.canonical_reason(),
        Err(_) => None,
    }
}

/// `Display` of `reqwest::StatusCode`, for the status that
/// `StatusCode::from_u16` makes of `code`: the number in decimal, a space,
/// and the canonical reason phrase, or `<unknown status code>` where the code
/// has none.
#[verifier::external_body]
fn status_line(code: u16) -> (line: String)
    requires
        100 <= code <= 999,
    ensures
        line@ == status_line_text(code),
{
    match reqwest::StatusCode::from_u16(code) {
        Ok(status) => status.to_string(),
        Err(_) => String::new(),
    }
}

/// The status code of an HTTP response: a number from 100 to 999.
#[derive(Debug)]
pub struct HttpStatus {
    code: u16,
}

impl HttpStatus {
    #[verifier::type_invariant]
    spec fn in_range(self) -> bool {
        100 <= self.code <= 999
    }

    /// The number of the status.
    pub closed spec fn code(self) -> u16 {
        self.code
    }

    /// Whether the number lies from 200 to 299.
    pub open spec fn success(self) -> bool {
        200 <= self.code() < 300
    }

    /// The status of the given number, for the numbers from 100 to 999.
    pub fn new(code: u16) -> (status: Option<HttpStatus>)
        ensures
            100 <= code <= 999 ==> (status matches Some(s) && s.code() == code),
            !(100 <= code <= 999) ==> status is None,
    {
        if 100 <= code && code <= 999 {
            Some(HttpStatus { code })
        } else {
            None
        }
    }

    /// The number of the status.
    pub fn as_u16(&self) -> (code: u16)
        ensures
            code == self.code(),
            100 <= code <= 999,
    {
        proof {
            use_type_invariant(self);
        }
        self.code
    }

    /// Whether the status reports success.
    pub fn is_success(&self) -> (b: bool)
        ensures
            b == self.success(),
    {
        200 <= self.code && self.code < 300
    }
}

/// What became of one request.
#[derive(Debug)]
pub enum ApiReply {
    /// No response arrived; the words say why.
    TransportFailed(String),
    /// A response arrived, with its status and its body: decoded, or the
    /// words of why it could not be decoded.
    Responded { status: HttpStatus, body: Result<OcrResponse, String> },
}

/// The encoding of the bytes that were read from the image file, or the
/// error of reading it.
pub fn image_to_base64(read: Result<Vec<u8>, String>) -> (encoded: Result<String, RsOcrError>)
    requires
        read matches Ok(bytes) ==> encodable_len(bytes@.len()),
    ensures
        match read {
            Ok(bytes) => encoded matches Ok(text) && text@ == base64_text(bytes@),
            Err(words) => encoded == Err::<String, RsOcrError>(RsOcrError::Io(words)),
        },
{
    match read {
        Ok(bytes) => Ok(encode_standard(bytes.as_slice())),
        Err(words) => Err(RsOcrError::Io(words)),
    }
}

/// The bytes that a base64 text stands for. The encoding of any bytes
/// decodes to those bytes; a text that does not decode gives an error of the
/// kind `Base64`.
pub fn decode_base64(text: &str) -> (decoded: Result<Vec<u8>, RsOcrError>)
    ensures
        inverts_encoding(decoded, text@),
        decoded matches Err(e) ==> e is Base64,
{
    match decode_standard(text) {
        Ok(bytes) => Ok(bytes),
        Err(e) => Err(RsOcrError::Base64(decode_error_text(&e))),
    }
}

/// Decoding the encoding of any bytes gives exactly those bytes: where
/// `text` is what `image_to_base64` makes of `bytes` and `decoded` is what
/// `decode_base64` makes of `text`, `decoded` holds `bytes`.
pub proof fn lemma_decoding_inverts_encoding<E>(
    bytes: Seq<u8>,
    text: Seq<char>,
    decoded: Result<Vec<u8>, E>,
)
    requires
        text == base64_text(bytes),
        inverts_encoding(decoded, text),
    ensures
        decoded matches Ok(v) && v@ == bytes,
{
}

/// One call of the OCR service: an HTTP POST to `url` whose body is `body` as
/// JSON, under the given content type.
#[derive(Debug)]
pub struct ApiCall {
    pub url: String,
    pub content_type: String,
    pub body: OcrRequest,
}

/// The call that sends one encoded image to the service at `url`: its body
/// asks for text, and its content type is that of JSON.
pub fn api_call(base64_code: &str, url: &str) -> (call: ApiCall)
    ensures
        call.url@ == url@,
        call.content_type@ == "application/json"@,
        call.body.base64@ == base64_code@,
        call.body.options.data_format@ == "text"@,
{
    ApiCall {
        url: String::from_str(url),
        content_type: String::from_str("application/json"),
        body: build_request(base64_code),
    }
}

/// The request for one encoded image: the output format is `text`.
pub fn build_request(base64_code: &str) -> (request: OcrRequest)
    ensures
        request.base64@ == base64_code@,
        request.options.data_format@ == "text"@,
{
    OcrRequest {
        base64: String::from_str(base64_code),
        options: OcrOptions { data_format: String::from_str("text") },
    }
}

/// The message for a response whose status is no success, from the status as
/// it is displayed and its reason phrase: the displayed status and then, in
/// brackets, the reason phrase, or a note that it is unknown.
pub fn compose_failure_message(displayed: &str, reason: Option<&str>) -> (message: String)
    ensures
        message@ == failure_text_of(
            displayed@,
            match reason {
                Some(words) => Some(words@),
                None => None,
            },
        ),
{
    let mut message: String = String::from_str("OCR API请求失败: HTTP状态码 ");
    message.append(displayed);
    message.append(" (");
    match reason {
        Some(words) => message.append(words),
        None => message.append("未知错误"),
    }
    message.append(")");
    message
}

/// The message for a response whose status is no success: it names the
/// status as it is displayed and, in brackets, its reason phrase.
pub fn failure_message(status: &HttpStatus) -> (message: String)
    ensures
        message@ == failure_text(status.code()),
{
    let code: u16 = status.as_u16();
    let displayed: String = status_line(code);
    compose_failure_message(displayed.as_str(), canonical_reason(code))
}

/// Judges what became of a request. No response is an error of the kind
/// `Http`; a status outside 200 to 299 is an error of the kind `OcrApi` that
/// names the status; a body that could not be decoded is an error of the kind
/// `Json`; else the decoded body is the result.
pub fn call_ocr_api(reply: ApiReply) -> (outcome: Result<OcrResponse, RsOcrError>)
    ensures
        match reply {
            ApiReply::TransportFailed(words) => outcome == Err::<OcrResponse, RsOcrError>(
                RsOcrError::Http(words),
            ),
            ApiReply::Responded { status, body } => if !status.success() {
                outcome matches Err(RsOcrError::OcrApi(m)) && m@ == failure_text(status.code())
            } else {
                match body {
                    Ok(response) => outcome == Ok::<OcrResponse, RsOcrError>(response),
                    Err(words) => outcome == Err::<OcrResponse, RsOcrError>(
                        RsOcrError::Json(words),
                    ),
                }
            },
        },
{
    match reply {
        ApiReply::TransportFailed(words) => Err(RsOcrError::Http(words)),
        ApiReply::Responded { status, body } => {
            if !status.is_success() {
                Err(RsOcrError::OcrApi(failure_message(&status)))
            } else {
                match body {
                    Ok(response) => Ok(response),
                    Err(words) => Err(RsOcrError::Json(words)),
                }
            }
        },
    }
}

/// The recognised text of a response. A response without text is an error of
/// the kind `OcrApi`.
pub fn extract_text(response: OcrResponse) -> (text: Result<String, RsOcrError>)
    ensures
        match response.data {
            Some(data) => text == Ok::<String, RsOcrError>(data),
            None => text matches Err(RsOcrError::OcrApi(m)) && m@ == empty_result_text(),
        },
{
    match response.data {
        Some(data) => Ok(data),
        None => Err(RsOcrError::OcrApi(String::from_str("OCR API返回空结果"))),
    }
}

/// The first half of one recognition: from what was read of the image file to
/// the call that is to be made at `url`. An error of reading is handed on as
/// it is.
pub fn prepare_request(read: Result<Vec<u8>, String>, url: &str) -> (call: Result<
    ApiCall,
    RsOcrError,
>)
    requires
        read matches Ok(bytes) ==> encodable_len(bytes@.len()),
    ensures
        match read {
            Ok(bytes) => call matches Ok(c) && c.url@ == url@ && c.content_type@
                == "application/json"@ && c.body.base64@ == base64_text(bytes@)
                && c.body.options.data_format@ == "text"@,
            Err(words) => call == Err::<ApiCall, RsOcrError>(RsOcrError::Io(words)),
        },
{
    match image_to_base64(read) {
        Ok(text) => Ok(api_call(text.as_str(), url)),
        Err(e) => Err(e),
    }
}

/// The second half of one recognition: from what became of the request to
/// the recognised text. An error of the request is handed on as it is, and a
/// response without text is an error of the kind `OcrApi`.
pub fn recognize(reply: ApiReply) -> (text: Result<String, RsOcrError>)
    ensures
        match reply {
            ApiReply::TransportFailed(words) => text == Err::<String, RsOcrError>(
                RsOcrError::Http(words),
            ),
            ApiReply::Responded { status, body } => if !status.success() {
                text matches Err(RsOcrError::OcrApi(m)) && m@ == failure_text(status.code())
            } else {
                match body {
                    Err(words) => text == Err::<String, RsOcrError>(RsOcrError::Json(words)),
                    Ok(response) => match response.data {
                        Some(data) => text == Ok::<String, RsOcrError>(data),
                        None => text matches Err(RsOcrError::OcrApi(m)) && m@
                            == empty_result_text(),
                    },
                }
            },
        },
{
    match call_ocr_api(reply) {
        Ok(response) => extract_text(response),
        Err(e) => Err(e),
    }
}

/// The text of the error for a status that is no success holds the number
/// of the status, in decimal.
pub proof fn lemma_failure_names_status(e: RsOcrError, code: u16)
    requires
        e matches RsOcrError::OcrApi(m) && m@ == failure_text(code),
    ensures
        crate::text::contains_text(e.text(), decimal_text(code as nat)),
{
    let number = decimal_text(code as nat);
    let from = (e.heading().len() + "OCR API请求失败: HTTP状态码 "@.len()) as int;
    assert(e.text().subrange(from, from + number.len()) =~= number);
}

} // verus!
