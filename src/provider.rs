//! The two recognition providers: SimpleTex (token, multipart upload) and
//! SiliconFlow (bearer key, chat completions). Request pieces, reply
//! reading and the error taxonomy.
use vstd::prelude::*;
use vstd::string::StrSliceExecFns;
use base64::Engine;
use crate::json::{
    bool_at, bool_member, get_member, member, parse_json, parsed_json, text_at, text_at2,
    text_member, text_member2, Json,
};
use crate::text::{
    after_last, has_prefix, has_sub, join2, lower_of, starts_with, tail_after_last, to_lower, trim,
    trimmed_of,
};

verus! {

pub enum Provider {
    SimpleTex,
    SiliconFlow,
}

/// What can go wrong with a recognition request.
pub enum RecognizeError {
    /// The provider's credential is missing.
    NotConfigured(Provider),
    /// The SimpleTex token is invalid or expired.
    AuthError,
    /// The SimpleTex free quota is used up.
    QuotaExhausted,
    /// The input could not be used (the image is not base64); holds the message.
    ValidationError(String),
    /// The provider answered with a failure; holds the message.
    ProviderError(String),
    /// The request did not reach the provider; holds the message.
    NetworkError(String),
    /// No SiliconFlow model was chosen.
    NoModelSelected,
}

pub const SIMPLETEX_NOT_CONFIGURED: &'static str = "SimpleTex Token 未配置";
pub const SILICONFLOW_NOT_CONFIGURED: &'static str = "请先在设置中配置硅基流动 API Key";
pub const TOKEN_INVALID: &'static str = "SimpleTex Token 无效或已过期";
pub const QUOTA_USED_UP: &'static str = "SimpleTex 额度已用完";
pub const NO_MODEL: &'static str = "未选择模型";
pub const SIMPLETEX_FAILED: &'static str = "SimpleTex 识别失败: ";
pub const SIMPLETEX_HTTP_FAILED: &'static str = "SimpleTex API 错误: ";
pub const BAD_REPLY: &'static str = "解析响应失败: ";
pub const BAD_BASE64: &'static str = "Base64 解码失败: ";
pub const CALL_FAILED: &'static str = "API 调用失败: ";
pub const IMAGE_TOO_SMALL: &'static str = "图片尺寸太小，该模型要求最小 28×28 像素，请使用更大的图片";
pub const CODE_UNAUTHORIZED: &'static str = "req_unauthorized";
pub const CODE_NO_RESOURCE: &'static str = "resource_no_valid";

pub const FORMULA_PROMPT: &'static str = "请识别图片中的数学公式，只返回纯LaTeX代码，不要用markdown代码块包裹，不要加$符号，不要解释。";
pub const OCR_PROMPT: &'static str = "请识别图片中的所有文字内容，保持原始排版格式。只返回识别到的文字，不要解释。";
pub const DOCUMENT_PROMPT: &'static str = "请识别图片中的所有内容（包括文字、公式、表格等），以Markdown格式返回。公式用$...$（行内）或$$...$$（块级）包裹，表格用Markdown表格语法，保持原始排版结构。不要解释。";
pub const VERIFY_PROMPT: &'static str = "请对照图片检查以下LaTeX公式是否正确。如果正确，原样返回该公式；如果有错误，返回修正后的公式。只返回最终的纯LaTeX代码，不要解释。\n\n识别结果：";
pub const PNG_DATA_URL: &'static str = "data:image/png;base64,";

pub open spec fn error_message(e: RecognizeError) -> Seq<char> {
    match e {
        RecognizeError::NotConfigured(Provider::SimpleTex) => SIMPLETEX_NOT_CONFIGURED@,
        RecognizeError::NotConfigured(Provider::SiliconFlow) => SILICONFLOW_NOT_CONFIGURED@,
        RecognizeError::AuthError => TOKEN_INVALID@,
        RecognizeError::QuotaExhausted => QUOTA_USED_UP@,
        RecognizeError::ValidationError(m) => m@,
        RecognizeError::ProviderError(m) => m@,
        RecognizeError::NetworkError(m) => m@,
        RecognizeError::NoModelSelected => NO_MODEL@,
    }
}

impl RecognizeError {
    /// The message shown to the user.
    pub fn message(&self) -> (r: String)
        ensures
            r@ == error_message(*self),
    {
        match self {
            RecognizeError::NotConfigured(Provider::SimpleTex) => String::from_str(SIMPLETEX_NOT_CONFIGURED),
            RecognizeError::NotConfigured(Provider::SiliconFlow) => String::from_str(SILICONFLOW_NOT_CONFIGURED),
            RecognizeError::AuthError => String::from_str(TOKEN_INVALID),
            RecognizeError::QuotaExhausted => String::from_str(QUOTA_USED_UP),
            RecognizeError::ValidationError(m) => m.clone(),
            RecognizeError::ProviderError(m) => m.clone(),
            RecognizeError::NetworkError(m) => m.clone(),
            RecognizeError::NoModelSelected => String::from_str(NO_MODEL),
        }
    }
}

/// The instruction sent with an image in the given mode.
pub open spec fn prompt_for(mode: Seq<char>) -> Seq<char> {
    if mode == "ocr"@ {
        OCR_PROMPT@
    } else if mode == "document"@ {
        DOCUMENT_PROMPT@
    } else {
        FORMULA_PROMPT@
    }
}

pub fn get_prompt(mode: &str) -> (r: &'static str)
    ensures
        r@ == prompt_for(mode@),
{
    if crate::text::same_text(mode, "ocr") {
        OCR_PROMPT
    } else if crate::text::same_text(mode, "document") {
        DOCUMENT_PROMPT
    } else {
        FORMULA_PROMPT
    }
}

/// The image as a data URL: kept when it is one, else read as PNG base64.
pub open spec fn image_url_of(image: Seq<char>) -> Seq<char> {
    if has_prefix(image, "data:"@) { image } else { PNG_DATA_URL@ + image }
}

pub fn image_url(image: &str) -> (r: String)
    ensures
        r@ == image_url_of(image@),
{
    if starts_with(image, "data:") {
        String::from_str(image)
    } else {
        join2(PNG_DATA_URL, image)
    }
}

/// The instruction of the second, checking pass over a formula.
pub fn verify_prompt(primary: &str) -> (r: String)
    ensures
        r@ == VERIFY_PROMPT@ + primary@,
{
    join2(VERIFY_PROMPT, primary)
}

/// The bytes that a base64 text encodes under the standard alphabet, if it is valid.
pub uninterp spec fn base64_decoded(s: Seq<char>) -> Option<Seq<u8>>;

/// Relies on base64's `STANDARD` engine `decode`: the bytes that the text
/// encodes, or an error when it is not valid base64.
#[verifier::external_body]
fn decode_base64(s: &str) -> (r: Result<Vec<u8>, String>)
    ensures
        r is Ok <==> base64_decoded(s@) is Some,
        r is Ok ==> base64_decoded(s@) == Some(r->Ok_0@),
{
    base64::engine::general_purpose::STANDARD.decode(s).map_err(|e| e.to_string())
}

/// The base64 part of an image payload: what follows its last comma.
pub open spec fn payload_of(image: Seq<char>) -> Seq<char> {
    after_last(image, ',')
}

/// Decodes an image payload, with or without a data-URL prefix.
pub fn decode_image(image: &str) -> (r: Result<Vec<u8>, RecognizeError>)
    ensures
        r is Ok <==> base64_decoded(payload_of(image@)) is Some,
        r is Ok ==> base64_decoded(payload_of(image@)) == Some(r->Ok_0@),
        r is Err ==> r->Err_0 is ValidationError && has_prefix(error_message(r->Err_0), BAD_BASE64@),
{
    match decode_base64(tail_after_last(image, ',')) {
        Ok(bytes) => Ok(bytes),
        Err(e) => {
            let msg = join2(BAD_BASE64, e.as_str());
            assert(msg@.subrange(0, BAD_BASE64@.len() as int) =~= BAD_BASE64@);
            Err(RecognizeError::ValidationError(msg))
        },
    }
}

/// The SimpleTex error code: the first string found at `res.errType`,
/// `err_info.err_type` or `errType`.
pub open spec fn simpletex_code(j: Json) -> Option<Seq<char>> {
    let a = text_at2(j, "res"@, "errType"@);
    let b = text_at2(j, "err_info"@, "err_type"@);
    let c = text_at(j, "errType"@);
    if a is Some { a } else if b is Some { b } else { c }
}

/// The error that a SimpleTex failure code stands for.
pub open spec fn code_error(e: RecognizeError, code: Seq<char>) -> bool {
    if code == CODE_UNAUTHORIZED@ {
        e is AuthError
    } else if code == CODE_NO_RESOURCE@ {
        e is QuotaExhausted
    } else {
        e is ProviderError && error_message(e) == SIMPLETEX_FAILED@ + code
    }
}

pub open spec fn first_text(a: Option<Seq<char>>, b: Option<Seq<char>>) -> Seq<char> {
    if a is Some { a->0 } else if b is Some { b->0 } else { seq![] }
}

/// The recognised text of a successful SimpleTex reply: `res.info` when it is
/// a string; its `markdown` or `text` (else its JSON text) when it is an
/// object; else `res.markdown` or `res.latex`.
pub open spec fn simpletex_text(j: Json) -> Seq<char> {
    let res = member(j, "res"@);
    let info = match res { Some(r) => member(r, "info"@), None => None };
    match info {
        Some(Json::Str(s)) => s@,
        Some(Json::Object { fields, text }) => {
            let o = info->0;
            if text_at(o, "markdown"@) is Some || text_at(o, "text"@) is Some {
                first_text(text_at(o, "markdown"@), text_at(o, "text"@))
            } else {
                text@
            }
        },
        _ => match res {
            Some(r) => first_text(text_at(r, "markdown"@), text_at(r, "latex"@)),
            None => seq![],
        },
    }
}

/// The SimpleTex error code of a reply document, if it holds one.
pub fn error_code(j: &Json) -> (r: Option<String>)
    ensures
        crate::json::opt_view(r) == simpletex_code(*j),
{
    if let Some(c) = text_member2(j, "res", "errType") {
        return Some(c);
    }
    if let Some(c) = text_member2(j, "err_info", "err_type") {
        return Some(c);
    }
    text_member(j, "errType")
}

/// The SimpleTex error code of a reply document, or `fallback`.
pub fn code_or(j: &Json, fallback: &str) -> (r: String)
    ensures
        r@ == (if simpletex_code(*j) is Some { simpletex_code(*j)->0 } else { fallback@ }),
{
    match error_code(j) {
        Some(c) => c,
        None => String::from_str(fallback),
    }
}

/// The error for a SimpleTex failure code.
pub fn error_for_code(code: String) -> (r: RecognizeError)
    ensures
        code_error(r, code@),
{
    if crate::text::same_text(code.as_str(), CODE_UNAUTHORIZED) {
        RecognizeError::AuthError
    } else if crate::text::same_text(code.as_str(), CODE_NO_RESOURCE) {
        RecognizeError::QuotaExhausted
    } else {
        RecognizeError::ProviderError(join2(SIMPLETEX_FAILED, code.as_str()))
    }
}

fn first_of(a: Option<String>, b: Option<String>) -> (r: String)
    ensures
        r@ == first_text(crate::json::opt_view(a), crate::json::opt_view(b)),
{
    match a {
        Some(s) => s,
        None => match b {
            Some(s) => s,
            None => String::new(),
        },
    }
}

/// The recognised text of a successful SimpleTex reply.
pub fn simpletex_result_text(j: &Json) -> (r: String)
    ensures
        r@ == simpletex_text(*j),
{
    let res = get_member(j, "res");
    let info = match res {
        Some(r) => get_member(r, "info"),
        None => None,
    };
    match info {
        Some(Json::Str(s)) => s.clone(),
        Some(Json::Object { fields, text }) => {
            let o = info.unwrap();
            let md = text_member(o, "markdown");
            let tx = text_member(o, "text");
            if md.is_some() || tx.is_some() {
                first_of(md, tx)
            } else {
                text.clone()
            }
        },
        _ => match res {
            Some(r) => first_of(text_member(r, "markdown"), text_member(r, "latex")),
            None => String::new(),
        },
    }
}

/// What a SimpleTex reply document says: the text when `status` is true,
/// else the error that its code stands for.
pub fn simpletex_outcome(j: &Json) -> (r: Result<String, RecognizeError>)
    ensures
        bool_at(*j, "status"@) == Some(true) ==> r is Ok && r->Ok_0@ == simpletex_text(*j),
        bool_at(*j, "status"@) != Some(true) ==> r is Err && code_error(
            r->Err_0,
            if simpletex_code(*j) is Some { simpletex_code(*j)->0 } else { "unknown"@ },
        ),
{
    let ok = bool_member(j, "status");
    if ok == Some(true) {
        Ok(simpletex_result_text(j))
    } else {
        Err(error_for_code(code_or(j, "unknown")))
    }
}

/// Error-code law of SimpleTex replies: a failed reply whose code is
/// `req_unauthorized` means an invalid token, whichever of the three places
/// (`res.errType`, `err_info.err_type`, `errType`) holds the code, as long as
/// no earlier place holds another string.
pub proof fn lemma_unauthorized_anywhere(j: Json, e: RecognizeError)
    requires
        bool_at(j, "status"@) != Some(true),
        text_at2(j, "res"@, "errType"@) == Some(CODE_UNAUTHORIZED@)
            || (text_at2(j, "res"@, "errType"@) is None
                && text_at2(j, "err_info"@, "err_type"@) == Some(CODE_UNAUTHORIZED@))
            || (text_at2(j, "res"@, "errType"@) is None
                && text_at2(j, "err_info"@, "err_type"@) is None
                && text_at(j, "errType"@) == Some(CODE_UNAUTHORIZED@)),
        code_error(e, if simpletex_code(j) is Some { simpletex_code(j)->0 } else { "unknown"@ }),
    ensures
        e is AuthError,
        error_message(e) == TOKEN_INVALID@,
{
}

/// Reads a SimpleTex reply: the HTTP outcome, then the JSON document.
pub fn read_simpletex_reply(http_ok: bool, status_line: &str, body: &str) -> (r: Result<String, RecognizeError>)
    ensures
        !http_ok ==> r is Err && r->Err_0 is ProviderError
            && error_message(r->Err_0) == SIMPLETEX_HTTP_FAILED@ + status_line@,
        http_ok && parsed_json(body@) is None ==> r is Err && r->Err_0 is ProviderError,
        http_ok && parsed_json(body@) is Some ==> ({
            let j = parsed_json(body@)->0;
            &&& bool_at(j, "status"@) == Some(true) ==> r is Ok && r->Ok_0@ == simpletex_text(j)
            &&& bool_at(j, "status"@) != Some(true) ==> r is Err && code_error(
                r->Err_0,
                if simpletex_code(j) is Some { simpletex_code(j)->0 } else { "unknown"@ },
            )
        }),
{
    if !http_ok {
        return Err(RecognizeError::ProviderError(join2(SIMPLETEX_HTTP_FAILED, status_line)));
    }
    match parse_json(body) {
        Ok(j) => simpletex_outcome(&j),
        Err(e) => Err(RecognizeError::ProviderError(join2(BAD_REPLY, e.as_str()))),
    }
}

pub open spec fn digit_char(d: nat) -> char {
    if d == 0 { '0' } else if d == 1 { '1' } else if d == 2 { '2' } else if d == 3 { '3' }
    else if d == 4 { '4' } else if d == 5 { '5' } else if d == 6 { '6' } else if d == 7 { '7' }
    else if d == 8 { '8' } else { '9' }
}

/// The decimal digits of `n`.
pub open spec fn decimal(n: nat) -> Seq<char>
    decreases n,
{
    if n < 10 { seq![digit_char(n)] } else { decimal(n / 10).push(digit_char(n % 10)) }
}

/// Relies on `u16`'s `to_string`: its decimal digits.
#[verifier::external_body]
pub(crate) fn decimal_text(n: u16) -> (r: String)
    ensures
        r@ == decimal(n as nat),
{
    n.to_string()
}

/// A lower-cased provider message that complains about too small an image.
pub open spec fn names_min_size(lowered: Seq<char>) -> bool {
    has_sub(lowered, "height"@) && has_sub(lowered, "width"@) && has_sub(lowered, "must be larger"@)
}

/// The user message for a provider message, given its lower-case form.
pub fn message_for(msg: &str, lowered: &str) -> (r: String)
    ensures
        r@ == (if names_min_size(lowered@) { IMAGE_TOO_SMALL@ } else { msg@ }),
{
    if crate::text::contains(lowered, "height") && crate::text::contains(lowered, "width")
        && crate::text::contains(lowered, "must be larger") {
        String::from_str(IMAGE_TOO_SMALL)
    } else {
        String::from_str(msg)
    }
}

/// The message of a SiliconFlow error document: `message`, else `error.message`.
pub open spec fn sf_message(j: Json) -> Seq<char> {
    first_text(text_at(j, "message"@), text_at2(j, "error"@, "message"@))
}

/// The message shown for a SiliconFlow reply with a failing HTTP status.
pub open spec fn sf_error_text(status: u16, body: Seq<char>) -> Seq<char> {
    let p = parsed_json(body);
    if p is Some && sf_message(p->0).len() > 0 {
        let m = sf_message(p->0);
        if names_min_size(lower_of(m)) { IMAGE_TOO_SMALL@ } else { m }
    } else {
        CALL_FAILED@ + decimal(status as nat)
    }
}

pub fn sf_error_message(status: u16, body: &str) -> (r: String)
    ensures
        r@ == sf_error_text(status, body@),
{
    if let Ok(j) = parse_json(body) {
        let msg = first_of(text_member(&j, "message"), text_member2(&j, "error", "message"));
        if msg.unicode_len() > 0 {
            let lowered = to_lower(msg.as_str());
            return message_for(msg.as_str(), lowered.as_str());
        }
    }
    join2(CALL_FAILED, decimal_text(status).as_str())
}

/// The content of the first choice of a chat reply.
pub open spec fn chat_content(j: Json) -> Option<Seq<char>> {
    match member(j, "choices"@) {
        Some(Json::Array(items)) => if items@.len() > 0 {
            match member(items@[0], "message"@) {
                Some(m) => text_at(m, "content"@),
                None => None,
            }
        } else {
            None
        },
        _ => None,
    }
}

/// The trimmed text of a chat reply document (empty when it holds none).
pub open spec fn chat_text(j: Json) -> Seq<char> {
    trimmed_of(if chat_content(j) is Some { chat_content(j)->0 } else { seq![] })
}

pub fn chat_reply_text(j: &Json) -> (r: String)
    ensures
        r@ == chat_text(*j),
{
    let choices = get_member(j, "choices");
    let content: Option<String> = match choices {
        Some(Json::Array(items)) => {
            assert(member(*j, "choices"@) == Some(Json::Array(*items)));
            if items.len() > 0 {
                match get_member(&items[0], "message") {
                    Some(m) => text_member(m, "content"),
                    None => None,
                }
            } else {
                None
            }
        },
        _ => None,
    };
    assert(crate::json::opt_view(content) == chat_content(*j));
    match content {
        Some(c) => {
            assert(chat_content(*j) == Some(c@));
            trim(c.as_str())
        },
        None => {
            let empty = "";
            proof {
                reveal_strlit("");
            }
            assert(empty@ =~= Seq::<char>::empty());
            trim(empty)
        },
    }
}

/// Reads the body of a successful chat reply: its trimmed text, or an error
/// when it is not JSON.
pub fn read_chat_reply(body: &str) -> (r: Result<String, RecognizeError>)
    ensures
        parsed_json(body@) is Some ==> r is Ok && r->Ok_0@ == chat_text(parsed_json(body@)->0),
        parsed_json(body@) is None ==> r is Err && r->Err_0 is ProviderError,
{
    match parse_json(body) {
        Ok(j) => Ok(chat_reply_text(&j)),
        Err(e) => Err(RecognizeError::ProviderError(join2(BAD_REPLY, e.as_str()))),
    }
}

} // verus!
