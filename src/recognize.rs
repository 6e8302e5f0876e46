//! The recognition protocol. `plan_recognition` resolves the model and
//! builds the first request; the caller performs each request and hands
//! the outcome to the next step (`finish_simpletex`, `after_primary`,
//! `after_verification`), which decides what comes next.
use vstd::prelude::*;
use vstd::string::StrSliceExecFns;
use crate::json::parsed_json;
use crate::provider::{
    base64_decoded, chat_text, code_error, decode_image, error_message, get_prompt, image_url,
    image_url_of, payload_of, prompt_for, read_chat_reply, read_simpletex_reply, sf_error_message,
    sf_error_text, simpletex_code, simpletex_text, verify_prompt, Provider, RecognizeError,
    VERIFY_PROMPT,
};
use crate::usage::{after_use, UsageRecord};
use crate::text::{collapse_whitespace, collapsed_of, join2, join3, same_text};

verus! {

pub const SIMPLETEX: &'static str = "simpletex";
pub const SILICONFLOW: &'static str = "siliconflow";
pub const DEFAULT_SIMPLETEX_MODEL: &'static str = "latex_ocr";
pub const GENERAL_SIMPLETEX_MODEL: &'static str = "simpletex_ocr";
pub const REQUEST_FAILED: &'static str = "请求失败: ";
pub const SIMPLETEX_REQUEST_FAILED: &'static str = "SimpleTex 请求失败: ";

/// The result handed back to the user.
pub struct RecognizeResponse {
    pub text: String,
    pub model: String,
    pub verified: Option<bool>,
    pub corrected: Option<bool>,
    pub original_text: Option<String>,
}

pub struct ResponseView {
    pub text: Seq<char>,
    pub model: Seq<char>,
    pub verified: Option<bool>,
    pub corrected: Option<bool>,
    pub original_text: Option<Seq<char>>,
}

impl View for RecognizeResponse {
    type V = ResponseView;

    open spec fn view(&self) -> ResponseView {
        ResponseView {
            text: self.text@,
            model: self.model@,
            verified: self.verified,
            corrected: self.corrected,
            original_text: crate::json::opt_view(self.original_text),
        }
    }
}

/// How a model selector was resolved.
pub enum Selection {
    /// `provider:model`, split at the first colon.
    Explicit { provider: String, model: String },
    /// No colon, a SimpleTex token and formula mode: SimpleTex's standard model.
    FallbackSimpleTex,
    /// No colon otherwise: SiliconFlow with no model.
    FallbackSiliconFlow,
}

/// Position of the first colon at or after `i`, or -1.
pub open spec fn colon_from(s: Seq<char>, i: int) -> int
    decreases s.len() - i,
{
    if i < 0 || i >= s.len() {
        -1
    } else if s[i] == ':' {
        i
    } else {
        colon_from(s, i + 1)
    }
}

pub open spec fn colon_index(s: Seq<char>) -> int {
    colon_from(s, 0)
}

/// The provider and model that a selector resolves to.
pub open spec fn resolved(selector: Seq<char>, mode: Seq<char>, has_token: bool) -> (Seq<char>, Seq<char>) {
    let c = colon_index(selector);
    if c >= 0 {
        (selector.take(c), selector.skip(c + 1))
    } else if has_token && mode == "formula"@ {
        (SIMPLETEX@, DEFAULT_SIMPLETEX_MODEL@)
    } else {
        (SILICONFLOW@, seq![])
    }
}

/// Resolves a model selector: `provider:model`, or a fallback.
pub fn resolve_selector(selector: &str, mode: &str, has_token: bool) -> (r: Selection)
    ensures
        colon_index(selector@) >= 0 ==> (r matches Selection::Explicit { provider, model }
            && provider@ == resolved(selector@, mode@, has_token).0
            && model@ == resolved(selector@, mode@, has_token).1),
        colon_index(selector@) < 0 && has_token && mode@ == "formula"@ ==> r is FallbackSimpleTex,
        colon_index(selector@) < 0 && !(has_token && mode@ == "formula"@) ==> r is FallbackSiliconFlow,
{
    let n = selector.unicode_len();
    let mut i: usize = 0;
    while i < n && selector.get_char(i) != ':'
        invariant
            n == selector@.len(),
            i <= n,
            colon_from(selector@, 0) == colon_from(selector@, i as int),
        decreases n - i,
    {
        i = i + 1;
    }
    if i < n {
        Selection::Explicit {
            provider: String::from_str(selector.substring_char(0, i)),
            model: String::from_str(selector.substring_char(i + 1, n)),
        }
    } else if has_token && same_text(mode, "formula") {
        Selection::FallbackSimpleTex
    } else {
        Selection::FallbackSiliconFlow
    }
}

/// A chat request: the model, the image as a data URL, and the instruction.
pub struct ChatRequest {
    pub model: String,
    pub image_url: String,
    pub prompt: String,
}

/// The first request of a recognition.
pub enum Plan {
    /// Upload to SimpleTex with an optional `rec_mode` field.
    SimpleTex { model: String, rec_mode: Option<String>, image: Vec<u8> },
    /// Ask SiliconFlow.
    SiliconFlow(ChatRequest),
}

/// Which way a recognition request goes before anything is sent.
pub enum Route {
    SimpleTexNotConfigured,
    BadImage,
    SimpleTex,
    NoModel,
    SiliconFlowNotConfigured,
    SiliconFlow,
}

pub open spec fn route(image: Seq<char>, mode: Seq<char>, selector: Seq<char>, token: Seq<char>, key: Seq<char>) -> Route {
    let (provider, model) = resolved(selector, mode, token.len() > 0);
    if provider == SIMPLETEX@ {
        if token.len() == 0 {
            Route::SimpleTexNotConfigured
        } else if base64_decoded(payload_of(image)) is None {
            Route::BadImage
        } else {
            Route::SimpleTex
        }
    } else if model.len() == 0 {
        Route::NoModel
    } else if key.len() == 0 {
        Route::SiliconFlowNotConfigured
    } else {
        Route::SiliconFlow
    }
}

/// The `rec_mode` sent with an upload: only the general model takes one.
pub open spec fn rec_mode_for(model: Seq<char>, mode: Seq<char>) -> Option<Seq<char>> {
    if model == GENERAL_SIMPLETEX_MODEL@ {
        Some(if mode == "formula"@ { "formula"@ } else { "document"@ })
    } else {
        None
    }
}

/// Resolves the model and builds the first request, or fails before sending.
pub fn plan_recognition(image: &str, mode: &str, selector: &str, token: &str, key: &str) -> (r: Result<Plan, RecognizeError>)
    ensures
        ({
            let (provider, model) = resolved(selector@, mode@, token@.len() > 0);
            match route(image@, mode@, selector@, token@, key@) {
                Route::SimpleTexNotConfigured => r == Err::<Plan, RecognizeError>(RecognizeError::NotConfigured(Provider::SimpleTex)),
                Route::BadImage => r is Err && r->Err_0 is ValidationError
                    && crate::text::has_prefix(error_message(r->Err_0), crate::provider::BAD_BASE64@),
                Route::SimpleTex => r matches Ok(Plan::SimpleTex { model: m, rec_mode, image: bytes })
                    && m@ == model
                    && crate::json::opt_view(rec_mode) == rec_mode_for(model, mode@)
                    && base64_decoded(payload_of(image@)) == Some(bytes@),
                Route::NoModel => r == Err::<Plan, RecognizeError>(RecognizeError::NoModelSelected),
                Route::SiliconFlowNotConfigured => r == Err::<Plan, RecognizeError>(RecognizeError::NotConfigured(Provider::SiliconFlow)),
                Route::SiliconFlow => r matches Ok(Plan::SiliconFlow(req))
                    && req.model@ == model
                    && req.image_url@ == image_url_of(image@)
                    && req.prompt@ == prompt_for(mode@),
            }
        }),
{
    let has_token = token.unicode_len() > 0;
    let (provider, model) = match resolve_selector(selector, mode, has_token) {
        Selection::Explicit { provider, model } => (provider, model),
        Selection::FallbackSimpleTex => (String::from_str(SIMPLETEX), String::from_str(DEFAULT_SIMPLETEX_MODEL)),
        Selection::FallbackSiliconFlow => (String::from_str(SILICONFLOW), String::new()),
    };
    if same_text(provider.as_str(), SIMPLETEX) {
        if !has_token {
            return Err(RecognizeError::NotConfigured(Provider::SimpleTex));
        }
        let rec_mode = if same_text(model.as_str(), GENERAL_SIMPLETEX_MODEL) {
            if same_text(mode, "formula") {
                Some(String::from_str("formula"))
            } else {
                Some(String::from_str("document"))
            }
        } else {
            None
        };
        return match decode_image(image) {
            Ok(bytes) => Ok(Plan::SimpleTex { model, rec_mode, image: bytes }),
            Err(e) => Err(e),
        };
    }
    if model.unicode_len() == 0 {
        return Err(RecognizeError::NoModelSelected);
    }
    if key.unicode_len() == 0 {
        return Err(RecognizeError::NotConfigured(Provider::SiliconFlow));
    }
    let prompt = String::from_str(get_prompt(mode));
    Ok(Plan::SiliconFlow(ChatRequest { model, image_url: image_url(image), prompt }))
}

/// Fallback law: a selector without a colon, in a mode other than formula or
/// without a SimpleTex token, names no SiliconFlow model, so the request
/// fails with `NoModelSelected`.
pub proof fn lemma_no_model_selected(image: Seq<char>, mode: Seq<char>, selector: Seq<char>, token: Seq<char>, key: Seq<char>)
    requires
        colon_index(selector) < 0,
        mode != "formula"@ || token.len() == 0,
    ensures
        route(image, mode, selector, token, key) == Route::NoModel,
{
    assert(SILICONFLOW@ != SIMPLETEX@) by {
        reveal_strlit("siliconflow");
        reveal_strlit("simpletex");
        assert(SILICONFLOW@.len() != SIMPLETEX@.len());
    }
}

pub const ST_STANDARD_NAME: &'static str = "SimpleTex 标准模型";
pub const ST_TURBO_NAME: &'static str = "SimpleTex 轻量模型";
pub const ST_GENERAL_NAME: &'static str = "SimpleTex 通用识别";

/// Display name of a SimpleTex model id; an unknown id stands for itself.
pub open spec fn simpletex_name(id: Seq<char>) -> Seq<char> {
    if id == "latex_ocr"@ {
        ST_STANDARD_NAME@
    } else if id == "latex_ocr_turbo"@ {
        ST_TURBO_NAME@
    } else if id == "simpletex_ocr"@ {
        ST_GENERAL_NAME@
    } else {
        id
    }
}

pub fn simpletex_model_name(id: &str) -> (r: String)
    ensures
        r@ == simpletex_name(id@),
{
    if same_text(id, "latex_ocr") {
        String::from_str(ST_STANDARD_NAME)
    } else if same_text(id, "latex_ocr_turbo") {
        String::from_str(ST_TURBO_NAME)
    } else if same_text(id, "simpletex_ocr") {
        String::from_str(ST_GENERAL_NAME)
    } else {
        String::from_str(id)
    }
}

/// What came back from one request to a provider.
pub enum ReplyEvent {
    /// The request did not reach the provider; holds the transport's message.
    Unreachable(String),
    /// The provider answered with this HTTP status and body.
    Answered { http_ok: bool, status: u16, status_line: String, body: String },
}

/// The label of a SimpleTex result.
pub open spec fn simpletex_label(model: Seq<char>) -> Seq<char> {
    "SimpleTex ("@ + simpletex_name(model) + ")"@
}

/// The outcome of a SimpleTex upload. A success counts one use of `model`
/// on `today` in `usage`; a failure leaves `usage` as it was.
pub fn finish_simpletex(model: &str, event: ReplyEvent, usage: &mut UsageRecord, today: &str) -> (r: Result<RecognizeResponse, RecognizeError>)
    ensures
        r is Ok ==> final(usage)@ == after_use(old(usage)@, today@, model@),
        r is Err ==> final(usage)@ == old(usage)@,
        event matches ReplyEvent::Unreachable(e) ==> r is Err && r->Err_0 is NetworkError
            && error_message(r->Err_0) == SIMPLETEX_REQUEST_FAILED@ + e@,
        event matches ReplyEvent::Answered { http_ok, status_line, body, .. } ==> ({
            &&& !http_ok ==> r is Err && r->Err_0 is ProviderError
                && error_message(r->Err_0) == crate::provider::SIMPLETEX_HTTP_FAILED@ + status_line@
            &&& http_ok && parsed_json(body@) is None ==> r is Err && r->Err_0 is ProviderError
            &&& http_ok && parsed_json(body@) is Some ==> ({
                let j = parsed_json(body@)->0;
                &&& crate::json::bool_at(j, "status"@) == Some(true) ==> r is Ok && r->Ok_0@ == (ResponseView {
                    text: simpletex_text(j),
                    model: simpletex_label(model@),
                    verified: None,
                    corrected: None,
                    original_text: None,
                })
                &&& crate::json::bool_at(j, "status"@) != Some(true) ==> r is Err && code_error(
                    r->Err_0,
                    if simpletex_code(j) is Some { simpletex_code(j)->0 } else { "unknown"@ },
                )
            })
        }),
{
    match event {
        ReplyEvent::Unreachable(e) => Err(RecognizeError::NetworkError(join2(SIMPLETEX_REQUEST_FAILED, e.as_str()))),
        ReplyEvent::Answered { http_ok, status_line, body, .. } => {
            let text = match read_simpletex_reply(http_ok, status_line.as_str(), body.as_str()) {
                Ok(t) => t,
                Err(e) => return Err(e),
            };
            usage.increment(today, model);
            let name = simpletex_model_name(model);
            Ok(RecognizeResponse {
                text,
                model: join3("SimpleTex (", name.as_str(), ")"),
                verified: None,
                corrected: None,
                original_text: None,
            })
        },
    }
}

/// What to do after the first chat reply.
pub enum Step {
    /// The recognition is over.
    Done(Result<RecognizeResponse, RecognizeError>),
    /// Send the checking request; `primary` is the first pass's text.
    Verify { request: ChatRequest, primary: String },
}

/// The result that returns the first pass's text unchecked.
pub open spec fn unchecked(text: Seq<char>, model: Seq<char>, verified: Option<bool>) -> ResponseView {
    ResponseView { text, model, verified, corrected: None, original_text: None }
}

/// The outcome of the first chat request of a recognition.
pub fn after_primary(mode: &str, request: ChatRequest, event: ReplyEvent) -> (r: Step)
    ensures
        event matches ReplyEvent::Unreachable(e) ==> (r matches Step::Done(Err(RecognizeError::NetworkError(m)))
            && m@ == REQUEST_FAILED@ + e@),
        event matches ReplyEvent::Answered { http_ok, status, body, .. } ==> ({
            &&& !http_ok ==> (r matches Step::Done(Err(RecognizeError::ProviderError(m)))
                && m@ == sf_error_text(status, body@))
            &&& http_ok && parsed_json(body@) is None ==> (r matches Step::Done(Err(e)) && e is ProviderError)
            &&& http_ok && parsed_json(body@) is Some ==> ({
                let t = chat_text(parsed_json(body@)->0);
                &&& t.len() == 0 ==> (r matches Step::Done(Ok(resp))
                    && resp@ == unchecked(t, request.model@, Some(false)))
                &&& t.len() > 0 && mode@ == "formula"@ ==> (r matches Step::Verify { request: next, primary }
                    && primary@ == t
                    && next.model@ == request.model@
                    && next.image_url@ == request.image_url@
                    && next.prompt@ == VERIFY_PROMPT@ + t)
                &&& t.len() > 0 && mode@ != "formula"@ ==> (r matches Step::Done(Ok(resp))
                    && resp@ == unchecked(t, request.model@, None))
            })
        }),
{
    match event {
        ReplyEvent::Unreachable(e) => Step::Done(Err(RecognizeError::NetworkError(join2(REQUEST_FAILED, e.as_str())))),
        ReplyEvent::Answered { http_ok, status, body, .. } => {
            if !http_ok {
                return Step::Done(Err(RecognizeError::ProviderError(sf_error_message(status, body.as_str()))));
            }
            let text = match read_chat_reply(body.as_str()) {
                Ok(t) => t,
                Err(e) => return Step::Done(Err(e)),
            };
            if text.unicode_len() == 0 {
                return Step::Done(Ok(RecognizeResponse {
                    text,
                    model: request.model,
                    verified: Some(false),
                    corrected: None,
                    original_text: None,
                }));
            }
            if same_text(mode, "formula") {
                let prompt = verify_prompt(text.as_str());
                let next = ChatRequest { model: request.model, image_url: request.image_url, prompt };
                Step::Verify { request: next, primary: text }
            } else {
                Step::Done(Ok(RecognizeResponse {
                    text,
                    model: request.model,
                    verified: None,
                    corrected: None,
                    original_text: None,
                }))
            }
        },
    }
}

/// The result of a checked formula: the first pass's text when the two
/// passes agree up to white space, else the second pass's text with the first kept.
pub open spec fn reconciled(model: Seq<char>, primary: Seq<char>, secondary: Seq<char>, same: bool) -> ResponseView {
    if same {
        ResponseView { text: primary, model, verified: Some(true), corrected: Some(false), original_text: None }
    } else {
        ResponseView { text: secondary, model, verified: Some(false), corrected: Some(true), original_text: Some(primary) }
    }
}

/// Reconciles two passes given their white-space-collapsed forms.
pub fn reconcile(model: String, primary: String, secondary: String, collapsed_primary: &str, collapsed_secondary: &str) -> (r: RecognizeResponse)
    ensures
        r@ == reconciled(model@, primary@, secondary@, collapsed_primary@ == collapsed_secondary@),
{
    if same_text(collapsed_primary, collapsed_secondary) {
        RecognizeResponse { text: primary, model, verified: Some(true), corrected: Some(false), original_text: None }
    } else {
        RecognizeResponse { text: secondary, model, verified: Some(false), corrected: Some(true), original_text: Some(primary) }
    }
}

/// Reconciles the two passes of a formula.
pub fn finish_verification(model: String, primary: String, secondary: String) -> (r: RecognizeResponse)
    ensures
        r@ == reconciled(model@, primary@, secondary@, collapsed_of(primary@) == collapsed_of(secondary@)),
{
    let n1 = collapse_whitespace(primary.as_str());
    let n2 = collapse_whitespace(secondary.as_str());
    reconcile(model, primary, secondary, n1.as_str(), n2.as_str())
}

/// The outcome of the checking request. Any failure of it leaves the first
/// pass's text, unverified.
pub fn after_verification(model: String, primary: String, event: ReplyEvent) -> (r: RecognizeResponse)
    ensures
        ({
            let checked = event matches ReplyEvent::Answered { http_ok, body, .. } && http_ok
                && parsed_json(body@) is Some && chat_text(parsed_json(body@)->0).len() > 0;
            &&& !checked ==> r@ == unchecked(primary@, model@, Some(false))
            &&& checked ==> (event matches ReplyEvent::Answered { body, .. } && ({
                let s = chat_text(parsed_json(body@)->0);
                r@ == reconciled(model@, primary@, s, collapsed_of(primary@) == collapsed_of(s))
            }))
        }),
{
    if let ReplyEvent::Answered { http_ok, body, .. } = event {
        if http_ok {
            if let Ok(secondary) = read_chat_reply(body.as_str()) {
                if secondary.unicode_len() > 0 {
                    return finish_verification(model, primary, secondary);
                }
            }
        }
    }
    RecognizeResponse { text: primary, model, verified: Some(false), corrected: None, original_text: None }
}

} // verus!
