use texsnap::provider::{
    decode_image, get_prompt, image_url, read_chat_reply, read_simpletex_reply, sf_error_message,
    RecognizeError, DOCUMENT_PROMPT, FORMULA_PROMPT, IMAGE_TOO_SMALL, OCR_PROMPT, VERIFY_PROMPT,
};
use texsnap::text::{collapse_whitespace, join_words};
use texsnap::usage::UsageRecord;
use texsnap::recognize::{
    after_primary, after_verification, finish_simpletex, finish_verification, plan_recognition,
    reconcile, resolve_selector, ChatRequest, Plan, ReplyEvent, Selection, Step,
};

fn answered(ok: bool, status: u16, body: &str) -> ReplyEvent {
    ReplyEvent::Answered { http_ok: ok, status, status_line: format!("{}", status), body: body.to_string() }
}

fn request() -> ChatRequest {
    ChatRequest { model: "Qwen/Qwen2-VL-7B-Instruct".into(), image_url: "data:image/png;base64,AAAA".into(), prompt: "p".into() }
}

#[test]
fn whitespace_runs_do_not_count_as_a_correction() {
    let r = finish_verification("m".into(), "x^2 + 1".into(), "x^2  +\n 1".into());
    assert_eq!(r.verified, Some(true));
    assert_eq!(r.corrected, Some(false));
    assert_eq!(r.text, "x^2 + 1");
    assert!(r.original_text.is_none());
}

#[test]
fn added_spaces_count_as_a_correction() {
    let r = finish_verification("m".into(), "x^2+1".into(), "x^2 +  1".into());
    assert_eq!(r.verified, Some(false));
    assert_eq!(r.corrected, Some(true));
    assert_eq!(r.text, "x^2 +  1");
    assert_eq!(r.original_text.as_deref(), Some("x^2+1"));
}

#[test]
fn differing_formula_is_corrected() {
    let r = finish_verification("m".into(), "x^2+1".into(), "x^2+2".into());
    assert_eq!(r.verified, Some(false));
    assert_eq!(r.corrected, Some(true));
    assert_eq!(r.text, "x^2+2");
    assert_eq!(r.original_text.as_deref(), Some("x^2+1"));
    assert_eq!(r.model, "m");
}

#[test]
fn reconcile_uses_given_collapsed_forms() {
    let same = reconcile("m".into(), "a".into(), "b".into(), "k", "k");
    assert_eq!(same.text, "a");
    assert_eq!(same.verified, Some(true));
    let differ = reconcile("m".into(), "a".into(), "a".into(), "k", "j");
    assert_eq!(differ.corrected, Some(true));
}

#[test]
fn no_model_selected_without_colon() {
    let r = plan_recognition("AAAA", "ocr", "Qwen2-VL", "", "sk-1");
    assert!(matches!(r, Err(RecognizeError::NoModelSelected)));
    let r = plan_recognition("AAAA", "document", "x", "tok", "sk-1");
    assert!(matches!(r, Err(RecognizeError::NoModelSelected)));
    let r = plan_recognition("AAAA", "formula", "x", "", "");
    assert!(matches!(r, Err(RecognizeError::NoModelSelected)));
    assert_eq!(RecognizeError::NoModelSelected.message(), "未选择模型");
}

#[test]
fn fallback_to_simpletex_for_formulas_with_token() {
    let r = plan_recognition("data:image/png;base64,aGk=", "formula", "auto", "tok", "");
    match r {
        Ok(Plan::SimpleTex { model, rec_mode, image }) => {
            assert_eq!(model, "latex_ocr");
            assert!(rec_mode.is_none());
            assert_eq!(image, b"hi".to_vec());
        }
        _ => panic!("expected a SimpleTex plan"),
    }
}

#[test]
fn selector_splits_at_first_colon() {
    match resolve_selector("siliconflow:a:b", "ocr", false) {
        Selection::Explicit { provider, model } => {
            assert_eq!(provider, "siliconflow");
            assert_eq!(model, "a:b");
        }
        _ => panic!("expected an explicit selection"),
    }
    assert!(matches!(resolve_selector("x", "formula", true), Selection::FallbackSimpleTex));
    assert!(matches!(resolve_selector("x", "formula", false), Selection::FallbackSiliconFlow));
}

#[test]
fn general_model_gets_rec_mode() {
    match plan_recognition("aGk=", "ocr", "simpletex:simpletex_ocr", "tok", "") {
        Ok(Plan::SimpleTex { rec_mode, .. }) => assert_eq!(rec_mode.as_deref(), Some("document")),
        _ => panic!("expected a SimpleTex plan"),
    }
    match plan_recognition("aGk=", "formula", "simpletex:simpletex_ocr", "tok", "") {
        Ok(Plan::SimpleTex { rec_mode, .. }) => assert_eq!(rec_mode.as_deref(), Some("formula")),
        _ => panic!("expected a SimpleTex plan"),
    }
}

#[test]
fn missing_credentials_are_reported() {
    let r = plan_recognition("aGk=", "formula", "simpletex:latex_ocr", "", "sk");
    match r {
        Err(e) => assert_eq!(e.message(), "SimpleTex Token 未配置"),
        _ => panic!("expected an error"),
    }
    let r = plan_recognition("aGk=", "formula", "siliconflow:m", "tok", "");
    match r {
        Err(e) => assert_eq!(e.message(), "请先在设置中配置硅基流动 API Key"),
        _ => panic!("expected an error"),
    }
}

#[test]
fn bad_base64_is_a_validation_error() {
    let r = plan_recognition("data:image/png;base64,@@@", "formula", "simpletex:latex_ocr", "tok", "");
    match r {
        Err(RecognizeError::ValidationError(m)) => assert!(m.starts_with("Base64 解码失败: ")),
        _ => panic!("expected a validation error"),
    }
    assert!(decode_image("aGk=").is_ok());
}

#[test]
fn siliconflow_plan_builds_request() {
    match plan_recognition("AAAA", "document", "siliconflow:Qwen/Qwen2-VL-7B-Instruct", "", "sk") {
        Ok(Plan::SiliconFlow(req)) => {
            assert_eq!(req.model, "Qwen/Qwen2-VL-7B-Instruct");
            assert_eq!(req.image_url, "data:image/png;base64,AAAA");
            assert_eq!(req.prompt, DOCUMENT_PROMPT);
        }
        _ => panic!("expected a SiliconFlow plan"),
    }
}

#[test]
fn prompts_by_mode() {
    assert_eq!(get_prompt("formula"), FORMULA_PROMPT);
    assert_eq!(get_prompt("ocr"), OCR_PROMPT);
    assert_eq!(get_prompt("document"), DOCUMENT_PROMPT);
    assert_eq!(get_prompt("other"), FORMULA_PROMPT);
}

#[test]
fn image_urls() {
    assert_eq!(image_url("data:image/jpeg;base64,xx"), "data:image/jpeg;base64,xx");
    assert_eq!(image_url("xx"), "data:image/png;base64,xx");
}

#[test]
fn unauthorized_code_in_each_place_is_auth_error() {
    let bodies = [
        r#"{"status":false,"res":{"errType":"req_unauthorized"}}"#,
        r#"{"status":false,"err_info":{"err_type":"req_unauthorized"}}"#,
        r#"{"status":false,"errType":"req_unauthorized"}"#,
    ];
    for body in bodies {
        let r = read_simpletex_reply(true, "200 OK", body);
        match r {
            Err(e) => {
                assert!(matches!(e, RecognizeError::AuthError));
                assert_eq!(e.message(), "SimpleTex Token 无效或已过期");
            }
            Ok(_) => panic!("expected an error"),
        }
    }
}

#[test]
fn simpletex_quota_and_other_codes() {
    let r = read_simpletex_reply(true, "200 OK", r#"{"status":false,"errType":"resource_no_valid"}"#);
    assert!(matches!(r, Err(RecognizeError::QuotaExhausted)));
    let r = read_simpletex_reply(true, "200 OK", r#"{"status":false,"res":{"errType":"img_bad"},"errType":"req_unauthorized"}"#);
    match r {
        Err(e) => assert_eq!(e.message(), "SimpleTex 识别失败: img_bad"),
        _ => panic!("expected an error"),
    }
    let r = read_simpletex_reply(true, "200 OK", r#"{"status":false}"#);
    match r {
        Err(e) => assert_eq!(e.message(), "SimpleTex 识别失败: unknown"),
        _ => panic!("expected an error"),
    }
    let r = read_simpletex_reply(false, "500 Internal Server Error", "");
    match r {
        Err(e) => assert_eq!(e.message(), "SimpleTex API 错误: 500 Internal Server Error"),
        _ => panic!("expected an error"),
    }
    assert!(matches!(read_simpletex_reply(true, "200 OK", "nope"), Err(RecognizeError::ProviderError(_))));
}

#[test]
fn simpletex_text_shapes() {
    let get = |b: &str| read_simpletex_reply(true, "200 OK", b).ok().unwrap();
    assert_eq!(get(r#"{"status":true,"res":{"info":"a+b","conf":0.9}}"#), "a+b");
    assert_eq!(get(r#"{"status":true,"res":{"info":{"markdown":"md","text":"t"}}}"#), "md");
    assert_eq!(get(r#"{"status":true,"res":{"info":{"text":"t"}}}"#), "t");
    assert_eq!(get(r#"{"status":true,"res":{"info":{"k":1}}}"#), r#"{"k":1}"#);
    assert_eq!(get(r#"{"status":true,"res":{"latex":"\\alpha"}}"#), "\\alpha");
    assert_eq!(get(r#"{"status":true,"res":{"markdown":"m","latex":"l"}}"#), "m");
    assert_eq!(get(r#"{"status":true}"#), "");
}

#[test]
fn simpletex_result_label() {
    let mut usage = UsageRecord::empty();
    let ev = answered(true, 200, r#"{"status":true,"res":{"info":"x"}}"#);
    let r = finish_simpletex("latex_ocr_turbo", ev, &mut usage, "2024-01-01").ok().unwrap();
    assert_eq!(usage.usage_today("2024-01-01", "latex_ocr_turbo"), 1);
    assert_eq!(r.text, "x");
    assert_eq!(r.model, "SimpleTex (SimpleTex 轻量模型)");
    assert!(r.verified.is_none() && r.corrected.is_none() && r.original_text.is_none());
    let ev = answered(true, 200, r#"{"status":true,"res":{"info":"x"}}"#);
    assert_eq!(finish_simpletex("custom", ev, &mut usage, "2024-01-01").ok().unwrap().model, "SimpleTex (custom)");
    match finish_simpletex("latex_ocr", ReplyEvent::Unreachable("timed out".into()), &mut usage, "2024-01-01") {
        Err(e) => assert_eq!(e.message(), "SimpleTex 请求失败: timed out"),
        _ => panic!("expected an error"),
    }
    let ev = answered(true, 200, r#"{"status":false,"errType":"req_unauthorized"}"#);
    assert!(finish_simpletex("latex_ocr", ev, &mut usage, "2024-01-01").is_err());
    assert_eq!(usage.usage_today("2024-01-01", "latex_ocr"), 0);
    assert_eq!(usage.usage_today("2024-01-01", "custom"), 1);
}

#[test]
fn siliconflow_error_messages() {
    assert_eq!(sf_error_message(400, r#"{"message":"Height and width must be larger than 28"}"#), IMAGE_TOO_SMALL);
    assert_eq!(sf_error_message(400, r#"{"error":{"message":"bad model"}}"#), "bad model");
    assert_eq!(sf_error_message(400, r#"{"message":"m1","error":{"message":"m2"}}"#), "m1");
    assert_eq!(sf_error_message(503, "oops"), "API 调用失败: 503");
    assert_eq!(sf_error_message(404, r#"{"message":""}"#), "API 调用失败: 404");
}

#[test]
fn chat_reply_is_trimmed() {
    let r = read_chat_reply(r#"{"choices":[{"message":{"content":"  x^2 \n"}}]}"#);
    assert_eq!(r.ok().unwrap(), "x^2");
    assert_eq!(read_chat_reply(r#"{"choices":[]}"#).ok().unwrap(), "");
    assert!(read_chat_reply("not json").is_err());
}

#[test]
fn primary_formula_asks_for_verification() {
    let ev = answered(true, 200, r#"{"choices":[{"message":{"content":" x^2+1 "}}]}"#);
    match after_primary("formula", request(), ev) {
        Step::Verify { request: next, primary } => {
            assert_eq!(primary, "x^2+1");
            assert_eq!(next.prompt, format!("{}x^2+1", VERIFY_PROMPT));
            assert_eq!(next.image_url, "data:image/png;base64,AAAA");
            assert_eq!(next.model, "Qwen/Qwen2-VL-7B-Instruct");
        }
        _ => panic!("expected verification"),
    }
}

#[test]
fn primary_other_modes_finish() {
    let ev = answered(true, 200, r#"{"choices":[{"message":{"content":"text"}}]}"#);
    match after_primary("ocr", request(), ev) {
        Step::Done(Ok(r)) => {
            assert_eq!(r.text, "text");
            assert!(r.verified.is_none());
        }
        _ => panic!("expected a result"),
    }
    let ev = answered(true, 200, r#"{"choices":[{"message":{"content":"   "}}]}"#);
    match after_primary("formula", request(), ev) {
        Step::Done(Ok(r)) => {
            assert_eq!(r.text, "");
            assert_eq!(r.verified, Some(false));
        }
        _ => panic!("expected a result"),
    }
}

#[test]
fn primary_failures() {
    match after_primary("ocr", request(), answered(false, 413, r#"{"message":"too big"}"#)) {
        Step::Done(Err(e)) => assert_eq!(e.message(), "too big"),
        _ => panic!("expected an error"),
    }
    match after_primary("ocr", request(), ReplyEvent::Unreachable("dns".into())) {
        Step::Done(Err(e)) => assert_eq!(e.message(), "请求失败: dns"),
        _ => panic!("expected an error"),
    }
}

#[test]
fn failed_verification_keeps_primary() {
    for ev in [
        ReplyEvent::Unreachable("x".into()),
        answered(false, 500, ""),
        answered(true, 200, "garbage"),
        answered(true, 200, r#"{"choices":[{"message":{"content":""}}]}"#),
    ] {
        let r = after_verification("m".into(), "x^2".into(), ev);
        assert_eq!(r.text, "x^2");
        assert_eq!(r.verified, Some(false));
        assert!(r.corrected.is_none());
        assert!(r.original_text.is_none());
    }
    let r = after_verification("m".into(), "x^2+1".into(), answered(true, 200, r#"{"choices":[{"message":{"content":"x^2+2"}}]}"#));
    assert_eq!(r.text, "x^2+2");
    assert_eq!(r.corrected, Some(true));
}

#[test]
fn whitespace_collapse_and_join() {
    assert_eq!(collapse_whitespace("  a \t b\n\nc  "), "a b c");
    assert_eq!(collapse_whitespace("   "), "");
    assert_eq!(join_words(&vec!["x".to_string(), "y".to_string(), "z".to_string()]), "x y z");
    assert_eq!(join_words(&vec!["x".to_string()]), "x");
    assert_eq!(join_words(&vec![]), "");
}
