use texsnap::account::{
    account_balance, balance_from_reply, checked_credential, credential_or_missing, choose_credential, siliconflow_key_accepted,
    siliconflow_test_outcome, simpletex_test_outcome, simpletex_token_accepted,
};
use texsnap::recognize::ReplyEvent;
use texsnap::settings::{
    available_models, parse_voucher_models, settings_response, simpletex_entries,
    siliconflow_entries,
};
use texsnap::catalog::{build_model, PriceEntry};
use texsnap::usage::UsageRecord;

fn answered(ok: bool, status: u16, line: &str, body: &str) -> ReplyEvent {
    ReplyEvent::Answered { http_ok: ok, status, status_line: line.to_string(), body: body.to_string() }
}

#[test]
fn token_probe_verdicts() {
    assert!(!simpletex_token_accepted(&ReplyEvent::Unreachable("x".into())));
    assert!(!simpletex_token_accepted(&answered(false, 401, "401", "")));
    assert!(!simpletex_token_accepted(&answered(true, 200, "200", r#"{"res":{"errType":"req_unauthorized"}}"#)));
    assert!(!simpletex_token_accepted(&answered(true, 200, "200", r#"{"err_info":{"err_type":"req_unauthorized"}}"#)));
    assert!(simpletex_token_accepted(&answered(false, 500, "500", "boom")));
    assert!(simpletex_token_accepted(&answered(true, 200, "200", r#"{"status":true}"#)));
}

#[test]
fn key_probe_verdicts() {
    assert!(siliconflow_key_accepted(&answered(true, 200, "200", "")));
    assert!(!siliconflow_key_accepted(&answered(false, 401, "401", "")));
    assert!(!siliconflow_key_accepted(&ReplyEvent::Unreachable("x".into())));
}

#[test]
fn rejected_credential_is_cleared() {
    let (v, e) = checked_credential("tok".into(), false, "SimpleTex Token 无效，已清除");
    assert_eq!(v, "");
    assert_eq!(e.as_deref(), Some("SimpleTex Token 无效，已清除"));
    let (v, e) = checked_credential("tok".into(), true, "w");
    assert_eq!(v, "tok");
    assert!(e.is_none());
    assert_eq!(choose_credential(Some("".into()), "stored".into()), "stored");
    assert_eq!(choose_credential(Some("given".into()), "stored".into()), "given");
    assert_eq!(choose_credential(None, "stored".into()), "stored");
}

#[test]
fn simpletex_test_messages() {
    let err = |ev: ReplyEvent| simpletex_test_outcome(&ev).error.unwrap();
    assert_eq!(err(ReplyEvent::Unreachable("dns".into())), "网络错误: dns");
    assert_eq!(err(answered(false, 401, "401", "")), "Token 无效或已过期");
    assert_eq!(err(answered(false, 403, "403", r#"{"errType":"resource_no_valid"}"#)), "无可用资源（额度已用完）");
    assert_eq!(err(answered(false, 502, "502", "x")), "服务器错误 (HTTP 502)");
    assert_eq!(err(answered(true, 200, "200", r#"{"status":false,"err_info":{"err_type":"req_unauthorized"}}"#)), "Token 无效或已过期");
    assert_eq!(err(answered(true, 200, "200", r#"{"status":false,"errType":"weird"}"#)), "weird");
    assert_eq!(err(answered(true, 200, "200", "")), "未知错误");
    let ok = simpletex_test_outcome(&answered(true, 200, "200", r#"{"status":true}"#));
    assert!(ok.ok && ok.error.is_none());
}

#[test]
fn siliconflow_test_messages() {
    let r = siliconflow_test_outcome(&answered(false, 401, "401 Unauthorized", ""));
    assert_eq!(r.error.as_deref(), Some("API Key 无效"));
    let r = siliconflow_test_outcome(&answered(false, 404, "404 Not Found", ""));
    assert_eq!(r.error.as_deref(), Some("HTTP 404 Not Found"));
    let r = siliconflow_test_outcome(&answered(true, 200, "200 OK", r#"{"data":{"balance":"3.1"}}"#));
    assert!(r.ok);
    assert_eq!(r.balance.as_deref(), Some("3.1"));
    let r = siliconflow_test_outcome(&answered(true, 200, "200 OK", r#"{"data":{"totalBalance":"9","balance":"3.1"}}"#));
    assert_eq!(r.balance.as_deref(), Some("9"));
}

#[test]
fn balance_fields() {
    let b = balance_from_reply(&answered(true, 200, "200", r#"{"data":{"chargeBalance":"1.5","totalBalance":"4"}}"#)).unwrap();
    assert_eq!(b, ("1.5".to_string(), "4".to_string()));
    let b = balance_from_reply(&answered(true, 200, "200", r#"{"data":{}}"#)).unwrap();
    assert_eq!(b, ("0".to_string(), "0".to_string()));
    assert!(balance_from_reply(&answered(false, 500, "500", "{}")).is_none());
    assert!(balance_from_reply(&answered(true, 200, "200", "x")).is_none());
}

#[test]
fn voucher_text_lines() {
    let v = parse_voucher_models("  Qwen/Qwen2-VL  \r\n\nnoslash\n Pro/THUDM/GLM-4V");
    assert_eq!(v, vec!["Qwen/Qwen2-VL".to_string(), "Pro/THUDM/GLM-4V".to_string()]);
    assert!(parse_voucher_models("").is_empty());
}

#[test]
fn settings_reply() {
    let usage = UsageRecord { date: "2024-01-01".into(), counts: vec![("latex_ocr".into(), 4)] };
    let r = settings_response("tok", "", String::new(), vec!["a/b".into()], &usage, "2024-01-01", Some(("1".into(), "2".into())));
    assert!(r.has_simpletex);
    assert!(!r.has_key);
    assert_eq!(r.simpletex_model, "latex_ocr");
    assert_eq!(r.simpletex_models.len(), 3);
    assert_eq!(r.simpletex_models[1].free_per_day, 2000);
    assert_eq!(r.simpletex_usage_by_model[0], ("latex_ocr".to_string(), 4));
    assert_eq!(r.simpletex_usage_by_model[2], ("simpletex_ocr".to_string(), 0));
    assert!(r.sf_balance.is_none());
    let r = settings_response("", "sk", "latex_ocr_turbo".into(), vec![], &usage, "2024-01-01", Some(("1".into(), "2".into())));
    assert_eq!(r.sf_balance.as_deref(), Some("2"));
    assert_eq!(r.sf_charge_balance.as_deref(), Some("1"));
    assert_eq!(r.simpletex_model, "latex_ocr_turbo");
}

#[test]
fn model_list_rows() {
    let usage = UsageRecord { date: "d".into(), counts: vec![("simpletex_ocr".into(), 9)] };
    let st = simpletex_entries(true, &usage, "d");
    assert_eq!(st[0].id, "simpletex:latex_ocr");
    assert_eq!(st[0].pricing.as_deref(), Some("每日免费 500 次"));
    assert_eq!(st[2].modes, vec!["formula".to_string(), "ocr".to_string(), "document".to_string()]);
    assert_eq!(st[2].usage_today, Some(9));
    let prices = vec![PriceEntry { id: "a/X-VL".into(), input_price: 0, output_price: 0, label: "f".into() }];
    let sf = siliconflow_entries(vec![build_model("a/X-VL", &prices)], &vec!["a/X-VL".into()], true, &Some(("1".into(), "3".into())));
    assert_eq!(sf[0].id, "siliconflow:a/X-VL");
    assert_eq!(sf[0].provider, "硅基流动");
    assert_eq!(sf[0].voucher, Some(true));
    assert_eq!(sf[0].free, Some(true));
    assert_eq!(sf[0].total_balance.as_deref(), Some("3"));
    assert_eq!(st.len(), 3);
    let models = vec![build_model("a/X-VL", &prices)];
    let all = available_models("tok", "sk", &usage, "d", models, &vec![], Some(("1".into(), "3".into())), Some("2.0000".into()));
    assert_eq!(all.models.len(), 4);
    assert_eq!(all.models[3].id, "siliconflow:a/X-VL");
    assert_eq!(all.models[3].voucher, Some(false));
    assert!(all.models[0].available);
    assert_eq!(all.sf_balance.as_deref(), Some("3"));
    assert_eq!(all.voucher_balance.as_deref(), Some("2.0000"));
    let models = vec![build_model("a/X-VL", &prices)];
    let none = available_models("", "", &usage, "d", models, &vec![], Some(("1".into(), "3".into())), Some("2.0000".into()));
    assert_eq!(none.models.len(), 3);
    assert!(!none.models[0].available);
    assert!(none.sf_balance.is_none() && none.sf_charge_balance.is_none() && none.voucher_balance.is_none());
}

#[test]
fn missing_credentials_give_missing_result() {
    match credential_or_missing(None, String::new(), "未填写 Token") {
        Err(r) => {
            assert!(!r.ok);
            assert_eq!(r.error.as_deref(), Some("未填写 Token"));
        }
        Ok(_) => panic!("expected the missing result"),
    }
    assert!(credential_or_missing(Some(String::new()), String::new(), "m").is_err());
    assert_eq!(credential_or_missing(Some(String::new()), "stored".into(), "m").ok(), Some("stored".to_string()));
}

#[test]
fn balance_needs_a_key() {
    let ev = answered(true, 200, "200", r#"{"data":{"chargeBalance":"1","totalBalance":"2"}}"#);
    assert!(account_balance("", Some(&ev)).is_none());
    assert!(account_balance("sk", None).is_none());
    assert_eq!(account_balance("sk", Some(&ev)), Some(("1".to_string(), "2".to_string())));
}
