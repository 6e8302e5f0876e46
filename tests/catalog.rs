use texsnap::catalog::{
    build_model, model_ids_from_reply, is_ocr_only_model, is_vision_model, list_vision_models, model_id_to_name,
    vision_models, PriceEntry, SfModel,
};
use texsnap::recognize::ReplyEvent;

fn price(id: &str, input: u64, output: u64, label: &str) -> PriceEntry {
    PriceEntry { id: id.to_string(), input_price: input, output_price: output, label: label.to_string() }
}

fn ids(list: &[&str]) -> Vec<String> {
    list.iter().map(|s| s.to_string()).collect()
}

fn names(models: &[SfModel]) -> Vec<String> {
    models.iter().map(|m| m.id.clone()).collect()
}

#[test]
fn qwen_vl_is_vision_with_short_name() {
    assert!(is_vision_model("Qwen/Qwen2-VL-7B-Instruct"));
    assert!(!is_ocr_only_model("Qwen/Qwen2-VL-7B-Instruct"));
    assert_eq!(model_id_to_name("Qwen/Qwen2-VL-7B-Instruct"), "Qwen2-VL-7B");
}

#[test]
fn pro_glm_v_is_vision_with_pro_suffix() {
    assert!(is_vision_model("Pro/THUDM/GLM-4V"));
    assert_eq!(model_id_to_name("Pro/THUDM/GLM-4V"), "GLM-4V (Pro)");
}

#[test]
fn vision_rule_cases() {
    assert!(is_vision_model("deepseek-ai/deepseek-vl2"));
    assert!(is_vision_model("moonshotai/Kimi-K2.5"));
    assert!(is_vision_model("Qwen/Qwen2.5-Omni-7B"));
    assert!(is_vision_model("zai-org/GLM-4.5V"));
    assert!(is_vision_model("some/qwen-vl-lower"));
    assert!(!is_vision_model("deepseek-ai/DeepSeek-V3"));
    assert!(!is_vision_model("THUDM/GLM-4-9B"));
    assert!(!is_vision_model("GLM-4V/other"));
}

#[test]
fn ocr_only_cases() {
    assert!(is_ocr_only_model("PaddlePaddle/PaddleOCR-VL"));
    assert!(is_ocr_only_model("deepseek-ai/DeepSeek-OCR"));
    assert!(is_ocr_only_model("x/Captioner-1"));
    assert!(!is_ocr_only_model("Qwen/Qwen2-VL-7B-Instruct"));
}

#[test]
fn name_edge_cases() {
    assert_eq!(model_id_to_name("plain"), "plain");
    assert_eq!(model_id_to_name("a/b-Instruct-Instruct"), "b-Instruct");
    assert_eq!(model_id_to_name("Pro/a/b-Instruct"), "b (Pro)");
    assert_eq!(model_id_to_name("-Instruct"), "");
    assert_eq!(model_id_to_name("Pro/x"), "x (Pro)");
    assert_eq!(model_id_to_name("a/b/"), "");
    assert_eq!(model_id_to_name(""), "");
}

#[test]
fn model_prices_and_modes() {
    let prices = vec![price("a/Free-VL", 0, 0, "in0/out0"), price("a/Paid-VL", 3_500_000, 7_000_000, "入¥3.5/出¥7")];
    let free = build_model("a/Free-VL", &prices);
    assert!(free.free);
    assert_eq!(free.pricing, "免费");
    assert_eq!(free.modes, vec!["formula".to_string(), "ocr".to_string()]);
    let paid = build_model("a/Paid-VL", &prices);
    assert!(!paid.free);
    assert_eq!(paid.pricing, "入¥3.5/出¥7");
    assert_eq!(paid.input_price, 3_500_000);
    assert_eq!(paid.output_price, 7_000_000);
    let unknown = build_model("a/Other-VL", &prices);
    assert!(!unknown.free);
    assert_eq!(unknown.pricing, "价格未知");
    assert_eq!(unknown.input_price, 0);
    let ocr = build_model("x/PaddleOCR", &prices);
    assert_eq!(ocr.modes, vec!["ocr".to_string()]);
}

#[test]
fn half_free_model_is_not_free() {
    let prices = vec![price("a/Half-VL", 0, 2_000_000, "入¥0/出¥2")];
    let m = build_model("a/Half-VL", &prices);
    assert!(!m.free);
    assert_eq!(m.pricing, "入¥0/出¥2");
}

#[test]
fn catalog_ranks_free_first_then_price() {
    let prices = vec![
        price("a/Cheap-VL", 1_000_000, 1_000_000, "c"),
        price("a/Dear-VL", 9_000_000, 1_000_000, "d"),
        price("a/Free-VL", 0, 0, "f"),
        price("a/Mid-VL", 4_000_000, 1_000_000, "m"),
    ];
    let list = ids(&["a/Dear-VL", "a/Mid-VL", "a/Text-Only", "a/Free-VL", "a/Cheap-VL", "a/Unknown-VL"]);
    let out = vision_models(&list, &prices);
    assert_eq!(names(&out), ids(&["a/Free-VL", "a/Unknown-VL", "a/Cheap-VL", "a/Mid-VL", "a/Dear-VL"]));
    for i in 0..out.len() {
        for j in (i + 1)..out.len() {
            assert!(!(out[j].free && !out[i].free));
            if out[i].free == out[j].free {
                assert!(out[i].input_price <= out[j].input_price);
            }
        }
    }
}

#[test]
fn catalog_ties_keep_list_order() {
    let prices = vec![price("b/Two-VL", 0, 0, "f"), price("b/One-VL", 0, 0, "f")];
    let out = vision_models(&ids(&["b/One-VL", "b/Two-VL"]), &prices);
    assert_eq!(names(&out), ids(&["b/One-VL", "b/Two-VL"]));
}

#[test]
fn catalog_listing_is_repeatable() {
    let prices = vec![price("a/X-VL", 2, 2, "x"), price("a/Y-VL", 1, 1, "y")];
    let body = r#"{"data":[{"id":"a/X-VL"},{"id":"a/Y-VL"},{"id":"a/Text"},{"object":"model"}]}"#;
    let reply = ReplyEvent::Answered { http_ok: true, status: 200, status_line: "200 OK".into(), body: body.into() };
    let first = list_vision_models("key", &reply, &prices);
    let second = list_vision_models("key", &reply, &prices);
    assert_eq!(names(&first), ids(&["a/Y-VL", "a/X-VL"]));
    assert_eq!(names(&first), names(&second));
    for (a, b) in first.iter().zip(second.iter()) {
        assert_eq!(a.name, b.name);
        assert_eq!(a.pricing, b.pricing);
        assert_eq!(a.modes, b.modes);
        assert_eq!(a.input_price, b.input_price);
        assert_eq!(a.free, b.free);
    }
}

#[test]
fn catalog_empty_without_key_or_reply() {
    let body = r#"{"data":[{"id":"a/X-VL"}]}"#;
    let ok = ReplyEvent::Answered { http_ok: true, status: 200, status_line: "200 OK".into(), body: body.into() };
    assert!(list_vision_models("", &ok, &vec![]).is_empty());
    let bad = ReplyEvent::Answered { http_ok: false, status: 500, status_line: "500".into(), body: body.into() };
    assert!(list_vision_models("key", &bad, &vec![]).is_empty());
    let junk = ReplyEvent::Answered { http_ok: true, status: 200, status_line: "200 OK".into(), body: "<html>".into() };
    assert!(list_vision_models("key", &junk, &vec![]).is_empty());
    assert!(list_vision_models("key", &ReplyEvent::Unreachable("down".into()), &vec![]).is_empty());
}

#[test]
fn model_ids_need_key_and_success() {
    let ok = ReplyEvent::Answered { http_ok: true, status: 200, status_line: "200 OK".into(), body: r#"{"data":[{"id":"a/X-VL"},{"id":7}]}"#.into() };
    assert_eq!(model_ids_from_reply("sk", Some(&ok)), Some(vec!["a/X-VL".to_string()]));
    assert_eq!(model_ids_from_reply("", Some(&ok)), None);
    assert_eq!(model_ids_from_reply("sk", None), None);
    let junk = ReplyEvent::Answered { http_ok: true, status: 200, status_line: "200 OK".into(), body: "<html>".into() };
    assert_eq!(model_ids_from_reply("sk", Some(&junk)), Some(vec![]));
    let bad = ReplyEvent::Answered { http_ok: false, status: 500, status_line: "500".into(), body: "{}".into() };
    assert_eq!(model_ids_from_reply("sk", Some(&bad)), None);
}
