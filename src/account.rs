//! Credential checks, account balance and the results of the "test"
//! commands.
use vstd::prelude::*;
use vstd::string::StrSliceExecFns;
use crate::json::{doc_or_null, opt_view, parse_json, parsed_json, text_at2, text_member2, Json};
use crate::provider::{decimal, decimal_text, simpletex_code, code_or, error_code, CODE_NO_RESOURCE, CODE_UNAUTHORIZED};
use crate::recognize::ReplyEvent;
use crate::text::{join2, join3, same_text};

verus! {

pub const NETWORK_ERROR: &'static str = "网络错误: ";
pub const TOKEN_REJECTED: &'static str = "Token 无效或已过期";
pub const NO_RESOURCE: &'static str = "无可用资源（额度已用完）";
pub const SERVER_ERROR: &'static str = "服务器错误 (HTTP ";
pub const UNKNOWN_ERROR: &'static str = "未知错误";
pub const KEY_REJECTED: &'static str = "API Key 无效";
pub const TOKEN_MISSING: &'static str = "未填写 Token";
pub const KEY_MISSING: &'static str = "未填写 API Key";
pub const TOKEN_CLEARED: &'static str = "SimpleTex Token 无效，已清除";
pub const KEY_CLEARED: &'static str = "硅基流动 API Key 无效，已清除";

/// The outcome of a credential test.
pub struct TestResult {
    pub ok: bool,
    pub error: Option<String>,
    pub balance: Option<String>,
}

/// The SimpleTex code that marks a rejected token: `res.errType`, else `err_info.err_type`.
pub open spec fn probe_code(j: Json) -> Option<Seq<char>> {
    let a = text_at2(j, "res"@, "errType"@);
    if a is Some { a } else { text_at2(j, "err_info"@, "err_type"@) }
}

/// A SimpleTex token passes unless the probe did not get through, got
/// HTTP 401, or got a JSON body whose code says `req_unauthorized`.
pub open spec fn token_accepted(event: ReplyEvent) -> bool {
    match event {
        ReplyEvent::Unreachable(_) => false,
        ReplyEvent::Answered { status, body, .. } => status != 401 && !(parsed_json(body@) is Some
            && probe_code(parsed_json(body@)->0) == Some(CODE_UNAUTHORIZED@)),
    }
}

pub fn simpletex_token_accepted(event: &ReplyEvent) -> (r: bool)
    ensures
        r == token_accepted(*event),
{
    match event {
        ReplyEvent::Unreachable(_) => false,
        ReplyEvent::Answered { status, body, .. } => {
            if *status == 401 {
                return false;
            }
            match parse_json(body.as_str()) {
                Ok(j) => {
                    let code = match text_member2(&j, "res", "errType") {
                        Some(c) => Some(c),
                        None => text_member2(&j, "err_info", "err_type"),
                    };
                    assert(opt_view(code) == probe_code(j));
                    match code {
                        Some(c) => !same_text(c.as_str(), CODE_UNAUTHORIZED),
                        None => true,
                    }
                },
                Err(_) => true,
            }
        },
    }
}

/// A SiliconFlow key passes when the account request succeeds.
pub fn siliconflow_key_accepted(event: &ReplyEvent) -> (r: bool)
    ensures
        r == (*event matches ReplyEvent::Answered { http_ok, .. } && http_ok),
{
    match event {
        ReplyEvent::Unreachable(_) => false,
        ReplyEvent::Answered { http_ok, .. } => *http_ok,
    }
}

/// The value to store for a checked credential, and the warning when it was
/// rejected (it is then stored empty).
pub fn checked_credential(value: String, accepted: bool, warning: &str) -> (r: (String, Option<String>))
    ensures
        accepted ==> r.0@ == value@ && r.1 is None,
        !accepted ==> r.0@.len() == 0 && opt_view(r.1) == Some(warning@),
{
    if accepted {
        (value, None)
    } else {
        (String::new(), Some(String::from_str(warning)))
    }
}

/// The credential to test: the one given when it is not empty, else the stored one.
pub fn choose_credential(given: Option<String>, stored: String) -> (r: String)
    ensures
        r@ == (if given is Some && given->0@.len() > 0 { given->0@ } else { stored@ }),
{
    match given {
        Some(g) => if g.unicode_len() > 0 { g } else { stored },
        None => stored,
    }
}

pub open spec fn failed(r: TestResult, msg: Seq<char>) -> bool {
    !r.ok && opt_view(r.error) == Some(msg) && r.balance is None
}

/// The test result for a missing credential.
pub fn missing_credential(msg: &str) -> (r: TestResult)
    ensures
        failed(r, msg@),
{
    TestResult { ok: false, error: Some(String::from_str(msg)), balance: None }
}

/// What a SimpleTex failure code means to a test.
pub open spec fn code_meaning(code: Seq<char>, other: Seq<char>) -> Seq<char> {
    if code == CODE_UNAUTHORIZED@ {
        TOKEN_REJECTED@
    } else if code == CODE_NO_RESOURCE@ {
        NO_RESOURCE@
    } else {
        other
    }
}

/// Why a SimpleTex token test failed, or nothing when it passed.
pub open spec fn simpletex_test_failure(event: ReplyEvent) -> Option<Seq<char>> {
    match event {
        ReplyEvent::Unreachable(e) => Some(NETWORK_ERROR@ + e@),
        ReplyEvent::Answered { http_ok, status, body, .. } => if status == 401 {
            Some(TOKEN_REJECTED@)
        } else if !http_ok {
            let server = SERVER_ERROR@ + decimal(status as nat) + ")"@;
            let code = if parsed_json(body@) is Some { simpletex_code(parsed_json(body@)->0) } else { None };
            Some(if code is Some { code_meaning(code->0, server) } else { server })
        } else {
            let j = doc_or_null(body@);
            if crate::json::bool_at(j, "status"@) == Some(true) {
                None
            } else {
                let c = if simpletex_code(j) is Some { simpletex_code(j)->0 } else { UNKNOWN_ERROR@ };
                Some(code_meaning(c, c))
            }
        },
    }
}

fn meaning_of(code: String, other: String) -> (r: String)
    ensures
        r@ == code_meaning(code@, other@),
{
    if same_text(code.as_str(), CODE_UNAUTHORIZED) {
        String::from_str(TOKEN_REJECTED)
    } else if same_text(code.as_str(), CODE_NO_RESOURCE) {
        String::from_str(NO_RESOURCE)
    } else {
        other
    }
}

fn parse_or_null(body: &str) -> (r: Json)
    ensures
        r == doc_or_null(body@),
{
    match parse_json(body) {
        Ok(j) => j,
        Err(_) => Json::Null,
    }
}

/// The result of testing a SimpleTex token with a probe upload.
pub fn simpletex_test_outcome(event: &ReplyEvent) -> (r: TestResult)
    ensures
        simpletex_test_failure(*event) is None ==> r.ok && r.error is None && r.balance is None,
        simpletex_test_failure(*event) is Some ==> failed(r, simpletex_test_failure(*event)->0),
{
    match event {
        ReplyEvent::Unreachable(e) => TestResult { ok: false, error: Some(join2(NETWORK_ERROR, e.as_str())), balance: None },
        ReplyEvent::Answered { http_ok, status, body, .. } => {
            if *status == 401 {
                return TestResult { ok: false, error: Some(String::from_str(TOKEN_REJECTED)), balance: None };
            }
            if !*http_ok {
                let server = join3(SERVER_ERROR, decimal_text(*status).as_str(), ")");
                let msg = match parse_json(body.as_str()) {
                    Ok(j) => {
                        match error_code(&j) {
                            Some(code) => meaning_of(code, server),
                            None => server,
                        }
                    },
                    Err(_) => server,
                };
                return TestResult { ok: false, error: Some(msg), balance: None };
            }
            let j = parse_or_null(body.as_str());
            if crate::json::bool_member(&j, "status") == Some(true) {
                return TestResult { ok: true, error: None, balance: None };
            }
            let code = code_or(&j, UNKNOWN_ERROR);
            let code2 = code.clone();
            TestResult { ok: false, error: Some(meaning_of(code, code2)), balance: None }
        },
    }
}

/// The balance the account reports: `data.totalBalance`, else `data.balance`.
pub open spec fn total_of(j: Json) -> Option<Seq<char>> {
    let a = text_at2(j, "data"@, "totalBalance"@);
    if a is Some { a } else { text_at2(j, "data"@, "balance"@) }
}

/// Why a SiliconFlow key test failed, or nothing when it passed.
pub open spec fn siliconflow_test_failure(event: ReplyEvent) -> Option<Seq<char>> {
    match event {
        ReplyEvent::Unreachable(e) => Some(NETWORK_ERROR@ + e@),
        ReplyEvent::Answered { http_ok, status, status_line, .. } => if status == 401 {
            Some(KEY_REJECTED@)
        } else if !http_ok {
            Some("HTTP "@ + status_line@)
        } else {
            None
        },
    }
}

fn total_balance(j: &Json) -> (r: Option<String>)
    ensures
        opt_view(r) == total_of(*j),
{
    match text_member2(j, "data", "totalBalance") {
        Some(t) => Some(t),
        None => text_member2(j, "data", "balance"),
    }
}

/// The result of testing a SiliconFlow key with an account request.
pub fn siliconflow_test_outcome(event: &ReplyEvent) -> (r: TestResult)
    ensures
        siliconflow_test_failure(*event) is Some ==> failed(r, siliconflow_test_failure(*event)->0),
        siliconflow_test_failure(*event) is None ==> r.ok && r.error is None && (*event matches ReplyEvent::Answered { body, .. }
            && opt_view(r.balance) == total_of(doc_or_null(body@))),
{
    match event {
        ReplyEvent::Unreachable(e) => TestResult { ok: false, error: Some(join2(NETWORK_ERROR, e.as_str())), balance: None },
        ReplyEvent::Answered { http_ok, status, status_line, body } => {
            if *status == 401 {
                return TestResult { ok: false, error: Some(String::from_str(KEY_REJECTED)), balance: None };
            }
            if !*http_ok {
                return TestResult { ok: false, error: Some(join2("HTTP ", status_line.as_str())), balance: None };
            }
            let j = parse_or_null(body.as_str());
            TestResult { ok: true, error: None, balance: total_balance(&j) }
        },
    }
}

/// The (charge, total) balance of an account reply; missing values read "0".
pub open spec fn balance_of(j: Json) -> (Seq<char>, Seq<char>) {
    let c = text_at2(j, "data"@, "chargeBalance"@);
    (if c is Some { c->0 } else { "0"@ }, if total_of(j) is Some { total_of(j)->0 } else { "0"@ })
}

pub open spec fn pair_view(p: (String, String)) -> (Seq<char>, Seq<char>) {
    (p.0@, p.1@)
}

/// The balance an account request reports, if it succeeded with a JSON body.
pub fn balance_from_reply(event: &ReplyEvent) -> (r: Option<(String, String)>)
    ensures
        ({
            let good = *event matches ReplyEvent::Answered { http_ok, body, .. } && http_ok && parsed_json(body@) is Some;
            &&& !good ==> r is None
            &&& good ==> r is Some && (*event matches ReplyEvent::Answered { body, .. }
                && pair_view(r->0) == balance_of(parsed_json(body@)->0))
        }),
{
    match event {
        ReplyEvent::Unreachable(_) => None,
        ReplyEvent::Answered { http_ok, body, .. } => {
            if !*http_ok {
                return None;
            }
            match parse_json(body.as_str()) {
                Ok(j) => {
                    let charge = match text_member2(&j, "data", "chargeBalance") {
                        Some(c) => c,
                        None => String::from_str("0"),
                    };
                    let total = match total_balance(&j) {
                        Some(t) => t,
                        None => String::from_str("0"),
                    };
                    Some((charge, total))
                },
                Err(_) => None,
            }
        },
    }
}

/// The credential to test, or the "missing" result when the chosen one is empty.
pub fn credential_or_missing(given: Option<String>, stored: String, missing: &str) -> (r: Result<String, TestResult>)
    ensures
        ({
            let chosen = if given is Some && given->0@.len() > 0 { given->0@ } else { stored@ };
            &&& chosen.len() == 0 ==> r is Err && failed(r->Err_0, missing@)
            &&& chosen.len() > 0 ==> r is Ok && r->Ok_0@ == chosen
        }),
{
    let c = choose_credential(given, stored);
    if c.unicode_len() == 0 {
        Err(missing_credential(missing))
    } else {
        Ok(c)
    }
}

/// The account balance for a key: none without a key or without a reply,
/// else what the reply reports.
pub fn account_balance(key: &str, reply: Option<&ReplyEvent>) -> (r: Option<(String, String)>)
    ensures
        key@.len() == 0 || reply is None ==> r is None,
        key@.len() > 0 && reply is Some ==> ({
            let ev = *reply->0;
            let good = ev matches ReplyEvent::Answered { http_ok, body, .. } && http_ok && parsed_json(body@) is Some;
            &&& !good ==> r is None
            &&& good ==> r is Some && (ev matches ReplyEvent::Answered { body, .. }
                && pair_view(r->0) == balance_of(parsed_json(body@)->0))
        }),
{
    if key.unicode_len() == 0 {
        return None;
    }
    match reply {
        Some(ev) => balance_from_reply(ev),
        None => None,
    }
}

} // verus!
