//! The replies of the settings and model-list commands, and the voucher
//! model list that the user types in.
use vstd::prelude::*;
use vstd::string::StrSliceExecFns;
use crate::catalog::{SfModel, SfModelView};
use crate::json::opt_view;
use crate::provider::{decimal, decimal_text};
use crate::recognize::{ST_GENERAL_NAME, ST_STANDARD_NAME, ST_TURBO_NAME};
use crate::text::{string_views, contains, has_sub, join2, join3, same_text, trim, trimmed_of};
use crate::usage::{usage_on, UsageRecord};

verus! {

pub const SIMPLETEX_PROVIDER_NAME: &'static str = "SimpleTex";
pub const SILICONFLOW_PROVIDER_NAME: &'static str = "硅基流动";

/// A SimpleTex model and its free uses per day.
pub struct SimpleTexModelInfo {
    pub id: String,
    pub name: String,
    pub free_per_day: u32,
}

/// The SimpleTex models: id, name, free uses per day, and the mode they serve.
pub open spec fn simpletex_table() -> Seq<(Seq<char>, Seq<char>, u32, Seq<char>)> {
    seq![
        ("latex_ocr"@, ST_STANDARD_NAME@, 500u32, "formula"@),
        ("latex_ocr_turbo"@, ST_TURBO_NAME@, 2000u32, "formula"@),
        ("simpletex_ocr"@, ST_GENERAL_NAME@, 50u32, "document"@),
    ]
}

pub open spec fn info_view(m: SimpleTexModelInfo) -> (Seq<char>, Seq<char>, u32) {
    (m.id@, m.name@, m.free_per_day)
}

/// The SimpleTex models, in the order the settings list them.
pub fn simpletex_models() -> (r: Vec<SimpleTexModelInfo>)
    ensures
        r@.len() == 3,
        forall|i: int| 0 <= i < 3 ==> info_view(#[trigger] r@[i]) == (
            simpletex_table()[i].0,
            simpletex_table()[i].1,
            simpletex_table()[i].2,
        ),
{
    let mut v: Vec<SimpleTexModelInfo> = Vec::new();
    v.push(SimpleTexModelInfo { id: String::from_str("latex_ocr"), name: String::from_str(ST_STANDARD_NAME), free_per_day: 500 });
    v.push(SimpleTexModelInfo { id: String::from_str("latex_ocr_turbo"), name: String::from_str(ST_TURBO_NAME), free_per_day: 2000 });
    v.push(SimpleTexModelInfo { id: String::from_str("simpletex_ocr"), name: String::from_str(ST_GENERAL_NAME), free_per_day: 50 });
    v
}

/// The reply of the settings command.
pub struct SettingsResponse {
    pub has_key: bool,
    pub has_simpletex: bool,
    pub simpletex_model: String,
    pub simpletex_models: Vec<SimpleTexModelInfo>,
    pub simpletex_usage_by_model: Vec<(String, u32)>,
    pub sf_balance: Option<String>,
    pub sf_charge_balance: Option<String>,
    pub voucher_models: Vec<String>,
}

/// The SimpleTex model in the settings: the stored one, `latex_ocr` when none is.
pub fn chosen_simpletex_model(stored: String) -> (r: String)
    ensures
        r@ == (if stored@.len() == 0 { "latex_ocr"@ } else { stored@ }),
{
    if stored.unicode_len() == 0 { String::from_str("latex_ocr") } else { stored }
}

/// The settings reply from the stored values, today's usage record and the
/// account balance (charge, total) when it could be read.
pub fn settings_response(
    token: &str,
    key: &str,
    stored_model: String,
    vouchers: Vec<String>,
    usage: &UsageRecord,
    today: &str,
    balance: Option<(String, String)>,
) -> (r: SettingsResponse)
    ensures
        r.has_key == (key@.len() > 0),
        r.has_simpletex == (token@.len() > 0),
        r.simpletex_model@ == (if stored_model@.len() == 0 { "latex_ocr"@ } else { stored_model@ }),
        r.simpletex_models@.len() == 3,
        forall|i: int| 0 <= i < 3 ==> info_view(#[trigger] r.simpletex_models@[i]) == (
            simpletex_table()[i].0,
            simpletex_table()[i].1,
            simpletex_table()[i].2,
        ),
        r.simpletex_usage_by_model@.len() == 3,
        forall|i: int| 0 <= i < 3 ==> (#[trigger] r.simpletex_usage_by_model@[i]).0@ == simpletex_table()[i].0
            && r.simpletex_usage_by_model@[i].1 == usage_on(usage@, today@, simpletex_table()[i].0),
        key@.len() > 0 && balance is Some ==> opt_view(r.sf_balance) == Some(crate::account::pair_view(balance->0).1)
            && opt_view(r.sf_charge_balance) == Some(crate::account::pair_view(balance->0).0),
        !(key@.len() > 0 && balance is Some) ==> r.sf_balance is None && r.sf_charge_balance is None,
        r.voucher_models == vouchers,
{
    let models = simpletex_models();
    let mut by_model: Vec<(String, u32)> = Vec::new();
    let mut i: usize = 0;
    while i < 3
        invariant
            models@.len() == 3,
            forall|k: int| 0 <= k < 3 ==> info_view(#[trigger] models@[k]) == (
                simpletex_table()[k].0,
                simpletex_table()[k].1,
                simpletex_table()[k].2,
            ),
            i <= 3,
            by_model@.len() == i,
            forall|k: int| 0 <= k < i ==> (#[trigger] by_model@[k]).0@ == simpletex_table()[k].0
                && by_model@[k].1 == usage_on(usage@, today@, simpletex_table()[k].0),
        decreases 3 - i,
    {
        assert(info_view(models@[i as int]).0 == simpletex_table()[i as int].0);
        let id = models[i].id.clone();
        let n = usage.usage_today(today, id.as_str());
        by_model.push((id, n));
        i = i + 1;
    }
    let (sf_balance, sf_charge_balance) = if key.unicode_len() > 0 {
        match balance {
            Some((charge, total)) => (Some(total), Some(charge)),
            None => (None, None),
        }
    } else {
        (None, None)
    };
    SettingsResponse {
        has_key: key.unicode_len() > 0,
        has_simpletex: token.unicode_len() > 0,
        simpletex_model: chosen_simpletex_model(stored_model),
        simpletex_models: models,
        simpletex_usage_by_model: by_model,
        sf_balance,
        sf_charge_balance,
        voucher_models: vouchers,
    }
}

/// A model as the model list shows it.
pub struct AvailableModel {
    pub id: String,
    pub name: String,
    pub provider: String,
    pub modes: Vec<String>,
    pub available: bool,
    pub free_per_day: Option<u32>,
    pub usage_today: Option<u32>,
    pub pricing: Option<String>,
    pub free: Option<bool>,
    pub voucher: Option<bool>,
    pub charge_balance: Option<String>,
    pub total_balance: Option<String>,
}

/// The reply of the model-list command.
pub struct AvailableModelsResponse {
    pub models: Vec<AvailableModel>,
    pub sf_balance: Option<String>,
    pub sf_charge_balance: Option<String>,
    pub voucher_balance: Option<String>,
}

/// The reply of the balance command.
pub struct BalanceResponse {
    pub charge_balance: Option<String>,
    pub total_balance: Option<String>,
    pub voucher_balance: Option<String>,
}

pub open spec fn st_modes(mode: Seq<char>) -> Seq<Seq<char>> {
    if mode == "document"@ { seq!["formula"@, "ocr"@, "document"@] } else { seq![mode] }
}

/// A SimpleTex row of the model list.
pub open spec fn st_entry_ok(
    e: AvailableModel,
    row: (Seq<char>, Seq<char>, u32, Seq<char>),
    available: bool,
    used: u32,
) -> bool {
    &&& e.id@ == "simpletex:"@ + row.0
    &&& e.name@ == row.1
    &&& e.provider@ == SIMPLETEX_PROVIDER_NAME@
    &&& string_views(e.modes@) == st_modes(row.3)
    &&& e.available == available
    &&& e.free_per_day == Some(row.2)
    &&& e.usage_today == Some(used)
    &&& opt_view(e.pricing) == Some("每日免费 "@ + decimal(row.2 as nat) + " 次"@)
    &&& e.free is None && e.voucher is None && e.charge_balance is None && e.total_balance is None
}

fn st_entry(id: &str, name: &str, free: u16, document: bool, available: bool, used: u32) -> (r: AvailableModel)
    ensures
        r.id@ == "simpletex:"@ + id@,
        r.name@ == name@,
        r.provider@ == SIMPLETEX_PROVIDER_NAME@,
        string_views(r.modes@) == st_modes(if document { "document"@ } else { "formula"@ }),
        r.available == available,
        r.free_per_day == Some(free as u32),
        r.usage_today == Some(used),
        opt_view(r.pricing) == Some("每日免费 "@ + decimal(free as nat) + " 次"@),
        r.free is None && r.voucher is None && r.charge_balance is None && r.total_balance is None,
{
    let mut modes: Vec<String> = Vec::new();
    if document {
        modes.push(String::from_str("formula"));
        modes.push(String::from_str("ocr"));
        modes.push(String::from_str("document"));
        assert(string_views(modes@) =~= seq!["formula"@, "ocr"@, "document"@]);
    } else {
        modes.push(String::from_str("formula"));
        assert(string_views(modes@) =~= seq!["formula"@]);
        proof {
            reveal_strlit("formula");
            reveal_strlit("document");
            assert("formula"@.len() != "document"@.len());
        }
    }
    AvailableModel {
        id: join2("simpletex:", id),
        name: String::from_str(name),
        provider: String::from_str(SIMPLETEX_PROVIDER_NAME),
        modes,
        available,
        free_per_day: Some(free as u32),
        usage_today: Some(used),
        pricing: Some(join3("每日免费 ", decimal_text(free).as_str(), " 次")),
        free: None,
        voucher: None,
        charge_balance: None,
        total_balance: None,
    }
}

/// The SimpleTex rows of the model list, with today's use of each.
pub fn simpletex_entries(available: bool, usage: &UsageRecord, today: &str) -> (r: Vec<AvailableModel>)
    ensures
        r@.len() == 3,
        forall|i: int| 0 <= i < 3 ==> st_entry_ok(
            #[trigger] r@[i],
            simpletex_table()[i],
            available,
            usage_on(usage@, today@, simpletex_table()[i].0),
        ),
{
    let mut v: Vec<AvailableModel> = Vec::new();
    v.push(st_entry("latex_ocr", ST_STANDARD_NAME, 500, false, available, usage.usage_today(today, "latex_ocr")));
    v.push(st_entry("latex_ocr_turbo", ST_TURBO_NAME, 2000, false, available, usage.usage_today(today, "latex_ocr_turbo")));
    v.push(st_entry("simpletex_ocr", ST_GENERAL_NAME, 50, true, available, usage.usage_today(today, "simpletex_ocr")));
    v
}

pub open spec fn first_of_pair(b: Option<(String, String)>) -> Option<Seq<char>> {
    if b is Some { Some(crate::account::pair_view(b->0).0) } else { None }
}

pub open spec fn second_of_pair(b: Option<(String, String)>) -> Option<Seq<char>> {
    if b is Some { Some(crate::account::pair_view(b->0).1) } else { None }
}

/// A SiliconFlow row of the model list.
pub open spec fn sf_entry_ok(
    e: AvailableModel,
    m: SfModelView,
    vouchers: Seq<Seq<char>>,
    available: bool,
    balance: Option<(String, String)>,
) -> bool {
    &&& e.id@ == "siliconflow:"@ + m.id
    &&& e.name@ == m.name
    &&& e.provider@ == SILICONFLOW_PROVIDER_NAME@
    &&& string_views(e.modes@) == m.modes
    &&& e.available == available
    &&& e.free_per_day is None && e.usage_today is None
    &&& opt_view(e.pricing) == Some(m.pricing)
    &&& e.free == Some(m.free)
    &&& e.voucher == Some(vouchers.contains(m.id))
    &&& opt_view(e.charge_balance) == first_of_pair(balance)
    &&& opt_view(e.total_balance) == second_of_pair(balance)
}

/// Whether `id` is among the voucher models.
pub fn voucher_listed(vouchers: &Vec<String>, id: &str) -> (r: bool)
    ensures
        r == string_views(vouchers@).contains(id@),
{
    let n = vouchers.len();
    let mut i: usize = 0;
    while i < n
        invariant
            n == vouchers@.len(),
            i <= n,
            forall|k: int| 0 <= k < i ==> vouchers@[k]@ != id@,
        decreases n - i,
    {
        if same_text(vouchers[i].as_str(), id) {
            assert(string_views(vouchers@)[i as int] == id@);
            return true;
        }
        i = i + 1;
    }
    assert forall|k: int| 0 <= k < n implies string_views(vouchers@)[k] != id@ by {
        assert(string_views(vouchers@)[k] == vouchers@[k]@);
    }
    false
}

fn copy_pair_first(b: &Option<(String, String)>) -> (r: Option<String>)
    ensures
        opt_view(r) == first_of_pair(*b),
{
    match b {
        Some(p) => Some(p.0.clone()),
        None => None,
    }
}

fn copy_pair_second(b: &Option<(String, String)>) -> (r: Option<String>)
    ensures
        opt_view(r) == second_of_pair(*b),
{
    match b {
        Some(p) => Some(p.1.clone()),
        None => None,
    }
}

/// The SiliconFlow rows of the model list, in catalog order.
pub fn siliconflow_entries(
    models: Vec<SfModel>,
    vouchers: &Vec<String>,
    available: bool,
    balance: &Option<(String, String)>,
) -> (r: Vec<AvailableModel>)
    ensures
        r@.len() == models@.len(),
        forall|i: int| 0 <= i < r@.len() ==> sf_entry_ok(
            #[trigger] r@[i],
            models@[i]@,
            string_views(vouchers@),
            available,
            *balance,
        ),
{
    let ghost orig = models@;
    let n = models.len();
    let mut rest = models;
    let mut out: Vec<AvailableModel> = Vec::new();
    let mut i: usize = 0;
    while i < n
        invariant
            n == orig.len(),
            i <= n,
            rest@ == orig.subrange(i as int, n as int),
            out@.len() == i,
            forall|k: int| 0 <= k < i ==> sf_entry_ok(
                #[trigger] out@[k],
                orig[k]@,
                string_views(vouchers@),
                available,
                *balance,
            ),
        decreases n - i,
    {
        let m = rest.remove(0);
        assert(rest@ =~= orig.subrange(i + 1, n as int));
        let voucher = voucher_listed(vouchers, m.id.as_str());
        let e = AvailableModel {
            id: join2("siliconflow:", m.id.as_str()),
            name: m.name,
            provider: String::from_str(SILICONFLOW_PROVIDER_NAME),
            modes: m.modes,
            available,
            free_per_day: None,
            usage_today: None,
            pricing: Some(m.pricing),
            free: Some(m.free),
            voucher: Some(voucher),
            charge_balance: copy_pair_first(balance),
            total_balance: copy_pair_second(balance),
        };
        out.push(e);
        i = i + 1;
    }
    out
}

/// The model-list reply: the SimpleTex rows (available with a token), then,
/// with a SiliconFlow key, a row for each catalog model and the account
/// balance when it could be read; without a key, no SiliconFlow rows and no balance.
pub fn available_models(
    token: &str,
    key: &str,
    usage: &UsageRecord,
    today: &str,
    sf_models: Vec<SfModel>,
    vouchers: &Vec<String>,
    balance: Option<(String, String)>,
    voucher_balance: Option<String>,
) -> (r: AvailableModelsResponse)
    ensures
        ({
            let with_key = key@.len() > 0;
            let bal = if with_key { balance } else { None };
            let n_sf = if with_key { sf_models@.len() } else { 0 };
            &&& r.models@.len() == 3 + n_sf
            &&& forall|i: int| 0 <= i < 3 ==> st_entry_ok(
                #[trigger] r.models@[i],
                simpletex_table()[i],
                token@.len() > 0,
                usage_on(usage@, today@, simpletex_table()[i].0),
            )
            &&& forall|i: int| 0 <= i < n_sf ==> sf_entry_ok(
                #[trigger] r.models@[3 + i],
                sf_models@[i]@,
                string_views(vouchers@),
                true,
                bal,
            )
            &&& opt_view(r.sf_balance) == second_of_pair(bal)
            &&& opt_view(r.sf_charge_balance) == first_of_pair(bal)
            &&& r.voucher_balance == (if bal is Some { voucher_balance } else { None })
        }),
{
    let with_key = key.unicode_len() > 0;
    let balance = if with_key { balance } else { None };
    let mut models = simpletex_entries(token.unicode_len() > 0, usage, today);
    let mut sf_rows = if with_key {
        siliconflow_entries(sf_models, vouchers, true, &balance)
    } else {
        Vec::new()
    };
    let ghost st = models@;
    let ghost sf = sf_rows@;
    models.append(&mut sf_rows);
    assert(models@ == st + sf);
    let voucher_balance = if balance.is_some() { voucher_balance } else { None };
    let (sf_balance, sf_charge_balance) = match balance {
        Some((charge, total)) => (Some(total), Some(charge)),
        None => (None, None),
    };
    AvailableModelsResponse { models, sf_balance, sf_charge_balance, voucher_balance }
}

/// The balance reply from the account balance (charge, total), when it
/// could be read, and the voucher part of it.
pub fn balance_response(balance: Option<(String, String)>, voucher_balance: Option<String>) -> (r: BalanceResponse)
    ensures
        opt_view(r.charge_balance) == first_of_pair(balance),
        opt_view(r.total_balance) == second_of_pair(balance),
        r.voucher_balance == voucher_balance,
{
    match balance {
        Some((charge, total)) => BalanceResponse { charge_balance: Some(charge), total_balance: Some(total), voucher_balance },
        None => BalanceResponse { charge_balance: None, total_balance: None, voucher_balance },
    }
}

/// The pieces of `s` between line feeds (one piece when there is none).
pub open spec fn lines_of(s: Seq<char>) -> Seq<Seq<char>>
    decreases s.len(),
{
    if s.len() == 0 {
        seq![seq![]]
    } else {
        let prev = lines_of(s.drop_last());
        if s.last() == '\n' {
            prev.push(seq![])
        } else {
            prev.update(prev.len() - 1, prev.last().push(s.last()))
        }
    }
}

proof fn lemma_lines_nonempty(s: Seq<char>)
    ensures
        lines_of(s).len() >= 1,
    decreases s.len(),
{
    if s.len() > 0 {
        lemma_lines_nonempty(s.drop_last());
    }
}

/// A voucher entry: a trimmed line that is not empty and holds a `/`.
pub open spec fn voucher_line(t: Seq<char>) -> bool {
    t.len() > 0 && has_sub(t, "/"@)
}

/// The voucher entries among some lines, trimmed, in order.
pub open spec fn voucher_entries(lines: Seq<Seq<char>>) -> Seq<Seq<char>>
    decreases lines.len(),
{
    if lines.len() == 0 {
        seq![]
    } else {
        let prev = voucher_entries(lines.drop_last());
        let t = trimmed_of(lines.last());
        if voucher_line(t) { prev.push(t) } else { prev }
    }
}

fn keep_voucher(out: &mut Vec<String>, piece: &str)
    ensures
        ({
            let t = trimmed_of(piece@);
            string_views(final(out)@) == if voucher_line(t) {
                string_views(old(out)@).push(t)
            } else {
                string_views(old(out)@)
            }
        }),
{
    let t = trim(piece);
    if t.unicode_len() > 0 && contains(t.as_str(), "/") {
        let ghost before = out@;
        out.push(t);
        assert(string_views(out@) =~= string_views(before).push(trimmed_of(piece@)));
    }
}

/// The voucher model ids in the text the user typed: one per line, trimmed;
/// lines that are empty or hold no `/` are left out.
pub fn parse_voucher_models(text: &str) -> (r: Vec<String>)
    ensures
        string_views(r@) == voucher_entries(lines_of(text@)),
{
    let n = text.unicode_len();
    let mut out: Vec<String> = Vec::new();
    let mut start: usize = 0;
    let mut i: usize = 0;
    let ghost mut done: Seq<Seq<char>> = seq![];
    assert(text@.take(0) =~= seq![]);
    assert(text@.subrange(0, 0) =~= seq![]);
    while i < n
        invariant
            n == text@.len(),
            start <= i <= n,
            lines_of(text@.take(i as int)) == done.push(text@.subrange(start as int, i as int)),
            string_views(out@) == voucher_entries(done),
        decreases n - i,
    {
        let c = text.get_char(i);
        assert(text@.take(i + 1).drop_last() =~= text@.take(i as int));
        assert(text@.take(i + 1).last() == c);
        if c == '\n' {
            let piece = text.substring_char(start, i);
            keep_voucher(&mut out, piece);
            proof {
                assert(done.push(piece@).drop_last() =~= done);
                done = done.push(piece@);
                assert(text@.subrange(i + 1, i + 1) =~= seq![]);
            }
            start = i + 1;
        } else {
            proof {
                let prev = done.push(text@.subrange(start as int, i as int));
                assert(prev.last() == text@.subrange(start as int, i as int));
                assert(text@.subrange(start as int, i as int).push(c) =~= text@.subrange(start as int, i + 1));
                assert(prev.update(prev.len() - 1, prev.last().push(c)) =~= done.push(
                    text@.subrange(start as int, i + 1),
                ));
            }
        }
        i = i + 1;
    }
    let piece = text.substring_char(start, n);
    keep_voucher(&mut out, piece);
    proof {
        assert(text@.take(n as int) =~= text@);
        assert(done.push(piece@).drop_last() =~= done);
    }
    out
}

} // verus!
