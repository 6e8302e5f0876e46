//! The catalog of vision models: which model ids can read images, which
//! read plain text only, their display names, their prices and their rank.
use vstd::prelude::*;
use vstd::string::StrSliceExecFns;
use crate::json::{doc_or_null, get_member, member, parse_json, parsed_json, text_at, text_member, Json};
use crate::recognize::ReplyEvent;
use crate::text::{
    after_last, contains, ends_with, has_prefix, has_sub, has_suffix, join2, starts_with,
    string_views, strip_suffix_once, tail_after_last, to_upper, upper_of, without_suffix,
};

verus! {

/// Label of a model whose price is not known.
pub const PRICE_UNKNOWN: &'static str = "价格未知";

/// Label of a model that costs nothing.
pub const PRICE_FREE: &'static str = "免费";

/// Whether a model id names a vision model, given the id and its upper-case form.
pub open spec fn vision_rule(id: Seq<char>, upper: Seq<char>) -> bool {
    let last = after_last(id, '/');
    ||| has_sub(upper, "VL"@)
    ||| has_sub(upper, "OCR"@)
    ||| has_sub(upper, "PADDLEOCR"@)
    ||| has_sub(upper, "OMNI"@)
    ||| has_sub(upper, "CAPTIONER"@)
    ||| has_sub(id, "vl2"@)
    ||| has_sub(id, "Kimi-K2.5"@)
    ||| (has_sub(last, "GLM-"@) && has_suffix(last, "V"@))
}

/// Whether a model only reads text, given the upper-case form of its id.
pub open spec fn ocr_only_rule(upper: Seq<char>) -> bool {
    has_sub(upper, "PADDLEOCR"@) || has_sub(upper, "DEEPSEEK-OCR"@) || has_sub(upper, "CAPTIONER"@)
}

pub open spec fn is_vision(id: Seq<char>) -> bool {
    vision_rule(id, upper_of(id))
}

pub open spec fn is_ocr_only(id: Seq<char>) -> bool {
    ocr_only_rule(upper_of(id))
}

/// The vision rule applied to an id and its upper-case form.
pub fn vision_by_upper(id: &str, upper: &str) -> (r: bool)
    ensures
        r == vision_rule(id@, upper@),
{
    if contains(upper, "VL") || contains(upper, "OCR") || contains(upper, "PADDLEOCR")
        || contains(upper, "OMNI") || contains(upper, "CAPTIONER") || contains(id, "vl2")
        || contains(id, "Kimi-K2.5") {
        return true;
    }
    let last = tail_after_last(id, '/');
    contains(last, "GLM-") && ends_with(last, "V")
}

/// The text-only rule applied to the upper-case form of an id.
pub fn ocr_only_by_upper(upper: &str) -> (r: bool)
    ensures
        r == ocr_only_rule(upper@),
{
    contains(upper, "PADDLEOCR") || contains(upper, "DEEPSEEK-OCR") || contains(upper, "CAPTIONER")
}

/// Whether the model can take an image at all.
pub fn is_vision_model(id: &str) -> (r: bool)
    ensures
        r == is_vision(id@),
{
    let upper = to_upper(id);
    vision_by_upper(id, upper.as_str())
}

/// Whether the model only transcribes text (no formula mode).
pub fn is_ocr_only_model(id: &str) -> (r: bool)
    ensures
        r == is_ocr_only(id@),
{
    let upper = to_upper(id);
    ocr_only_by_upper(upper.as_str())
}

/// Display name of a model id: the last path segment without one trailing
/// `-Instruct`; a leading `Pro/` becomes a ` (Pro)` suffix.
pub open spec fn display_name(id: Seq<char>) -> Seq<char> {
    let pro = has_prefix(id, "Pro/"@);
    let rest = if pro { id.subrange("Pro/"@.len() as int, id.len() as int) } else { id };
    let base = without_suffix(after_last(rest, '/'), "-Instruct"@);
    if pro { base + " (Pro)"@ } else { base }
}

pub fn model_id_to_name(id: &str) -> (r: String)
    ensures
        r@ == display_name(id@),
{
    let pro_prefix = "Pro/";
    let is_pro = starts_with(id, pro_prefix);
    let rest: &str = if is_pro {
        let k = pro_prefix.unicode_len();
        id.substring_char(k, id.unicode_len())
    } else {
        id
    };
    let base = strip_suffix_once(tail_after_last(rest, '/'), "-Instruct");
    if is_pro {
        join2(base, " (Pro)")
    } else {
        String::from_str(base)
    }
}

/// A scraped price: the listed input and output prices of a model, in
/// millionths of a yuan, and the label that shows them.
pub struct PriceEntry {
    pub id: String,
    pub input_price: u64,
    pub output_price: u64,
    pub label: String,
}

/// A vision model as the catalog lists it. Prices are in millionths of a
/// yuan; an unknown price counts as 0 here.
pub struct SfModel {
    pub id: String,
    pub name: String,
    pub pricing: String,
    pub modes: Vec<String>,
    pub input_price: u64,
    pub output_price: u64,
    pub free: bool,
}

pub struct SfModelView {
    pub id: Seq<char>,
    pub name: Seq<char>,
    pub pricing: Seq<char>,
    pub modes: Seq<Seq<char>>,
    pub input_price: u64,
    pub output_price: u64,
    pub free: bool,
}

impl View for SfModel {
    type V = SfModelView;

    open spec fn view(&self) -> SfModelView {
        SfModelView {
            id: self.id@,
            name: self.name@,
            pricing: self.pricing@,
            modes: string_views(self.modes@),
            input_price: self.input_price,
            output_price: self.output_price,
            free: self.free,
        }
    }
}

pub open spec fn model_views(v: Seq<SfModel>) -> Seq<SfModelView> {
    v.map_values(|m: SfModel| m@)
}

/// The first price entry listed for `id`.
pub open spec fn price_of(prices: Seq<PriceEntry>, id: Seq<char>) -> Option<PriceEntry>
    decreases prices.len(),
{
    if prices.len() == 0 {
        None
    } else if prices[0].id@ == id {
        Some(prices[0])
    } else {
        price_of(prices.drop_first(), id)
    }
}

/// A model is free when both of its known prices are zero.
pub open spec fn free_price(p: Option<PriceEntry>) -> bool {
    p is Some && p->0.input_price == 0 && p->0.output_price == 0
}

pub open spec fn modes_of(id: Seq<char>) -> Seq<Seq<char>> {
    if is_ocr_only(id) { seq!["ocr"@] } else { seq!["formula"@, "ocr"@] }
}

/// The catalog entry of a vision model id under the given prices.
pub open spec fn model_of(prices: Seq<PriceEntry>, id: Seq<char>) -> SfModelView {
    let p = price_of(prices, id);
    SfModelView {
        id,
        name: display_name(id),
        pricing: if p is None {
            PRICE_UNKNOWN@
        } else if free_price(p) {
            PRICE_FREE@
        } else {
            p->0.label@
        },
        modes: modes_of(id),
        input_price: if p is Some { p->0.input_price } else { 0 },
        output_price: if p is Some { p->0.output_price } else { 0 },
        free: free_price(p),
    }
}

/// The vision models among `ids`, in the order given.
pub open spec fn candidates(ids: Seq<Seq<char>>, prices: Seq<PriceEntry>) -> Seq<SfModelView>
    decreases ids.len(),
{
    if ids.len() == 0 {
        seq![]
    } else {
        let rest = candidates(ids.drop_last(), prices);
        if is_vision(ids.last()) {
            rest.push(model_of(prices, ids.last()))
        } else {
            rest
        }
    }
}

/// `a` ranks strictly before `b`: free models first, then the lower input price.
pub open spec fn ranks_before(a: SfModelView, b: SfModelView) -> bool {
    (a.free && !b.free) || (a.free == b.free && a.input_price < b.input_price)
}

/// No model is followed by one that ranks before it.
pub open spec fn ranked(s: Seq<SfModelView>) -> bool {
    forall|i: int, j: int| 0 <= i < j < s.len() ==> !ranks_before(#[trigger] s[j], #[trigger] s[i])
}

/// `x` put after every model of `s` that it does not rank before.
pub open spec fn insert_ranked(s: Seq<SfModelView>, x: SfModelView) -> Seq<SfModelView>
    decreases s.len(),
{
    if s.len() == 0 {
        seq![x]
    } else if ranks_before(x, s[0]) {
        seq![x] + s
    } else {
        seq![s[0]] + insert_ranked(s.drop_first(), x)
    }
}

/// Stable insertion sort by rank.
pub open spec fn rank_all(s: Seq<SfModelView>) -> Seq<SfModelView>
    decreases s.len(),
{
    if s.len() == 0 {
        s
    } else {
        insert_ranked(rank_all(s.drop_last()), s.last())
    }
}

/// The catalog for a list of model ids and a price list.
pub open spec fn catalog(ids: Seq<Seq<char>>, prices: Seq<PriceEntry>) -> Seq<SfModelView> {
    rank_all(candidates(ids, prices))
}

/// Where `insert_ranked` puts `x`: before the first model that `x` ranks before.
pub open spec fn insert_pos(s: Seq<SfModelView>, x: SfModelView) -> int
    decreases s.len(),
{
    if s.len() == 0 {
        0
    } else if ranks_before(x, s[0]) {
        0
    } else {
        1 + insert_pos(s.drop_first(), x)
    }
}

proof fn lemma_insert_pos(s: Seq<SfModelView>, x: SfModelView)
    ensures
        0 <= insert_pos(s, x) <= s.len(),
        forall|k: int| 0 <= k < insert_pos(s, x) ==> !ranks_before(x, #[trigger] s[k]),
        insert_pos(s, x) < s.len() ==> ranks_before(x, s[insert_pos(s, x)]),
        insert_ranked(s, x) == s.insert(insert_pos(s, x), x),
    decreases s.len(),
{
    if s.len() > 0 && !ranks_before(x, s[0]) {
        let t = s.drop_first();
        lemma_insert_pos(t, x);
        assert forall|k: int| 0 <= k < insert_pos(s, x) implies !ranks_before(x, #[trigger] s[k]) by {
            if k > 0 {
                assert(s[k] == t[k - 1]);
            }
        }
        assert(insert_ranked(s, x) =~= s.insert(insert_pos(s, x), x));
    } else if s.len() > 0 {
        assert(insert_ranked(s, x) =~= s.insert(0, x));
    } else {
        assert(insert_ranked(s, x) =~= s.insert(0, x));
    }
}

proof fn lemma_insert_keeps_rank(s: Seq<SfModelView>, x: SfModelView)
    requires
        ranked(s),
    ensures
        ranked(insert_ranked(s, x)),
{
    lemma_insert_pos(s, x);
    let p = insert_pos(s, x);
    let t = insert_ranked(s, x);
    assert forall|i: int, j: int| 0 <= i < j < t.len() implies !ranks_before(#[trigger] t[j], #[trigger] t[i]) by {
        if j < p {
            assert(t[i] == s[i] && t[j] == s[j]);
        } else if j == p {
            assert(t[i] == s[i]);
        } else if i < p {
            assert(t[i] == s[i] && t[j] == s[j - 1]);
        } else if i == p {
            assert(t[j] == s[j - 1]);
            assert(ranks_before(x, s[p]));
            if j - 1 > p {
                assert(!ranks_before(s[j - 1], s[p]));
            }
        } else {
            assert(t[i] == s[i - 1] && t[j] == s[j - 1]);
        }
    }
}

proof fn lemma_rank_all_ranked(s: Seq<SfModelView>)
    ensures
        ranked(rank_all(s)),
    decreases s.len(),
{
    if s.len() > 0 {
        lemma_rank_all_ranked(s.drop_last());
        lemma_insert_keeps_rank(rank_all(s.drop_last()), s.last());
    }
}

/// Ranking law of the catalog: a free model comes before every model that
/// is not free, and among models equally free the input price never falls.
pub proof fn lemma_catalog_ranked(ids: Seq<Seq<char>>, prices: Seq<PriceEntry>)
    ensures
        forall|i: int, j: int|
            0 <= i < catalog(ids, prices).len() && 0 <= j < catalog(ids, prices).len()
                && (#[trigger] catalog(ids, prices)[i]).free && !(#[trigger] catalog(ids, prices)[j]).free
                ==> i < j,
        forall|i: int, j: int|
            0 <= i < j < catalog(ids, prices).len()
                && (#[trigger] catalog(ids, prices)[i]).free == (#[trigger] catalog(ids, prices)[j]).free
                ==> catalog(ids, prices)[i].input_price <= catalog(ids, prices)[j].input_price,
{
    let c = catalog(ids, prices);
    lemma_rank_all_ranked(candidates(ids, prices));
    assert forall|i: int, j: int|
        0 <= i < c.len() && 0 <= j < c.len() && (#[trigger] c[i]).free && !(#[trigger] c[j]).free
        implies i < j by {
        if j < i {
            assert(!ranks_before(c[i], c[j]));
        }
    }
}

/// Repeatability of the catalog: the same model list and the same prices
/// give the same models, in the same order.
pub proof fn lemma_catalog_repeatable(
    ids1: Seq<Seq<char>>,
    prices1: Seq<PriceEntry>,
    ids2: Seq<Seq<char>>,
    prices2: Seq<PriceEntry>,
)
    requires
        ids1 == ids2,
        prices1 == prices2,
    ensures
        catalog(ids1, prices1) == catalog(ids2, prices2),
{
}

/// Index of the first price entry listed for `id`.
fn find_price(prices: &Vec<PriceEntry>, id: &str) -> (r: Option<usize>)
    ensures
        r is None ==> price_of(prices@, id@) is None,
        r is Some ==> r->0 < prices@.len() && price_of(prices@, id@) == Some(prices@[r->0 as int]),
{
    let n = prices.len();
    let mut i: usize = 0;
    assert(prices@.subrange(0, n as int) =~= prices@);
    while i < n
        invariant
            n == prices@.len(),
            i <= n,
            price_of(prices@, id@) == price_of(prices@.subrange(i as int, n as int), id@),
        decreases n - i,
    {
        assert(prices@.subrange(i as int, n as int).drop_first() =~= prices@.subrange(i + 1, n as int));
        if crate::text::same_text(prices[i].id.as_str(), id) {
            return Some(i);
        }
        i = i + 1;
    }
    None
}

fn text_modes(ocr_only: bool) -> (r: Vec<String>)
    ensures
        string_views(r@) == (if ocr_only { seq!["ocr"@] } else { seq!["formula"@, "ocr"@] }),
{
    let mut v: Vec<String> = Vec::new();
    if !ocr_only {
        v.push(String::from_str("formula"));
    }
    v.push(String::from_str("ocr"));
    proof {
        if ocr_only {
            assert(string_views(v@) =~= seq!["ocr"@]);
        } else {
            assert(string_views(v@) =~= seq!["formula"@, "ocr"@]);
        }
    }
    v
}

/// The catalog entry for one vision model id.
pub fn build_model(id: &str, prices: &Vec<PriceEntry>) -> (r: SfModel)
    ensures
        r@ == model_of(prices@, id@),
{
    let found = find_price(prices, id);
    let (input_price, output_price, free, pricing) = match found {
        None => (0u64, 0u64, false, String::from_str(PRICE_UNKNOWN)),
        Some(i) => {
            let e = &prices[i];
            let free = e.input_price == 0 && e.output_price == 0;
            let pricing = if free { String::from_str(PRICE_FREE) } else { e.label.clone() };
            (e.input_price, e.output_price, free, pricing)
        },
    };
    let r = SfModel {
        id: String::from_str(id),
        name: model_id_to_name(id),
        pricing,
        modes: text_modes(is_ocr_only_model(id)),
        input_price,
        output_price,
        free,
    };
    assert(r@.modes == modes_of(id@));
    assert(r@ == model_of(prices@, id@));
    r
}

fn rank_exec(a: &SfModel, b: &SfModel) -> (r: bool)
    ensures
        r == ranks_before(a@, b@),
{
    (a.free && !b.free) || (a.free == b.free && a.input_price < b.input_price)
}

/// Stable sort of models by rank: free first, then by input price.
pub fn rank_models(v: Vec<SfModel>) -> (r: Vec<SfModel>)
    ensures
        model_views(r@) == rank_all(model_views(v@)),
{
    let ghost orig = model_views(v@);
    let n = v.len();
    let mut rest = v;
    let mut out: Vec<SfModel> = Vec::new();
    let mut i: usize = 0;
    assert(orig.take(0) =~= seq![]);
    while i < n
        invariant
            n == orig.len(),
            i <= n,
            model_views(rest@) == orig.subrange(i as int, n as int),
            model_views(out@) == rank_all(orig.take(i as int)),
        decreases n - i,
    {
        assert(model_views(rest@).len() == rest@.len());
        assert(model_views(rest@)[0] == rest@[0]@);
        let ghost before = rest@;
        let x = rest.remove(0);
        assert forall|k: int| 0 <= k < rest@.len() implies #[trigger] rest@[k] == before[k + 1] by {}
        assert forall|k: int| 0 <= k < rest@.len() implies model_views(rest@)[k] == model_views(before)[k + 1] by {}
        assert(model_views(rest@) =~= orig.subrange(i + 1, n as int));
        let ghost s = model_views(out@);
        proof {
            lemma_insert_pos(s, x@);
        }
        let m = out.len();
        let mut p: usize = 0;
        while p < m && !rank_exec(&x, &out[p])
            invariant
                m == out@.len(),
                s == model_views(out@),
                p <= m,
                forall|k: int| 0 <= k < p ==> !ranks_before(x@, #[trigger] s[k]),
            decreases m - p,
        {
            assert(s[p as int] == out@[p as int]@);
            p = p + 1;
        }
        proof {
            if p < m {
                assert(s[p as int] == out@[p as int]@);
            }
            let q = insert_pos(s, x@);
            if q < p {
                assert(!ranks_before(x@, s[q]));
            }
            if p < q {
                assert(!ranks_before(x@, s[p as int]));
            }
            assert(p == q);
        }
        out.insert(p, x);
        proof {
            assert(model_views(out@) =~= s.insert(p as int, x@));
            assert(orig.take(i + 1).drop_last() =~= orig.take(i as int));
            assert(orig.take(i + 1).last() == x@);
        }
        i = i + 1;
    }
    assert(orig.take(n as int) =~= orig);
    out
}

/// The vision models among `ids`, in the order given, with their prices.
pub fn vision_candidates(ids: &Vec<String>, prices: &Vec<PriceEntry>) -> (r: Vec<SfModel>)
    ensures
        model_views(r@) == candidates(string_views(ids@), prices@),
{
    let ghost all = string_views(ids@);
    let n = ids.len();
    let mut out: Vec<SfModel> = Vec::new();
    let mut i: usize = 0;
    while i < n
        invariant
            n == ids@.len(),
            all == string_views(ids@),
            i <= n,
            model_views(out@) == candidates(all.take(i as int), prices@),
        decreases n - i,
    {
        let id = ids[i].as_str();
        proof {
            assert(all.take(i + 1).drop_last() =~= all.take(i as int));
            assert(all.take(i + 1).last() == id@);
        }
        if is_vision_model(id) {
            let m = build_model(id, prices);
            out.push(m);
            assert(model_views(out@) =~= candidates(all.take(i as int), prices@).push(m@));
        }
        i = i + 1;
    }
    assert(all.take(n as int) =~= all);
    out
}

/// The ranked vision models among `ids`, priced from `prices`.
pub fn vision_models(ids: &Vec<String>, prices: &Vec<PriceEntry>) -> (r: Vec<SfModel>)
    ensures
        model_views(r@) == catalog(string_views(ids@), prices@),
{
    rank_models(vision_candidates(ids, prices))
}

/// The string `id`s of the items of the `data` array of a model-list reply.
pub open spec fn ids_in(items: Seq<Json>) -> Seq<Seq<char>>
    decreases items.len(),
{
    if items.len() == 0 {
        seq![]
    } else {
        let prev = ids_in(items.drop_last());
        let id = text_at(items.last(), "id"@);
        if id is Some { prev.push(id->0) } else { prev }
    }
}

pub open spec fn ids_of(j: Json) -> Seq<Seq<char>> {
    match member(j, "data"@) {
        Some(Json::Array(items)) => ids_in(items@),
        _ => seq![],
    }
}

/// The model ids a model-list reply document names.
pub fn model_ids(j: &Json) -> (r: Vec<String>)
    ensures
        string_views(r@) == ids_of(*j),
{
    let mut out: Vec<String> = Vec::new();
    match get_member(j, "data") {
        Some(Json::Array(items)) => {
            let n = items.len();
            let mut i: usize = 0;
            while i < n
                invariant
                    n == items@.len(),
                    i <= n,
                    string_views(out@) == ids_in(items@.take(i as int)),
                decreases n - i,
            {
                assert(items@.take(i + 1).drop_last() =~= items@.take(i as int));
                if let Some(id) = text_member(&items[i], "id") {
                    let ghost before = out@;
                    out.push(id);
                    assert(string_views(out@) =~= string_views(before).push(id@));
                }
                i = i + 1;
            }
            assert(items@.take(n as int) =~= items@);
        },
        _ => {
            assert(string_views(out@) =~= seq![]);
        },
    }
    out
}

/// The model ids of a model-list reply: none without a key, without a
/// reply, or when the request failed; a body that is not JSON names no ids.
pub fn model_ids_from_reply(key: &str, reply: Option<&ReplyEvent>) -> (r: Option<Vec<String>>)
    ensures
        ({
            let good = key@.len() > 0 && reply is Some
                && (*reply->0 matches ReplyEvent::Answered { http_ok, .. } && http_ok);
            &&& !good ==> r is None
            &&& good ==> r is Some && (*reply->0 matches ReplyEvent::Answered { body, .. }
                && string_views(r->0@) == ids_of(doc_or_null(body@)))
        }),
{
    if key.unicode_len() == 0 {
        return None;
    }
    match reply {
        Some(ReplyEvent::Answered { http_ok, body, .. }) => {
            if !*http_ok {
                return None;
            }
            match parse_json(body.as_str()) {
                Ok(j) => Some(model_ids(&j)),
                Err(_) => {
                    let empty: Vec<String> = Vec::new();
                    assert(string_views(empty@) =~= seq![]);
                    Some(empty)
                },
            }
        },
        _ => None,
    }
}

/// The catalog from a model-list reply: empty when there is no key or the
/// request failed.
pub fn list_vision_models(key: &str, reply: &ReplyEvent, prices: &Vec<PriceEntry>) -> (r: Vec<SfModel>)
    ensures
        ({
            let good = key@.len() > 0 && (*reply matches ReplyEvent::Answered { http_ok, .. } && http_ok);
            &&& !good ==> r@.len() == 0
            &&& good ==> (*reply matches ReplyEvent::Answered { body, .. }
                && model_views(r@) == catalog(ids_of(doc_or_null(body@)), prices@))
        }),
{
    match model_ids_from_reply(key, Some(reply)) {
        Some(ids) => vision_models(&ids, prices),
        None => Vec::new(),
    }
}

} // verus!
