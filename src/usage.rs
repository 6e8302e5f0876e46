//! Daily usage counters per model. A record holds the counts of one local
//! date; on any other date it counts as empty.
use vstd::prelude::*;
use vstd::pervasive::VecAdditionalExecFns;
use crate::json::{get_member, parse_json, parsed_json, text_at, text_member, Json};
use crate::text::same_text;

verus! {

/// The stored counts (model id, uses) and the date (`YYYY-MM-DD`) they belong to.
pub struct UsageRecord {
    pub date: String,
    pub counts: Vec<(String, u32)>,
}

pub open spec fn entry_views(v: Seq<(String, u32)>) -> Seq<(Seq<char>, u32)> {
    v.map_values(|e: (String, u32)| (e.0@, e.1))
}

impl View for UsageRecord {
    type V = (Seq<char>, Seq<(Seq<char>, u32)>);

    open spec fn view(&self) -> (Seq<char>, Seq<(Seq<char>, u32)>) {
        (self.date@, entry_views(self.counts@))
    }
}

/// The count stored for `model` (the first entry for it), 0 if none.
pub open spec fn count_in(entries: Seq<(Seq<char>, u32)>, model: Seq<char>) -> u32
    decreases entries.len(),
{
    if entries.len() == 0 {
        0
    } else if entries[0].0 == model {
        entries[0].1
    } else {
        count_in(entries.drop_first(), model)
    }
}

/// One more use, held at the largest `u32`.
pub open spec fn one_more(c: u32) -> u32 {
    if c == u32::MAX { c } else { (c + 1) as u32 }
}

/// The entries after one use of `model`: its first entry goes up by one,
/// or a new entry with 1 is added at the end.
pub open spec fn bumped(entries: Seq<(Seq<char>, u32)>, model: Seq<char>) -> Seq<(Seq<char>, u32)>
    decreases entries.len(),
{
    if entries.len() == 0 {
        seq![(model, 1u32)]
    } else if entries[0].0 == model {
        seq![(model, one_more(entries[0].1))] + entries.drop_first()
    } else {
        seq![entries[0]] + bumped(entries.drop_first(), model)
    }
}

/// The count of `model` on `today` in a record.
pub open spec fn usage_on(rec: (Seq<char>, Seq<(Seq<char>, u32)>), today: Seq<char>, model: Seq<char>) -> u32 {
    if rec.0 == today { count_in(rec.1, model) } else { 0 }
}

/// A record after one use of `model` on `today`.
pub open spec fn after_use(rec: (Seq<char>, Seq<(Seq<char>, u32)>), today: Seq<char>, model: Seq<char>) -> (Seq<char>, Seq<(Seq<char>, u32)>) {
    if rec.0 == today { (today, bumped(rec.1, model)) } else { (today, seq![(model, 1u32)]) }
}

proof fn lemma_found(entries: Seq<(Seq<char>, u32)>, model: Seq<char>, k: int)
    requires
        0 <= k < entries.len(),
        entries[k].0 == model,
        forall|i: int| 0 <= i < k ==> entries[i].0 != model,
    ensures
        count_in(entries, model) == entries[k].1,
        bumped(entries, model) == entries.update(k, (model, one_more(entries[k].1))),
    decreases k,
{
    if k > 0 {
        let t = entries.drop_first();
        assert forall|i: int| 0 <= i < k - 1 implies t[i].0 != model by {
            assert(t[i] == entries[i + 1]);
        }
        lemma_found(t, model, k - 1);
        assert(bumped(entries, model) =~= entries.update(k, (model, one_more(entries[k].1))));
    } else {
        assert(bumped(entries, model) =~= entries.update(k, (model, one_more(entries[k].1))));
    }
}

proof fn lemma_absent(entries: Seq<(Seq<char>, u32)>, model: Seq<char>)
    requires
        forall|i: int| 0 <= i < entries.len() ==> entries[i].0 != model,
    ensures
        count_in(entries, model) == 0,
        bumped(entries, model) == entries.push((model, 1u32)),
    decreases entries.len(),
{
    if entries.len() > 0 {
        let t = entries.drop_first();
        assert forall|i: int| 0 <= i < t.len() implies t[i].0 != model by {
            assert(t[i] == entries[i + 1]);
        }
        lemma_absent(t, model);
        assert(bumped(entries, model) =~= entries.push((model, 1u32)));
    } else {
        assert(bumped(entries, model) =~= entries.push((model, 1u32)));
    }
}

impl UsageRecord {
    /// A record with no date and no counts.
    pub fn empty() -> (r: UsageRecord)
        ensures
            r@.0.len() == 0,
            r@.1.len() == 0,
    {
        UsageRecord { date: String::new(), counts: Vec::new() }
    }

    /// Index of the first entry for `model`.
    fn find(&self, model: &str) -> (r: Option<usize>)
        ensures
            r is None ==> forall|i: int| 0 <= i < self@.1.len() ==> self@.1[i].0 != model@,
            r is Some ==> r->0 < self@.1.len() && self@.1[r->0 as int].0 == model@
                && forall|i: int| 0 <= i < r->0 ==> self@.1[i].0 != model@,
    {
        let n = self.counts.len();
        let mut i: usize = 0;
        while i < n
            invariant
                n == self@.1.len(),
                i <= n,
                forall|k: int| 0 <= k < i ==> self@.1[k].0 != model@,
            decreases n - i,
        {
            if same_text(self.counts[i].0.as_str(), model) {
                return Some(i);
            }
            i = i + 1;
        }
        None
    }

    /// Uses of `model` on `today`: 0 when the record holds another date.
    pub fn usage_today(&self, today: &str, model: &str) -> (r: u32)
        ensures
            r == usage_on(self@, today@, model@),
    {
        if !same_text(self.date.as_str(), today) {
            return 0;
        }
        match self.find(model) {
            Some(k) => {
                proof {
                    lemma_found(self@.1, model@, k as int);
                }
                self.counts[k].1
            },
            None => {
                proof {
                    lemma_absent(self@.1, model@);
                }
                0
            },
        }
    }

    /// Counts one use of `model` on `today`; a record of another date starts afresh.
    pub fn increment(&mut self, today: &str, model: &str)
        ensures
            final(self)@ == after_use(old(self)@, today@, model@),
    {
        if !same_text(self.date.as_str(), today) {
            self.date = String::from_str(today);
            self.counts = Vec::new();
            self.counts.push((String::from_str(model), 1u32));
            assert(self@.1 =~= seq![(model@, 1u32)]);
            return;
        }
        let ghost before = self@.1;
        match self.find(model) {
            Some(k) => {
                proof {
                    lemma_found(before, model@, k as int);
                }
                let c = self.counts[k].1;
                let next: u32 = if c == u32::MAX { c } else { c + 1 };
                self.counts.set(k, (String::from_str(model), next));
                assert(self@.1 =~= before.update(k as int, (model@, one_more(before[k as int].1))));
            },
            None => {
                proof {
                    lemma_absent(before, model@);
                }
                self.counts.push((String::from_str(model), 1u32));
                assert(self@.1 =~= before.push((model@, 1u32)));
            },
        }
    }
}

/// Relies on chrono's `Local::now`, formatted as `%Y-%m-%d`: today's date
/// in the local time zone. Nothing is claimed of its value.
#[verifier::external_body]
fn local_today() -> (r: String) {
    chrono::Local::now().format("%Y-%m-%d").to_string()
}

impl UsageRecord {
    /// Uses of `model` today, by the local clock.
    pub fn usage_now(&self, model: &str) -> (r: u32)
        ensures
            exists|today: Seq<char>| r == usage_on(self@, today, model@),
    {
        let today = local_today();
        self.usage_today(today.as_str(), model)
    }

    /// Counts one use of `model` today, by the local clock.
    pub fn increment_now(&mut self, model: &str)
        ensures
            exists|today: Seq<char>| final(self)@ == after_use(old(self)@, today, model@),
    {
        let today = local_today();
        self.increment(today.as_str(), model);
    }
}

/// Stale-date law: on a date other than the record's, the usage of any
/// model reads 0, and one use leaves exactly that model at 1 under today's date.
pub proof fn lemma_stale_date_resets(rec: (Seq<char>, Seq<(Seq<char>, u32)>), today: Seq<char>, model: Seq<char>)
    requires
        rec.0 != today,
    ensures
        usage_on(rec, today, model) == 0,
        after_use(rec, today, model) == (today, seq![(model, 1u32)]),
{
}

/// A stored count: an unsigned integer cut to 32 bits, anything else 0.
pub open spec fn count_value(j: Json) -> u32 {
    match j {
        Json::Number(Some(n)) => n as u32,
        _ => 0,
    }
}

pub open spec fn counts_of(fields: Seq<(String, Json)>) -> Seq<(Seq<char>, u32)> {
    fields.map_values(|f: (String, Json)| (f.0@, count_value(f.1)))
}

/// The record that a stored JSON document holds: its `date` string and
/// the members of its `models` object.
pub open spec fn usage_of_json(j: Json) -> (Seq<char>, Seq<(Seq<char>, u32)>) {
    (
        if text_at(j, "date"@) is Some { text_at(j, "date"@)->0 } else { seq![] },
        match crate::json::member(j, "models"@) {
            Some(Json::Object { fields, .. }) => counts_of(fields@),
            _ => seq![],
        },
    )
}

pub fn usage_from_json(j: &Json) -> (r: UsageRecord)
    ensures
        r@ == usage_of_json(*j),
{
    let date = match text_member(j, "date") {
        Some(d) => d,
        None => String::new(),
    };
    let mut counts: Vec<(String, u32)> = Vec::new();
    match get_member(j, "models") {
        Some(Json::Object { fields, .. }) => {
            let n = fields.len();
            let mut i: usize = 0;
            while i < n
                invariant
                    n == fields@.len(),
                    i <= n,
                    entry_views(counts@) == counts_of(fields@.take(i as int)),
                decreases n - i,
            {
                let c: u32 = match &fields[i].1 {
                    Json::Number(Some(v)) => #[verifier::truncate] (*v as u32),
                    _ => 0,
                };
                assert(c == count_value(fields@[i as int].1));
                let name = fields[i].0.clone();
                let ghost before = counts@;
                counts.push((name, c));
                assert(counts@ == before.push((name, c)));
                assert(fields@.take(i + 1) =~= fields@.take(i as int).push(fields@[i as int]));
                assert(entry_views(counts@) =~= entry_views(before).push((name@, c)));
                assert(counts_of(fields@.take(i + 1)) =~= counts_of(fields@.take(i as int)).push(
                    (fields@[i as int].0@, count_value(fields@[i as int].1)),
                ));
                assert(entry_views(counts@) =~= counts_of(fields@.take(i + 1)));
                i = i + 1;
            }
            assert(fields@.take(n as int) =~= fields@);
        },
        _ => {
            assert(entry_views(counts@) =~= seq![]);
        },
    }
    UsageRecord { date, counts }
}

/// The record stored as JSON text; an unreadable text holds an empty record.
pub fn usage_from_text(text: &str) -> (r: UsageRecord)
    ensures
        parsed_json(text@) is Some ==> r@ == usage_of_json(parsed_json(text@)->0),
        parsed_json(text@) is None ==> r@.0.len() == 0 && r@.1.len() == 0,
{
    match parse_json(text) {
        Ok(j) => usage_from_json(&j),
        Err(_) => UsageRecord::empty(),
    }
}

} // verus!
