//! The counter metric instrument, as thin glue over the external
//! key/value metric storage service and the diagnostic error sink.
//!
//! The storage service is modeled as an in-memory store holding scalar
//! counter values by metric identifier, together with the error sink's
//! per-metric diagnostic counts.

use vstd::prelude::*;
use vstd::string::StringExecFns;

verus! {

/// The type of an invalid-usage diagnostic recorded through the error
/// sink.
#[derive(Clone, Copy, PartialEq, Eq, Structural, Debug)]
pub enum ErrorType {
    /// A value was rejected, such as a negative amount added to a counter.
    InvalidValue,
    /// A label was rejected.
    InvalidLabel,
    /// An operation arrived in a state that does not admit it.
    InvalidState,
    /// A value exceeded its representable range.
    InvalidOverflow,
}

/// Lifetime of a metric's stored value.
#[derive(Clone, Copy, PartialEq, Eq, Structural, Debug)]
pub enum Lifetime {
    /// Cleared when the ping holding the metric is submitted.
    Ping,
    /// Cleared when the application restarts.
    Application,
    /// Never cleared automatically.
    User,
}

/// The common set of data shared by all metric instruments.
#[derive(Clone, Debug)]
pub struct CommonMetricData {
    pub name: String,
    pub category: String,
    pub send_in_pings: Vec<String>,
    pub lifetime: Lifetime,
    pub disabled: bool,
    pub dynamic_label: Option<String>,
}

impl CommonMetricData {
    /// The base identifier of this metric, ignoring any dynamic label:
    /// the category and name joined by a dot, or the bare name when the
    /// category is empty. Diagnostics are aggregated under it.
    pub open spec fn spec_base_identifier(self) -> Seq<char> {
        if self.category@.len() == 0 {
            self.name@
        } else {
            self.category@ + "."@ + self.name@
        }
    }

    /// The identifier under which this metric's values are stored: the
    /// base identifier, qualified by the dynamic label when one is set.
    pub open spec fn spec_identifier(self) -> Seq<char> {
        match self.dynamic_label {
            Some(l) => self.spec_base_identifier() + "/"@ + l@,
            None => self.spec_base_identifier(),
        }
    }

    /// The base identifier of this metric, ignoring any dynamic label.
    pub fn base_identifier(&self) -> (r: String)
        ensures
            r@ == self.spec_base_identifier(),
    {
        if self.category.as_str().is_empty() {
            self.name.clone()
        } else {
            let mut s = self.category.clone();
            s.append(".");
            s.append(self.name.as_str());
            s
        }
    }

    /// The identifier under which this metric's values are stored.
    pub fn identifier(&self) -> (r: String)
        ensures
            r@ == self.spec_identifier(),
    {
        let base = self.base_identifier();
        match &self.dynamic_label {
            Some(l) => {
                let mut s = base;
                s.append("/");
                s.append(l.as_str());
                s
            },
            None => base,
        }
    }
}

impl Default for CommonMetricData {
    /// Empty names, recorded into no pings, with ping lifetime, enabled,
    /// and without a dynamic label.
    fn default() -> (r: Self)
        ensures
            r.name@ == Seq::<char>::empty(),
            r.category@ == Seq::<char>::empty(),
            r.send_in_pings@ == Seq::<String>::empty(),
            r.lifetime == Lifetime::Ping,
            !r.disabled,
            r.dynamic_label is None,
    {
        CommonMetricData {
            name: String::new(),
            category: String::new(),
            send_in_pings: Vec::new(),
            lifetime: Lifetime::Ping,
            disabled: false,
            dynamic_label: None,
        }
    }
}

fn clone_string_vec(v: &Vec<String>) -> (r: Vec<String>)
    ensures
        r@ == v@,
{
    let mut out: Vec<String> = Vec::new();
    let mut i: usize = 0;
    while i < v.len()
        invariant
            i <= v@.len(),
            out@ == v@.take(i as int),
        decreases v@.len() - i,
    {
        out.push(v[i].clone());
        proof {
            assert(out@ =~= v@.take(i as int + 1));
        }
        i += 1;
    }
    proof {
        assert(v@.take(v@.len() as int) =~= v@);
    }
    out
}

fn clone_opt_string(o: &Option<String>) -> (r: Option<String>)
    ensures
        r == *o,
{
    match o {
        Some(s) => Some(s.clone()),
        None => None,
    }
}

fn clone_common(meta: &CommonMetricData) -> (r: CommonMetricData)
    ensures
        r.name == meta.name,
        r.category == meta.category,
        r.send_in_pings@ == meta.send_in_pings@,
        r.lifetime == meta.lifetime,
        r.disabled == meta.disabled,
        r.dynamic_label == meta.dynamic_label,
{
    CommonMetricData {
        name: meta.name.clone(),
        category: meta.category.clone(),
        send_in_pings: clone_string_vec(&meta.send_in_pings),
        lifetime: meta.lifetime,
        disabled: meta.disabled,
        dynamic_label: clone_opt_string(&meta.dynamic_label),
    }
}

/// One stored counter value.
#[derive(Clone, Debug)]
struct CounterEntry {
    name: String,
    value: i32,
}

/// One diagnostic count held by the error sink.
#[derive(Clone, Debug)]
struct ErrorEntry {
    name: String,
    error: ErrorType,
    count: i32,
}

/// The counter value stored under `name`, scanning from the most recently
/// written entry.
spec fn spec_counters_get(s: Seq<CounterEntry>, name: Seq<char>) -> Option<i32>
    decreases s.len(),
{
    if s.len() == 0 {
        None
    } else if s.last().name@ == name {
        Some(s.last().value)
    } else {
        spec_counters_get(s.drop_last(), name)
    }
}

/// The diagnostic count stored under `name` and `error`, scanning from
/// the most recently written entry.
spec fn spec_errors_get(s: Seq<ErrorEntry>, name: Seq<char>, error: ErrorType) -> Option<i32>
    decreases s.len(),
{
    if s.len() == 0 {
        None
    } else if s.last().name@ == name && s.last().error == error {
        Some(s.last().count)
    } else {
        spec_errors_get(s.drop_last(), name, error)
    }
}

proof fn lemma_counters_get_remove(s: Seq<CounterEntry>, i: int, k: Seq<char>)
    requires
        0 <= i < s.len(),
        s[i].name@ != k,
    ensures
        spec_counters_get(s.remove(i), k) == spec_counters_get(s, k),
    decreases s.len(),
{
    s.remove_ensures(i);
    if i == s.len() - 1 {
        assert(s.remove(i) =~= s.drop_last());
    } else {
        assert(s.remove(i)[s.len() - 2] == s[s.len() - 1]);
        assert(s.remove(i).last() == s.last());
        assert(s.remove(i).drop_last() =~= s.drop_last().remove(i));
        lemma_counters_get_remove(s.drop_last(), i, k);
    }
}

proof fn lemma_errors_get_remove(s: Seq<ErrorEntry>, i: int, k: Seq<char>, e: ErrorType)
    requires
        0 <= i < s.len(),
        !(s[i].name@ == k && s[i].error == e),
    ensures
        spec_errors_get(s.remove(i), k, e) == spec_errors_get(s, k, e),
    decreases s.len(),
{
    s.remove_ensures(i);
    if i == s.len() - 1 {
        assert(s.remove(i) =~= s.drop_last());
    } else {
        assert(s.remove(i)[s.len() - 2] == s[s.len() - 1]);
        assert(s.remove(i).last() == s.last());
        assert(s.remove(i).drop_last() =~= s.drop_last().remove(i));
        lemma_errors_get_remove(s.drop_last(), i, k, e);
    }
}

/// An in-memory image of the external key/value metric storage service:
/// scalar counter values by metric identifier, and the diagnostic error
/// sink's counts by metric identifier and error type.
#[derive(Clone, Debug)]
pub struct MetricStore {
    counters: Vec<CounterEntry>,
    errors: Vec<ErrorEntry>,
}

/// Incrementing a diagnostic count never overflows: it sticks at the
/// largest representable value.
pub open spec fn spec_saturating_incr(c: int) -> int {
    if c < i32::MAX {
        c + 1
    } else {
        c
    }
}

/// Adding a positive amount to a counter never overflows: it sticks at
/// the largest representable value.
pub open spec fn spec_saturating_add(v: int, amount: int) -> int {
    if v + amount > i32::MAX {
        i32::MAX as int
    } else {
        v + amount
    }
}

impl MetricStore {
    /// Counter identifiers are pairwise distinct, as are the identifier
    /// and error-type pairs of the recorded diagnostics.
    pub closed spec fn wf(self) -> bool {
        &&& forall|a: int, b: int|
            0 <= a < b < self.counters@.len() ==> self.counters@[a].name@
                != self.counters@[b].name@
        &&& forall|a: int, b: int|
            0 <= a < b < self.errors@.len() ==> !(self.errors@[a].name@
                == self.errors@[b].name@ && self.errors@[a].error == self.errors@[b].error)
    }

    /// The counter value stored under `name`, if any.
    pub closed spec fn spec_counter(self, name: Seq<char>) -> Option<i32> {
        spec_counters_get(self.counters@, name)
    }

    /// The diagnostic count recorded under `name` and `error`; zero when
    /// none was recorded.
    pub closed spec fn spec_error_count(self, name: Seq<char>, error: ErrorType) -> int {
        match spec_errors_get(self.errors@, name, error) {
            Some(c) => c as int,
            None => 0,
        }
    }

    /// An empty store: no counter values, no recorded diagnostics.
    pub fn new() -> (r: MetricStore)
        ensures
            r.wf(),
            forall|k: Seq<char>| r.spec_counter(k) is None,
            forall|k: Seq<char>, e: ErrorType| r.spec_error_count(k, e) == 0,
    {
        MetricStore { counters: Vec::new(), errors: Vec::new() }
    }

    fn find_counter(&self, name: &String) -> (r: Option<usize>)
        ensures
            r matches Some(i) ==> i < self.counters@.len() && self.counters@[i as int].name@
                == name@,
            r is None ==> forall|i: int|
                0 <= i < self.counters@.len() ==> self.counters@[i].name@ != name@,
    {
        let mut i: usize = 0;
        while i < self.counters.len()
            invariant
                i <= self.counters@.len(),
                forall|j: int| 0 <= j < i ==> self.counters@[j].name@ != name@,
            decreases self.counters@.len() - i,
        {
            if self.counters[i].name == *name {
                return Some(i);
            }
            i += 1;
        }
        None
    }

    fn find_error(&self, name: &String, error: ErrorType) -> (r: Option<usize>)
        ensures
            r matches Some(i) ==> i < self.errors@.len() && self.errors@[i as int].name@ == name@
                && self.errors@[i as int].error == error,
            r is None ==> forall|i: int|
                0 <= i < self.errors@.len() ==> !(self.errors@[i].name@ == name@
                    && self.errors@[i].error == error),
    {
        let mut i: usize = 0;
        while i < self.errors.len()
            invariant
                i <= self.errors@.len(),
                forall|j: int|
                    0 <= j < i ==> !(self.errors@[j].name@ == name@ && self.errors@[j].error
                        == error),
            decreases self.errors@.len() - i,
        {
            if self.errors[i].name == *name && self.errors[i].error == error {
                return Some(i);
            }
            i += 1;
        }
        None
    }

    /// Stores `value` under `name`, replacing any previous value.
    fn set_counter(&mut self, name: String, value: i32)
        requires
            old(self).wf(),
        ensures
            final(self).wf(),
            final(self).spec_counter(name@) == Some(value),
            forall|k: Seq<char>|
                k != name@ ==> final(self).spec_counter(k) == old(self).spec_counter(k),
            final(self).errors == old(self).errors,
    {
        let ghost c0 = self.counters@;
        let ghost nview = name@;
        let found = self.find_counter(&name);
        match found {
            Some(i) => {
                self.counters.remove(i);
                proof {
                    assert forall|k: Seq<char>| k != nview implies spec_counters_get(
                        self.counters@,
                        k,
                    ) == spec_counters_get(c0, k) by {
                        lemma_counters_get_remove(c0, i as int, k);
                    }
                }
            },
            None => {},
        }
        let ghost c1 = self.counters@;
        self.counters.push(CounterEntry { name, value });
        proof {
            assert(self.counters@.drop_last() =~= c1);
            assert forall|k: Seq<char>| k != nview implies spec_counters_get(self.counters@, k)
                == spec_counters_get(c0, k) by {
                assert(spec_counters_get(self.counters@, k) == spec_counters_get(c1, k));
            }
        }
    }

    /// Records one diagnostic of the given type against `name` through
    /// the error sink; the count saturates rather than overflowing.
    fn record_error(&mut self, name: String, error: ErrorType)
        requires
            old(self).wf(),
        ensures
            final(self).wf(),
            final(self).spec_error_count(name@, error) == spec_saturating_incr(
                old(self).spec_error_count(name@, error),
            ),
            forall|k: Seq<char>, e: ErrorType|
                !(k == name@ && e == error) ==> final(self).spec_error_count(k, e) == old(
                    self,
                ).spec_error_count(k, e),
            final(self).counters == old(self).counters,
    {
        let ghost s0 = self.errors@;
        let ghost nview = name@;
        let found = self.find_error(&name, error);
        let count: i32 = match found {
            Some(i) => {
                let c = self.errors[i].count;
                proof {
                    lemma_errors_get_at(self.errors@, i as int, nview, error);
                }
                self.errors.remove(i);
                proof {
                    assert forall|k: Seq<char>, e: ErrorType| !(k == nview && e == error) implies
                        spec_errors_get(self.errors@, k, e) == spec_errors_get(s0, k, e) by {
                        lemma_errors_get_remove(s0, i as int, k, e);
                    }
                }
                if c < i32::MAX {
                    c + 1
                } else {
                    c
                }
            },
            None => {
                proof {
                    lemma_errors_get_absent(self.errors@, nview, error);
                }
                1
            },
        };
        let ghost s1 = self.errors@;
        self.errors.push(ErrorEntry { name, error, count });
        proof {
            assert(self.errors@.drop_last() =~= s1);
            assert forall|k: Seq<char>, e: ErrorType| !(k == nview && e == error) implies
                spec_errors_get(self.errors@, k, e) == spec_errors_get(s0, k, e) by {
                assert(spec_errors_get(self.errors@, k, e) == spec_errors_get(s1, k, e));
            }
        }
    }
}

/// A counter metric.
///
/// Used to count things. The value can only be incremented, never
/// decremented.
#[derive(Clone, Debug)]
pub struct CounterMetric {
    pub meta: CommonMetricData,
}

impl CounterMetric {
    /// Creates a new counter metric.
    pub fn new(meta: CommonMetricData) -> (r: Self)
        ensures
            r.meta == meta,
    {
        CounterMetric { meta }
    }

    /// Creates a new metric sharing this metric's common data, under
    /// another name.
    pub fn with_name(&self, name: String) -> (r: Self)
        ensures
            r.meta.name == name,
            r.meta.category == self.meta.category,
            r.meta.send_in_pings@ == self.meta.send_in_pings@,
            r.meta.lifetime == self.meta.lifetime,
            r.meta.disabled == self.meta.disabled,
            r.meta.dynamic_label == self.meta.dynamic_label,
    {
        let mut meta = clone_common(&self.meta);
        meta.name = name;
        CounterMetric { meta }
    }

    /// Creates a new metric sharing this metric's common data, recording
    /// under the given dynamic label.
    pub fn with_dynamic_label(&self, label: String) -> (r: Self)
        ensures
            r.meta.dynamic_label == Some(label),
            r.meta.name == self.meta.name,
            r.meta.category == self.meta.category,
            r.meta.send_in_pings@ == self.meta.send_in_pings@,
            r.meta.lifetime == self.meta.lifetime,
            r.meta.disabled == self.meta.disabled,
    {
        let mut meta = clone_common(&self.meta);
        meta.dynamic_label = Some(label);
        CounterMetric { meta }
    }

    /// Increases the counter by `amount` synchronously.
    ///
    /// A disabled metric records nothing. A negative amount records an
    /// invalid-value diagnostic through the error sink and leaves the
    /// counter untouched; a zero amount is silently ignored. A positive
    /// amount is added to the stored value, saturating at the largest
    /// representable value, and starts the counter at `amount` when no
    /// value was stored yet.
    pub fn add_sync(&self, store: &mut MetricStore, amount: i32)
        requires
            old(store).wf(),
        ensures
            final(store).wf(),
            ({
                let cid = self.meta.spec_identifier();
                let bid = self.meta.spec_base_identifier();
                &&& (self.meta.disabled ==> *final(store) == *old(store))
                &&& (!self.meta.disabled && amount == 0 ==> *final(store) == *old(store))
                &&& (!self.meta.disabled && amount < 0 ==> {
                    &&& forall|k: Seq<char>|
                        final(store).spec_counter(k) == old(store).spec_counter(k)
                    &&& final(store).spec_error_count(bid, ErrorType::InvalidValue)
                        == spec_saturating_incr(
                        old(store).spec_error_count(bid, ErrorType::InvalidValue),
                    )
                    &&& forall|k: Seq<char>, e: ErrorType|
                        !(k == bid && e == ErrorType::InvalidValue)
                            ==> final(store).spec_error_count(k, e)
                            == old(store).spec_error_count(k, e)
                })
                &&& (!self.meta.disabled && amount > 0 ==> {
                    &&& forall|k: Seq<char>, e: ErrorType|
                        final(store).spec_error_count(k, e) == old(store).spec_error_count(k, e)
                    &&& final(store).spec_counter(cid) == Some(
                        (match old(store).spec_counter(cid) {
                            Some(v) => spec_saturating_add(v as int, amount as int),
                            None => amount as int,
                        }) as i32,
                    )
                    &&& forall|k: Seq<char>|
                        k != cid ==> final(store).spec_counter(k) == old(store).spec_counter(k)
                })
            }),
    {
        if self.meta.disabled {
            return ;
        }
        if amount < 0 {
            self.record_invalid_amount(store);
            return ;
        }
        if amount == 0 {
            return ;
        }
        let id = self.meta.identifier();
        let current = store.find_counter(&id);
        let new_value: i32 = match current {
            Some(i) => {
                let v = store.counters[i].value;
                proof {
                    lemma_counters_get_at_counter(store.counters@, i as int, id@);
                }
                if v > i32::MAX - amount {
                    i32::MAX
                } else {
                    v + amount
                }
            },
            None => {
                proof {
                    lemma_counters_get_absent(store.counters@, id@);
                }
                amount
            },
        };
        store.set_counter(id, new_value);
    }

    fn record_invalid_amount(&self, store: &mut MetricStore)
        requires
            old(store).wf(),
        ensures
            final(store).wf(),
            ({
                let id = self.meta.spec_base_identifier();
                &&& forall|k: Seq<char>|
                    final(store).spec_counter(k) == old(store).spec_counter(k)
                &&& final(store).spec_error_count(id, ErrorType::InvalidValue)
                    == spec_saturating_incr(
                    old(store).spec_error_count(id, ErrorType::InvalidValue),
                )
                &&& forall|k: Seq<char>, e: ErrorType|
                    !(k == id && e == ErrorType::InvalidValue)
                        ==> final(store).spec_error_count(k, e)
                        == old(store).spec_error_count(k, e)
            }),
    {
        let id = self.meta.base_identifier();
        store.record_error(id, ErrorType::InvalidValue);
    }

    /// Increases the counter by `amount`.
    ///
    /// The embedding application's dispatcher normally defers this call
    /// to its worker; the library itself applies it to the store at once.
    /// Records an invalid-value diagnostic if `amount` is negative, and
    /// silently ignores zero.
    pub fn add(&self, store: &mut MetricStore, amount: i32)
        requires
            old(store).wf(),
        ensures
            final(store).wf(),
            ({
                let cid = self.meta.spec_identifier();
                let bid = self.meta.spec_base_identifier();
                &&& (self.meta.disabled ==> *final(store) == *old(store))
                &&& (!self.meta.disabled && amount == 0 ==> *final(store) == *old(store))
                &&& (!self.meta.disabled && amount < 0 ==> {
                    &&& forall|k: Seq<char>|
                        final(store).spec_counter(k) == old(store).spec_counter(k)
                    &&& final(store).spec_error_count(bid, ErrorType::InvalidValue)
                        == spec_saturating_incr(
                        old(store).spec_error_count(bid, ErrorType::InvalidValue),
                    )
                    &&& forall|k: Seq<char>, e: ErrorType|
                        !(k == bid && e == ErrorType::InvalidValue)
                            ==> final(store).spec_error_count(k, e)
                            == old(store).spec_error_count(k, e)
                })
                &&& (!self.meta.disabled && amount > 0 ==> {
                    &&& forall|k: Seq<char>, e: ErrorType|
                        final(store).spec_error_count(k, e) == old(store).spec_error_count(k, e)
                    &&& final(store).spec_counter(cid) == Some(
                        (match old(store).spec_counter(cid) {
                            Some(v) => spec_saturating_add(v as int, amount as int),
                            None => amount as int,
                        }) as i32,
                    )
                    &&& forall|k: Seq<char>|
                        k != cid ==> final(store).spec_counter(k) == old(store).spec_counter(k)
                })
            }),
    {
        self.add_sync(store, amount)
    }

    /// Gets the currently stored value.
    ///
    /// The storage service is modeled as one flat store keyed by metric
    /// identifier, so the queried ping name does not narrow the lookup.
    #[allow(unused_variables)]
    pub fn get_value(&self, store: &MetricStore, ping_name: Option<&str>) -> (r: Option<i32>)
        requires
            store.wf(),
        ensures
            r == store.spec_counter(self.meta.spec_identifier()),
    {
        let id = self.meta.identifier();
        let found = store.find_counter(&id);
        match found {
            Some(i) => {
                proof {
                    lemma_counters_get_at_counter(store.counters@, i as int, id@);
                }
                Some(store.counters[i].value)
            },
            None => {
                proof {
                    lemma_counters_get_absent(store.counters@, id@);
                }
                None
            },
        }
    }

    /// Gets the number of diagnostics recorded against this metric for
    /// the given error type.
    pub fn test_get_num_recorded_errors(&self, store: &MetricStore, error: ErrorType) -> (r: i32)
        requires
            store.wf(),
        ensures
            r == store.spec_error_count(self.meta.spec_base_identifier(), error),
    {
        let id = self.meta.base_identifier();
        let found = store.find_error(&id, error);
        match found {
            Some(i) => {
                proof {
                    lemma_errors_get_at(store.errors@, i as int, id@, error);
                }
                store.errors[i].count
            },
            None => {
                proof {
                    lemma_errors_get_absent(store.errors@, id@, error);
                }
                0
            },
        }
    }
}

proof fn lemma_counters_get_at_counter(s: Seq<CounterEntry>, i: int, k: Seq<char>)
    requires
        0 <= i < s.len(),
        s[i].name@ == k,
        forall|a: int, b: int| 0 <= a < b < s.len() ==> s[a].name@ != s[b].name@,
    ensures
        spec_counters_get(s, k) == Some(s[i].value),
    decreases s.len(),
{
    if i == s.len() - 1 {
        assert(s.last().name@ == k);
    } else {
        assert(s[i].name@ != s[s.len() - 1].name@);
        assert(forall|a: int, b: int|
            0 <= a < b < s.drop_last().len() ==> s.drop_last()[a].name@
                != s.drop_last()[b].name@);
        lemma_counters_get_at_counter(s.drop_last(), i, k);
    }
}

proof fn lemma_counters_get_absent(s: Seq<CounterEntry>, k: Seq<char>)
    requires
        forall|i: int| 0 <= i < s.len() ==> s[i].name@ != k,
    ensures
        spec_counters_get(s, k) is None,
    decreases s.len(),
{
    if s.len() > 0 {
        assert(s[s.len() - 1].name@ != k);
        lemma_counters_get_absent(s.drop_last(), k);
    }
}

proof fn lemma_errors_get_at(s: Seq<ErrorEntry>, i: int, k: Seq<char>, e: ErrorType)
    requires
        0 <= i < s.len(),
        s[i].name@ == k,
        s[i].error == e,
        forall|a: int, b: int|
            0 <= a < b < s.len() ==> !(s[a].name@ == s[b].name@ && s[a].error == s[b].error),
    ensures
        spec_errors_get(s, k, e) == Some(s[i].count),
    decreases s.len(),
{
    if i == s.len() - 1 {
        assert(s.last().name@ == k && s.last().error == e);
    } else {
        assert(!(s[i].name@ == s[s.len() - 1].name@ && s[i].error == s[s.len() - 1].error));
        assert(forall|a: int, b: int|
            0 <= a < b < s.drop_last().len() ==> !(s.drop_last()[a].name@
                == s.drop_last()[b].name@ && s.drop_last()[a].error == s.drop_last()[b].error));
        lemma_errors_get_at(s.drop_last(), i, k, e);
    }
}

proof fn lemma_errors_get_absent(s: Seq<ErrorEntry>, k: Seq<char>, e: ErrorType)
    requires
        forall|i: int| 0 <= i < s.len() ==> !(s[i].name@ == k && s[i].error == e),
    ensures
        spec_errors_get(s, k, e) is None,
    decreases s.len(),
{
    if s.len() > 0 {
        assert(!(s[s.len() - 1].name@ == k && s[s.len() - 1].error == e));
        lemma_errors_get_absent(s.drop_last(), k, e);
    }
}

} // verus!
