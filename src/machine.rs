use vstd::prelude::*;

verus! {

/// A field value held by a checked builder.
#[derive(Debug, PartialEq)]
pub enum Value {
    Unit,
    Bool(bool),
    Int(u64),
    Text(String),
    /// The fields of a record, in declaration order.
    Record(Vec<Value>),
}

/// The state of one field slot: unset (carrying the field's default, if it
/// has one) or set to a value.
#[derive(Debug, PartialEq)]
pub enum Slot {
    Unset(Option<Value>),
    Filled(Value),
}

/// Why an operation of a checked builder is not applicable.
#[derive(Debug, PartialEq, Eq)]
pub enum BuildError {
    /// The builder has no field at this position.
    NoSuchField(usize),
    /// The field at this position was already set.
    AlreadySet(usize),
    /// The field at this position is unset and has no default.
    Missing(usize),
}

/// A slot that can be resolved when the builder finishes.
pub open spec fn ready(s: Slot) -> bool {
    match s {
        Slot::Filled(_) => true,
        Slot::Unset(d) => d is Some,
    }
}

/// The value a ready slot resolves to: the supplied value, else the default.
pub open spec fn resolve(s: Slot) -> Value
    recommends
        ready(s),
{
    match s {
        Slot::Filled(v) => v,
        Slot::Unset(d) => d->Some_0,
    }
}

pub open spec fn all_ready(s: Seq<Slot>) -> bool {
    forall|j: int| 0 <= j < s.len() ==> ready(#[trigger] s[j])
}

/// The first slot that cannot be resolved.
pub open spec fn is_first_missing(s: Seq<Slot>, j: int) -> bool {
    &&& 0 <= j < s.len()
    &&& !ready(s[j])
    &&& forall|k: int| 0 <= k < j ==> ready(#[trigger] s[k])
}

pub open spec fn resolved(s: Seq<Slot>) -> Seq<Value> {
    s.map_values(|x: Slot| resolve(x))
}

/// The slots of a fresh builder: every field unset.
pub open spec fn unset_slots(defaults: Seq<Option<Value>>) -> Seq<Slot> {
    defaults.map_values(|d: Option<Value>| Slot::Unset(d))
}

/// The slots after setting field `i` to `v`.
pub open spec fn set_slot(s: Seq<Slot>, i: int, v: Value) -> Seq<Slot> {
    s.update(i, Slot::Filled(v))
}

/// Whether the setter for field `i` applies to these slots.
pub open spec fn can_set(s: Seq<Slot>, i: int) -> bool {
    0 <= i < s.len() && s[i] is Unset
}

/// The error a setter for field `i` reports on slots where it does not apply.
pub open spec fn set_error(s: Seq<Slot>, i: int) -> BuildError {
    if 0 <= i < s.len() {
        BuildError::AlreadySet(i as usize)
    } else {
        BuildError::NoSuchField(i as usize)
    }
}

/// A builder for one record whose fill state is checked as it goes: each
/// field can be set once, and the record can be finished only when every
/// field is set or has a default.
pub struct RecordBuilder {
    slots: Vec<Slot>,
}

impl View for RecordBuilder {
    type V = Seq<Slot>;

    closed spec fn view(&self) -> Seq<Slot> {
        self.slots@
    }
}

impl RecordBuilder {
    /// Starts a builder with every field unset; `defaults` holds, per field,
    /// the value it takes if it is never set.
    pub fn new(defaults: Vec<Option<Value>>) -> (r: RecordBuilder)
        ensures
            r@ == unset_slots(defaults@),
    {
        let ghost orig = defaults@;
        let mut defaults = defaults;
        let mut slots: Vec<Slot> = Vec::new();
        let n = defaults.len();
        let mut k: usize = 0;
        while k < n
            invariant
                n == orig.len(),
                k <= n,
                defaults@ == orig.skip(k as int),
                slots@ == unset_slots(orig.take(k as int)),
            decreases n - k,
        {
            let d = defaults.remove(0);
            slots.push(Slot::Unset(d));
            proof {
                assert(orig.take(k as int + 1) =~= orig.take(k as int).push(d));
                assert(orig.skip(k as int + 1) =~= orig.skip(k as int).skip(1));
            }
            k = k + 1;
            assert(slots@ =~= unset_slots(orig.take(k as int)));
        }
        assert(orig.take(n as int) =~= orig);
        RecordBuilder { slots }
    }

    /// The number of fields.
    pub fn len(&self) -> (r: usize)
        ensures
            r == self@.len(),
    {
        self.slots.len()
    }

    /// Whether field `i` is still unset.
    pub fn is_unset(&self, i: usize) -> (r: bool)
        ensures
            r == can_set(self@, i as int),
    {
        i < self.slots.len() && matches!(self.slots[i], Slot::Unset(_))
    }

    /// Sets field `i` to `value`; applies only while that field is unset.
    pub fn set(self, i: usize, value: Value) -> (r: Result<RecordBuilder, BuildError>)
        ensures
            can_set(self@, i as int) <==> r is Ok,
            r is Ok ==> r->Ok_0@ == set_slot(self@, i as int, value),
            r is Err ==> r->Err_0 == set_error(self@, i as int),
    {
        if i >= self.slots.len() {
            return Err(BuildError::NoSuchField(i));
        }
        if matches!(self.slots[i], Slot::Filled(_)) {
            return Err(BuildError::AlreadySet(i));
        }
        let mut slots = self.slots;
        let ghost before = slots@;
        slots.remove(i);
        slots.insert(i, Slot::Filled(value));
        assert(slots@ =~= set_slot(before, i as int, value));
        Ok(RecordBuilder { slots })
    }

    /// Finishes the record: each field resolves to its value, or to its
    /// default when it was never set.
    pub fn finish(self) -> (r: Result<Vec<Value>, BuildError>)
        ensures
            all_ready(self@) <==> r is Ok,
            r is Ok ==> r->Ok_0@ == resolved(self@),
            r is Err ==> exists|j: usize| is_first_missing(self@, j as int) && r->Err_0 == BuildError::Missing(j),
    {
        let ghost orig = self@;
        let mut slots = self.slots;
        let mut out: Vec<Value> = Vec::new();
        let n = slots.len();
        let mut k: usize = 0;
        while k < n
            invariant
                orig == self@,
                n == orig.len(),
                k <= n,
                slots@ == orig.skip(k as int),
                out@ == resolved(orig.take(k as int)),
                forall|j: int| 0 <= j < k ==> ready(#[trigger] orig[j]),
            decreases n - k,
        {
            let s = slots.remove(0);
            assert(s == orig[k as int]);
            proof {
                assert(orig.skip(k as int + 1) =~= orig.skip(k as int).skip(1));
                assert(orig.take(k as int + 1) =~= orig.take(k as int).push(s));
            }
            match s {
                Slot::Filled(v) => out.push(v),
                Slot::Unset(Some(d)) => out.push(d),
                Slot::Unset(None) => {
                    assert(is_first_missing(orig, k as int));
                    return Err(BuildError::Missing(k));
                },
            }
            k = k + 1;
            assert(out@ =~= resolved(orig.take(k as int)));
        }
        assert(orig.take(n as int) =~= orig);
        Ok(out)
    }
}

/// Whether slot `s` holds a record whose fields are `vals`.
pub open spec fn holds_record(s: Slot, vals: Seq<Value>) -> bool {
    match s {
        Slot::Filled(Value::Record(w)) => w@ == vals,
        _ => false,
    }
}

/// The slots of `parent` once its field `i` holds the record that `inner`
/// resolves to.
pub open spec fn resumed(parent: Seq<Slot>, i: int, inner: Seq<Slot>, r: Seq<Slot>) -> bool {
    &&& r.len() == parent.len()
    &&& forall|k: int| 0 <= k < r.len() && k != i ==> r[k] == parent[k]
    &&& holds_record(r[i], resolved(inner))
}

/// A builder that can be resumed with one of its fields set: the builder of
/// a record, or of a nested record.
pub trait Pending: Sized {
    /// The fields of the record being built.
    spec fn slots(&self) -> Seq<Slot>;

    /// Whether the builders this one waits on can still be resumed.
    spec fn wf(&self) -> bool;

    /// Whether `other` waits on the same builders as this one.
    spec fn same_context(&self, other: &Self) -> bool;

    /// Sets field `i` to `value`; applies only while that field is unset.
    fn set_field(self, i: usize, value: Value) -> (r: Result<Self, BuildError>)
        ensures
            can_set(self.slots(), i as int) <==> r is Ok,
            r is Ok ==> r->Ok_0.slots() == set_slot(self.slots(), i as int, value) && r->Ok_0.same_context(&self),
            r is Ok && self.wf() ==> r->Ok_0.wf(),
            r is Err ==> r->Err_0 == set_error(self.slots(), i as int),
    ;
}

impl Pending for RecordBuilder {
    open spec fn slots(&self) -> Seq<Slot> {
        self@
    }

    open spec fn wf(&self) -> bool {
        true
    }

    open spec fn same_context(&self, other: &Self) -> bool {
        true
    }

    fn set_field(self, i: usize, value: Value) -> (r: Result<RecordBuilder, BuildError>) {
        self.set(i, value)
    }
}

impl RecordBuilder {
    /// Enters a builder for field `i`, whose value is a record with the given
    /// defaults; finishing it resumes this builder with that field set.
    pub fn build_field(self, i: usize, defaults: Vec<Option<Value>>) -> (r: Result<
        NestedBuilder<RecordBuilder>,
        BuildError,
    >)
        ensures
            can_set(self@, i as int) <==> r is Ok,
            r is Ok ==> r->Ok_0.parent() == self && r->Ok_0.field() == i && r->Ok_0.inner() == unset_slots(
                defaults@,
            ) && r->Ok_0.wf(),
            r is Err ==> r->Err_0 == set_error(self@, i as int),
    {
        if !self.is_unset(i) {
            if i >= self.slots.len() {
                return Err(BuildError::NoSuchField(i));
            }
            return Err(BuildError::AlreadySet(i));
        }
        let inner = RecordBuilder::new(defaults);
        Ok(NestedBuilder { parent: self, field: i, inner })
    }
}

/// A builder for the record held by one field of a parent builder; the
/// parent waits as the continuation of this builder, and may itself be
/// nested.
pub struct NestedBuilder<P> {
    parent: P,
    field: usize,
    inner: RecordBuilder,
}

impl<P: Pending> NestedBuilder<P> {
    pub closed spec fn parent(&self) -> P {
        self.parent
    }

    pub closed spec fn field(&self) -> usize {
        self.field
    }

    pub closed spec fn inner(&self) -> Seq<Slot> {
        self.inner@
    }

    /// Enters a builder for field `j` of the nested record.
    pub fn build_field(self, j: usize, defaults: Vec<Option<Value>>) -> (r: Result<
        NestedBuilder<NestedBuilder<P>>,
        BuildError,
    >)
        ensures
            can_set(self.inner(), j as int) <==> r is Ok,
            r is Ok ==> r->Ok_0.parent() == self && r->Ok_0.field() == j && r->Ok_0.inner() == unset_slots(
                defaults@,
            ),
            r is Ok && self.wf() ==> r->Ok_0.wf(),
            r is Err ==> r->Err_0 == set_error(self.inner(), j as int),
    {
        if !self.inner.is_unset(j) {
            if j >= self.inner.len() {
                return Err(BuildError::NoSuchField(j));
            }
            return Err(BuildError::AlreadySet(j));
        }
        let inner = RecordBuilder::new(defaults);
        Ok(NestedBuilder { parent: self, field: j, inner })
    }

    /// Sets field `j` of the nested record.
    pub fn set(self, j: usize, value: Value) -> (r: Result<NestedBuilder<P>, BuildError>)
        ensures
            can_set(self.inner(), j as int) <==> r is Ok,
            r is Ok ==> r->Ok_0.parent() == self.parent() && r->Ok_0.field() == self.field()
                && r->Ok_0.inner() == set_slot(self.inner(), j as int, value),
            r is Ok && self.wf() ==> r->Ok_0.wf(),
            r is Err ==> r->Err_0 == set_error(self.inner(), j as int),
    {
        let NestedBuilder { parent, field, inner } = self;
        match inner.set(j, value) {
            Ok(inner) => Ok(NestedBuilder { parent, field, inner }),
            Err(e) => Err(e),
        }
    }

    /// Finishes the nested record and resumes the parent with it.
    pub fn finish(self) -> (r: Result<P, BuildError>)
        requires
            self.wf(),
        ensures
            all_ready(self.inner()) <==> r is Ok,
            r is Ok ==> resumed(self.parent().slots(), self.field() as int, self.inner(), r->Ok_0.slots())
                && r->Ok_0.same_context(&self.parent()) && r->Ok_0.wf(),
            r is Err ==> exists|j: usize| is_first_missing(self.inner(), j as int) && r->Err_0 == BuildError::Missing(j),
    {
        let NestedBuilder { parent, field, inner } = self;
        match inner.finish() {
            Ok(vals) => {
                let ghost w = vals@;
                let r = parent.set_field(field, Value::Record(vals));
                match r {
                    Ok(b) => {
                        assert(holds_record(b.slots()[field as int], w));
                        Ok(b)
                    },
                    Err(e) => Err(e),
                }
            },
            Err(e) => Err(e),
        }
    }
}

impl<P: Pending> Pending for NestedBuilder<P> {
    open spec fn slots(&self) -> Seq<Slot> {
        self.inner()
    }

    open spec fn wf(&self) -> bool {
        can_set(self.parent().slots(), self.field() as int) && self.parent().wf()
    }

    open spec fn same_context(&self, other: &Self) -> bool {
        self.parent() == other.parent() && self.field() == other.field()
    }

    fn set_field(self, i: usize, value: Value) -> (r: Result<NestedBuilder<P>, BuildError>) {
        self.set(i, value)
    }
}

/// The slots after the setters of `order` run in turn, field `order[k]`
/// taking the value `vals[order[k]]`.
pub open spec fn apply_setters(s: Seq<Slot>, order: Seq<int>, vals: Seq<Value>) -> Seq<Slot>
    decreases order.len(),
{
    if order.len() == 0 {
        s
    } else {
        let prev = apply_setters(s, order.drop_last(), vals);
        set_slot(prev, order.last(), vals[order.last()])
    }
}

/// Whether each setter of `order` applies when its turn comes.
pub open spec fn setters_apply(s: Seq<Slot>, order: Seq<int>, vals: Seq<Value>) -> bool
    decreases order.len(),
{
    order.len() == 0 || (setters_apply(s, order.drop_last(), vals) && can_set(
        apply_setters(s, order.drop_last(), vals),
        order.last(),
    ))
}

/// Whether `order` names each of the fields `0..n` exactly once.
pub open spec fn covers_once(order: Seq<int>, n: int) -> bool {
    &&& order.no_duplicates()
    &&& forall|k: int| 0 <= k < order.len() ==> 0 <= #[trigger] order[k] < n
    &&& forall|j: int| 0 <= j < n ==> order.contains(j)
}

proof fn lemma_apply_prefix(defaults: Seq<Option<Value>>, order: Seq<int>, vals: Seq<Value>)
    requires
        vals.len() == defaults.len(),
        order.no_duplicates(),
        forall|k: int| 0 <= k < order.len() ==> 0 <= #[trigger] order[k] < defaults.len(),
    ensures
        setters_apply(unset_slots(defaults), order, vals),
        apply_setters(unset_slots(defaults), order, vals).len() == defaults.len(),
        forall|j: int|
            0 <= j < defaults.len() ==> #[trigger] apply_setters(unset_slots(defaults), order, vals)[j]
                == if order.contains(j) {
                Slot::Filled(vals[j])
            } else {
                Slot::Unset(defaults[j])
            },
    decreases order.len(),
{
    if order.len() > 0 {
        let rest = order.drop_last();
        assert forall|k: int| 0 <= k < rest.len() implies 0 <= #[trigger] rest[k] < defaults.len() by {
            assert(rest[k] == order[k]);
        }
        assert(rest.no_duplicates()) by {
            assert forall|a: int, b: int| 0 <= a < rest.len() && 0 <= b < rest.len() && a != b implies rest[a]
                != rest[b] by {
                assert(rest[a] == order[a] && rest[b] == order[b]);
            }
        }
        lemma_apply_prefix(defaults, rest, vals);
        let last = order.last();
        assert(order[order.len() - 1] == last);
        assert(!rest.contains(last)) by {
            if rest.contains(last) {
                let a = choose|a: int| 0 <= a < rest.len() && rest[a] == last;
                assert(order[a] == order[order.len() - 1]);
            }
        }
        assert forall|j: int| 0 <= j < defaults.len() implies #[trigger] order.contains(j) == (rest.contains(j)
            || j == last) by {
            if order.contains(j) && j != last {
                let a = choose|a: int| 0 <= a < order.len() && order[a] == j;
                assert(rest[a] == j);
            }
            if rest.contains(j) {
                let a = choose|a: int| 0 <= a < rest.len() && rest[a] == j;
                assert(order[a] == j);
            }
        }
    }
}

/// Setters commute: setting every field exactly once, in any order, and
/// then finishing gives the record of the supplied values.
pub proof fn lemma_setters_in_any_order(defaults: Seq<Option<Value>>, order: Seq<int>, vals: Seq<Value>)
    requires
        vals.len() == defaults.len(),
        covers_once(order, defaults.len() as int),
    ensures
        setters_apply(unset_slots(defaults), order, vals),
        all_ready(apply_setters(unset_slots(defaults), order, vals)),
        resolved(apply_setters(unset_slots(defaults), order, vals)) == vals,
{
    lemma_apply_prefix(defaults, order, vals);
    let s = apply_setters(unset_slots(defaults), order, vals);
    assert(resolved(s) =~= vals);
}

/// Finishing is not applicable while a field without a default is unset.
pub proof fn lemma_required_field_blocks_finish(s: Seq<Slot>, i: int)
    requires
        0 <= i < s.len(),
        s[i] == Slot::Unset(None),
    ensures
        !all_ready(s),
{
}

/// A default is a fallback, never an override: an unset field resolves to
/// its default, a set one to the value supplied.
pub proof fn lemma_default_is_fallback(defaults: Seq<Option<Value>>, i: int, d: Value, v: Value)
    requires
        0 <= i < defaults.len(),
        defaults[i] == Some(d),
    ensures
        ready(unset_slots(defaults)[i]),
        resolve(unset_slots(defaults)[i]) == d,
        resolve(set_slot(unset_slots(defaults), i, v)[i]) == v,
{
}

/// Building a field through its nested builder gives the same record as
/// setting the field directly to the value its own builder finishes with.
pub proof fn lemma_nested_matches_direct(
    parent: Seq<Slot>,
    i: int,
    inner: Seq<Slot>,
    nested: Seq<Slot>,
    direct_value: Vec<Value>,
)
    requires
        can_set(parent, i),
        all_ready(inner),
        resumed(parent, i, inner, nested),
        direct_value@ == resolved(inner),
    ensures
        nested.len() == set_slot(parent, i, Value::Record(direct_value)).len(),
        forall|k: int|
            0 <= k < nested.len() && k != i ==> nested[k] == #[trigger] set_slot(parent, i, Value::Record(direct_value))[k],
        holds_record(nested[i], direct_value@),
        holds_record(set_slot(parent, i, Value::Record(direct_value))[i], direct_value@),
{
}

/// A record without fields is ready as soon as it starts, and finishes
/// with no values.
pub proof fn lemma_unit_round_trip()
    ensures
        all_ready(unset_slots(Seq::<Option<Value>>::empty())),
        resolved(unset_slots(Seq::<Option<Value>>::empty())) == Seq::<Value>::empty(),
{
    assert(resolved(unset_slots(Seq::<Option<Value>>::empty())) =~= Seq::<Value>::empty());
}

} // verus!
