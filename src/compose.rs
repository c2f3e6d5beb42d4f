//! Declarative page composition: a page declares the fetches it needs, each
//! REQUIRED or OPTIONAL, possibly keyed by the first record of an earlier
//! slot; the composer decides what to fetch next and folds the outcomes into
//! a composed result or a failure naming the slot.

use vstd::prelude::*;
use crate::record::{Record, FieldsModel, field_of, duplicate_all};

verus! {

/// The records a slot resolved to.
pub type RecordsModel = Seq<FieldsModel>;

/// Whether a failed fetch aborts the composition or is replaced by a default.
#[derive(Clone, Copy, Debug, PartialEq, Eq, Structural)]
pub enum Criticality {
    Required,
    Optional,
}

/// How a fetch is sent to the content API.
#[derive(Clone, Copy, Debug, PartialEq, Eq, Structural)]
pub enum Method {
    Get,
    Post,
}

/// A parameter of a dependent fetch, read from a field of the first record
/// of an earlier slot; the fetch runs only after that slot resolves.
#[derive(Debug)]
pub struct Binding {
    pub from: usize,
    pub field: String,
    pub param: String,
}

impl DeepView for Binding {
    type V = (int, Seq<char>, Seq<char>);

    open spec fn deep_view(&self) -> (int, Seq<char>, Seq<char>) {
        (self.from as int, self.field@, self.param@)
    }
}

/// One declared outbound call of a page.
#[derive(Debug)]
pub struct FetchSpec {
    pub slot: String,
    pub method: Method,
    pub path: String,
    pub params: Vec<(String, String)>,
    pub criticality: Criticality,
    pub default_value: Vec<Record>,
    pub bindings: Vec<Binding>,
}

pub struct FetchSpecModel {
    pub slot: Seq<char>,
    pub method: Method,
    pub path: Seq<char>,
    pub params: FieldsModel,
    pub criticality: Criticality,
    pub default_value: RecordsModel,
    pub bindings: Seq<(int, Seq<char>, Seq<char>)>,
}

impl DeepView for FetchSpec {
    type V = FetchSpecModel;

    open spec fn deep_view(&self) -> FetchSpecModel {
        FetchSpecModel {
            slot: self.slot@,
            method: self.method,
            path: self.path@,
            params: self.params.deep_view(),
            criticality: self.criticality,
            default_value: self.default_value.deep_view(),
            bindings: self.bindings.deep_view(),
        }
    }
}

/// What one call to the content API gave back.
#[derive(Debug)]
pub enum FetchOutcome {
    /// The decoded list; an empty list stands for "not found".
    Items(Vec<Record>),
    /// A network or decoding failure, with its description.
    Failed(String),
}

pub enum OutcomeModel {
    Items(RecordsModel),
    Failed(Seq<char>),
}

impl DeepView for FetchOutcome {
    type V = OutcomeModel;

    open spec fn deep_view(&self) -> OutcomeModel {
        match self {
            FetchOutcome::Items(v) => OutcomeModel::Items(v.deep_view()),
            FetchOutcome::Failed(m) => OutcomeModel::Failed(m@),
        }
    }
}

/// Why a REQUIRED slot failed.
#[derive(Debug)]
pub enum FailReason {
    /// The content API found nothing.
    Empty,
    /// The call itself failed.
    Upstream(String),
}

pub enum ReasonModel {
    Empty,
    Upstream(Seq<char>),
}

impl DeepView for FailReason {
    type V = ReasonModel;

    open spec fn deep_view(&self) -> ReasonModel {
        match self {
            FailReason::Empty => ReasonModel::Empty,
            FailReason::Upstream(m) => ReasonModel::Upstream(m@),
        }
    }
}

/// The slot that aborted a composition.
#[derive(Debug)]
pub struct SlotFailure {
    pub index: usize,
    pub slot: String,
    pub reason: FailReason,
}

/// A composition's result: the value of each slot resolved so far, and the
/// failure, if any (the status is OK exactly when there is none).
#[derive(Debug)]
pub struct Composed {
    pub values: Vec<Vec<Record>>,
    pub failure: Option<SlotFailure>,
}

pub struct ComposedModel {
    pub values: Seq<RecordsModel>,
    pub failure: Option<(int, ReasonModel)>,
}

impl DeepView for Composed {
    type V = ComposedModel;

    open spec fn deep_view(&self) -> ComposedModel {
        ComposedModel {
            values: self.values.deep_view(),
            failure: match self.failure {
                Some(f) => Some((f.index as int, f.reason.deep_view())),
                None => None,
            },
        }
    }
}

impl Composed {
    pub fn is_ok(&self) -> (r: bool)
        ensures
            r == (self.failure is None),
    {
        self.failure.is_none()
    }
}

/// The value a slot resolves to, or why it aborts the composition: a
/// non-empty list stands; an empty or failed fetch aborts a REQUIRED slot
/// and gives an OPTIONAL one its declared default.
pub open spec fn resolve(spec: FetchSpec, o: OutcomeModel) -> Result<RecordsModel, ReasonModel> {
    match o {
        OutcomeModel::Items(items) => {
            if items.len() > 0 {
                Ok(items)
            } else if spec.criticality == Criticality::Required {
                Err(ReasonModel::Empty)
            } else {
                Ok(spec.default_value.deep_view())
            }
        },
        OutcomeModel::Failed(msg) => {
            if spec.criticality == Criticality::Required {
                Err(ReasonModel::Upstream(msg))
            } else {
                Ok(spec.default_value.deep_view())
            }
        },
    }
}

/// The composition of the outcomes of the first slots, in order; the first
/// slot that aborts ends it, and later outcomes are not looked at.
pub open spec fn compose_model(specs: Seq<FetchSpec>, outs: Seq<OutcomeModel>) -> ComposedModel
    decreases outs.len(),
{
    if outs.len() == 0 {
        ComposedModel { values: Seq::empty(), failure: None }
    } else {
        let prev = compose_model(specs, outs.drop_last());
        let i = outs.len() - 1;
        if prev.failure is Some {
            prev
        } else {
            match resolve(specs[i], outs[i]) {
                Ok(v) => ComposedModel { values: prev.values.push(v), failure: None },
                Err(r) => ComposedModel { values: prev.values, failure: Some((i, r)) },
            }
        }
    }
}

/// Each binding reads an earlier REQUIRED slot.
pub open spec fn specs_wf(specs: Seq<FetchSpec>) -> bool {
    forall|i: int, j: int|
        0 <= i < specs.len() && 0 <= j < specs[i].bindings.len() ==> {
            let from = (#[trigger] specs[i].bindings@[j]).from as int;
            from < i && specs[from].criticality == Criticality::Required
        }
}

/// The value bound to a dependent parameter: the named field of the first
/// record of the slot it reads.
pub open spec fn bound_value(values: Seq<RecordsModel>, b: Binding) -> Seq<char> {
    if b.from < values.len() && values[b.from as int].len() > 0 {
        field_of(values[b.from as int][0], b.field@)
    } else {
        Seq::empty()
    }
}

/// The parameters sent for a fetch: its own, then those bound from earlier
/// slots.
pub open spec fn request_params(spec: FetchSpec, values: Seq<RecordsModel>) -> FieldsModel {
    spec.params.deep_view() + spec.bindings@.map_values(|b: Binding| (b.param@, bound_value(values, b)))
}

/// A call for the app to send to the content API.
#[derive(Debug)]
pub struct FetchRequest {
    pub method: Method,
    pub path: String,
    pub params: Vec<(String, String)>,
}

/// Facts about a composition of a prefix of the outcomes.
pub proof fn lemma_compose_shape(specs: Seq<FetchSpec>, outs: Seq<OutcomeModel>)
    requires
        outs.len() <= specs.len(),
    ensures
        compose_model(specs, outs).failure is None ==> {
            &&& compose_model(specs, outs).values.len() == outs.len()
            &&& forall|i: int| 0 <= i < outs.len() ==>
                #[trigger] resolve(specs[i], outs[i]) == Ok::<RecordsModel, ReasonModel>(compose_model(specs, outs).values[i])
        },
        compose_model(specs, outs).failure matches Some((j, r)) ==> {
            &&& 0 <= j < outs.len()
            &&& compose_model(specs, outs).values.len() == j
            &&& resolve(specs[j], outs[j]) == Err::<RecordsModel, ReasonModel>(r)
            &&& forall|i: int| 0 <= i < j ==> (#[trigger] resolve(specs[i], outs[i])) is Ok
        },
    decreases outs.len(),
{
    if outs.len() > 0 {
        let prev = outs.drop_last();
        lemma_compose_shape(specs, prev);
        assert forall|i: int| 0 <= i < prev.len() implies prev[i] == outs[i] by {}
    }
}

/// When every REQUIRED slot finds something and every OPTIONAL one fails or
/// finds nothing, the composition succeeds and each OPTIONAL slot holds its
/// declared default.
pub proof fn lemma_optional_failures_take_defaults(specs: Seq<FetchSpec>, outs: Seq<OutcomeModel>)
    requires
        outs.len() == specs.len(),
        forall|i: int| 0 <= i < specs.len() && specs[i].criticality == Criticality::Required
            ==> (#[trigger] outs[i] matches OutcomeModel::Items(items) && items.len() > 0),
        forall|i: int| 0 <= i < specs.len() && specs[i].criticality == Criticality::Optional
            ==> (#[trigger] outs[i] matches OutcomeModel::Items(items) ==> items.len() == 0),
    ensures
        compose_model(specs, outs).failure is None,
        compose_model(specs, outs).values.len() == specs.len(),
        forall|i: int| 0 <= i < specs.len() && specs[i].criticality == Criticality::Optional
            ==> #[trigger] compose_model(specs, outs).values[i] == specs[i].default_value.deep_view(),
        forall|i: int| 0 <= i < specs.len() && specs[i].criticality == Criticality::Required
            ==> (outs[i] matches OutcomeModel::Items(items) && #[trigger] compose_model(specs, outs).values[i] == items),
{
    lemma_compose_shape(specs, outs);
    let c = compose_model(specs, outs);
    if let Some((j, r)) = c.failure {
        assert(resolve(specs[j], outs[j]) is Err);
    }
    assert forall|i: int| 0 <= i < specs.len() && specs[i].criticality == Criticality::Optional
        implies #[trigger] c.values[i] == specs[i].default_value.deep_view() by {
        assert(resolve(specs[i], outs[i]) is Ok);
    }
    assert forall|i: int| 0 <= i < specs.len() && specs[i].criticality == Criticality::Required
        implies (outs[i] matches OutcomeModel::Items(items) && #[trigger] c.values[i] == items) by {
        assert(resolve(specs[i], outs[i]) is Ok);
    }
}

/// When a REQUIRED slot finds nothing, the composition fails, whatever the
/// OPTIONAL slots gave: it names a REQUIRED slot no later than that one which
/// did not find anything, and names that very slot when every REQUIRED slot
/// before it found something.
pub proof fn lemma_required_empty_fails(specs: Seq<FetchSpec>, outs: Seq<OutcomeModel>, k: int)
    requires
        outs.len() == specs.len(),
        0 <= k < specs.len(),
        specs[k].criticality == Criticality::Required,
        outs[k] matches OutcomeModel::Items(items) && items.len() == 0,
    ensures
        compose_model(specs, outs).failure matches Some((j, _)) && j <= k
            && specs[j].criticality == Criticality::Required
            && !(outs[j] matches OutcomeModel::Items(items) && items.len() > 0),
        (forall|i: int| 0 <= i < k && specs[i].criticality == Criticality::Required
            ==> (#[trigger] outs[i] matches OutcomeModel::Items(items) && items.len() > 0))
            ==> compose_model(specs, outs).failure == Some((k, ReasonModel::Empty)),
{
    lemma_compose_shape(specs, outs);
    let c = compose_model(specs, outs);
    if c.failure is None {
        assert(resolve(specs[k], outs[k]) is Err);
    }
    if forall|i: int| 0 <= i < k && specs[i].criticality == Criticality::Required
        ==> (#[trigger] outs[i] matches OutcomeModel::Items(items) && items.len() > 0) {
        let (j, r) = c.failure.unwrap();
        if j < k {
            assert(resolve(specs[j], outs[j]) is Err);
        }
        if j > k {
            assert(resolve(specs[k], outs[k]) is Ok);
        }
    }
}

/// A composition of every slot is OK exactly when each REQUIRED slot found
/// something; what the OPTIONAL slots gave never matters.
pub proof fn lemma_ok_iff_required_found(specs: Seq<FetchSpec>, outs: Seq<OutcomeModel>)
    requires
        outs.len() == specs.len(),
    ensures
        (compose_model(specs, outs).failure is None) <==> (forall|i: int|
            0 <= i < specs.len() && specs[i].criticality == Criticality::Required
                ==> (#[trigger] outs[i] matches OutcomeModel::Items(items) && items.len() > 0)),
{
    lemma_compose_shape(specs, outs);
    let c = compose_model(specs, outs);
    if c.failure is None {
        assert forall|i: int| 0 <= i < specs.len() && specs[i].criticality == Criticality::Required
            implies (#[trigger] outs[i] matches OutcomeModel::Items(items) && items.len() > 0) by {
            assert(resolve(specs[i], outs[i]) is Ok);
        }
    } else {
        let (j, r) = c.failure.unwrap();
        assert(resolve(specs[j], outs[j]) is Err);
        assert(specs[j].criticality == Criticality::Required);
        assert(!(outs[j] matches OutcomeModel::Items(items) && items.len() > 0));
    }
}

/// Drives one composition: says which fetch to send next and takes its
/// outcome, until a REQUIRED slot aborts or every slot has resolved.
pub struct Composer {
    pub specs: Vec<FetchSpec>,
    pub composed: Composed,
    /// The outcomes taken so far.
    pub seen: Ghost<Seq<OutcomeModel>>,
}

impl Composer {
    pub open spec fn inv(&self) -> bool {
        &&& specs_wf(self.specs@)
        &&& self.seen@.len() <= self.specs@.len()
        &&& self.composed.deep_view() == compose_model(self.specs@, self.seen@)
        &&& self.composed.failure matches Some(f) ==> f.index < self.specs@.len()
            && f.slot@ == self.specs@[f.index as int].slot@
    }

    /// No fetch is left: a slot aborted, or all have resolved.
    pub open spec fn is_done(&self) -> bool {
        self.composed.failure is Some || self.seen@.len() == self.specs@.len()
    }

    pub fn new(specs: Vec<FetchSpec>) -> (r: Composer)
        requires
            specs_wf(specs@),
        ensures
            r.inv(),
            r.specs@ == specs@,
            r.seen@ == Seq::<OutcomeModel>::empty(),
    {
        let r = Composer {
            specs,
            composed: Composed { values: Vec::new(), failure: None },
            seen: Ghost(Seq::empty()),
        };
        assert(r.composed.values.deep_view() =~= Seq::<RecordsModel>::empty());
        r
    }

    pub fn done(&self) -> (r: bool)
        requires
            self.inv(),
        ensures
            r == self.is_done(),
    {
        proof {
            lemma_compose_shape(self.specs@, self.seen@);
        }
        self.composed.failure.is_some() || self.composed.values.len() == self.specs.len()
    }

    /// The next call to send, with its parameters bound from the slot it
    /// depends on; `None` once the composition is done.
    pub fn next_request(&self) -> (r: Option<FetchRequest>)
        requires
            self.inv(),
        ensures
            r is None <==> self.is_done(),
            r matches Some(q) ==> {
                let spec = self.specs@[self.seen@.len() as int];
                &&& q.method == spec.method
                &&& q.path@ == spec.path@
                &&& q.params.deep_view() == request_params(spec, self.composed.values.deep_view())
            },
    {
        if self.done() {
            return None;
        }
        proof {
            lemma_compose_shape(self.specs@, self.seen@);
        }
        let i = self.composed.values.len();
        let spec = &self.specs[i];
        let ghost values = self.composed.values.deep_view();
        let mut params: Vec<(String, String)> = Vec::new();
        let n = spec.params.len();
        let mut k: usize = 0;
        while k < n
            invariant
                n == spec.params.len(),
                k <= n,
                params.deep_view() =~= spec.params.deep_view().subrange(0, k as int),
            decreases n - k,
        {
            let name = spec.params[k].0.clone();
            let value = spec.params[k].1.clone();
            let ghost before = params.deep_view();
            params.push((name, value));
            assert(params.deep_view() =~= before.push(spec.params.deep_view()[k as int]));
            k = k + 1;
        }
        let ghost bound = spec.bindings@.map_values(|b: Binding| (b.param@, bound_value(values, b)));
        let m = spec.bindings.len();
        let mut k: usize = 0;
        while k < m
            invariant
                m == spec.bindings.len(),
                k <= m,
                n == spec.params.len(),
                values == self.composed.values.deep_view(),
                spec == self.specs@[i as int],
                i == self.composed.values.len(),
                bound == spec.bindings@.map_values(|b: Binding| (b.param@, bound_value(values, b))),
                params.deep_view() =~= spec.params.deep_view() + bound.subrange(0, k as int),
            decreases m - k,
        {
            let b = &spec.bindings[k];
            let value = if b.from < self.composed.values.len() && self.composed.values[b.from].len() > 0 {
                self.composed.values[b.from][0].field(&b.field)
            } else {
                String::new()
            };
            let ghost before = params.deep_view();
            params.push((b.param.clone(), value));
            assert(params.deep_view() =~= before.push(bound[k as int]));
            k = k + 1;
        }
        assert(bound.subrange(0, m as int) =~= bound);
        Some(FetchRequest { method: spec.method, path: spec.path.clone(), params })
    }

    /// Takes the outcome of the call that `next_request` gave.
    pub fn feed(&mut self, outcome: FetchOutcome)
        requires
            old(self).inv(),
            !old(self).is_done(),
        ensures
            final(self).inv(),
            final(self).specs@ == old(self).specs@,
            final(self).seen@ == old(self).seen@.push(outcome.deep_view()),
    {
        proof {
            lemma_compose_shape(self.specs@, self.seen@);
        }
        let ghost o = outcome.deep_view();
        let ghost old_values = self.composed.values.deep_view();
        let i = self.composed.values.len();
        let required = self.specs[i].criticality == Criticality::Required;
        match outcome {
            FetchOutcome::Items(items) => {
                if items.len() > 0 {
                    self.composed.values.push(items);
                } else if required {
                    let slot = self.specs[i].slot.clone();
                    self.composed.failure = Some(SlotFailure { index: i, slot, reason: FailReason::Empty });
                } else {
                    let d = duplicate_all(&self.specs[i].default_value);
                    self.composed.values.push(d);
                }
            },
            FetchOutcome::Failed(msg) => {
                if required {
                    let slot = self.specs[i].slot.clone();
                    self.composed.failure = Some(SlotFailure { index: i, slot, reason: FailReason::Upstream(msg) });
                } else {
                    let d = duplicate_all(&self.specs[i].default_value);
                    self.composed.values.push(d);
                }
            },
        }
        let ghost next = self.seen@.push(o);
        assert(next.drop_last() =~= self.seen@);
        self.seen = Ghost(next);
        assert(self.composed.values.deep_view() =~= compose_model(self.specs@, self.seen@).values);
    }

    /// The composed result.
    pub fn finish(self) -> (r: Composed)
        requires
            self.inv(),
        ensures
            r.deep_view() == compose_model(self.specs@, self.seen@),
    {
        self.composed
    }
}

/// Composes the outcomes of a page's fetches, in the order declared.
pub fn compose(specs: Vec<FetchSpec>, outcomes: Vec<FetchOutcome>) -> (r: Composed)
    requires
        specs_wf(specs@),
        outcomes.len() == specs.len(),
    ensures
        r.deep_view() == compose_model(specs@, outcomes.deep_view()),
{
    let ghost all = outcomes.deep_view();
    let ghost all_specs = specs@;
    let n = outcomes.len();
    let mut rest = outcomes;
    let mut c = Composer::new(specs);
    let mut k: usize = 0;
    assert(all.subrange(0, 0) =~= Seq::<OutcomeModel>::empty());
    while k < n
        invariant
            n == all.len(),
            n == all_specs.len(),
            k <= n,
            c.inv(),
            c.specs@ == all_specs,
            rest.deep_view() =~= all.subrange(k as int, n as int),
            compose_model(all_specs, all.subrange(0, k as int)) == compose_model(all_specs, c.seen@),
            c.seen@.len() <= k,
            c.composed.failure is None ==> c.seen@.len() == k,
        decreases n - k,
    {
        let ghost old_rest = rest.deep_view();
        assert(old_rest.len() == rest@.len());
        assert(old_rest[0] == all[k as int]);
        let ghost old_v = rest@;
        let o = rest.remove(0);
        assert(o.deep_view() == old_rest[0]);
        assert(rest@ =~= old_v.subrange(1, old_v.len() as int));
        assert forall|j: int| 0 <= j < rest@.len() implies #[trigger] rest.deep_view()[j] == old_rest[j + 1] by {
            assert(rest@[j] == old_v[j + 1]);
        }
        assert(rest.deep_view() =~= all.subrange(k + 1, n as int));
        let ghost prefix = all.subrange(0, k + 1);
        assert(prefix.drop_last() =~= all.subrange(0, k as int));
        if c.done() {
            proof {
                lemma_compose_shape(all_specs, c.seen@);
            }
            assert(compose_model(all_specs, c.seen@).failure is Some);
        } else {
            let ghost before = c.seen@;
            c.feed(o);
            assert(c.seen@.drop_last() =~= before);
        }
        k = k + 1;
    }
    assert(all.subrange(0, n as int) =~= all);
    c.finish()
}

/// Whether each binding of each spec reads an earlier REQUIRED slot.
pub fn specs_are_wf(specs: &Vec<FetchSpec>) -> (r: bool)
    ensures
        r == specs_wf(specs@),
{
    let n = specs.len();
    let mut i: usize = 0;
    while i < n
        invariant
            n == specs.len(),
            i <= n,
            forall|a: int, j: int|
                0 <= a < i && 0 <= j < specs@[a].bindings.len() ==> {
                    let from = (#[trigger] specs@[a].bindings@[j]).from as int;
                    from < a && specs@[from].criticality == Criticality::Required
                },
        decreases n - i,
    {
        let m = specs[i].bindings.len();
        let mut j: usize = 0;
        while j < m
            invariant
                n == specs.len(),
                i < n,
                m == specs@[i as int].bindings.len(),
                j <= m,
                forall|a: int, k: int|
                    0 <= a < i && 0 <= k < specs@[a].bindings.len() ==> {
                        let from = (#[trigger] specs@[a].bindings@[k]).from as int;
                        from < a && specs@[from].criticality == Criticality::Required
                    },
                forall|k: int|
                    0 <= k < j ==> {
                        let from = (#[trigger] specs@[i as int].bindings@[k]).from as int;
                        from < i && specs@[from].criticality == Criticality::Required
                    },
            decreases m - j,
        {
            let from = specs[i].bindings[j].from;
            if from >= i || specs[from].criticality != Criticality::Required {
                return false;
            }
            j = j + 1;
        }
        i = i + 1;
    }
    true
}

} // verus!
