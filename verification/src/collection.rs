//! The Collection aggregate: a named, unordered set of component
//! identities.  A collection is created with a non-empty initial set and
//! updated by replacing the whole set, which emits one dropped event per
//! removed id and one added event per new id.
//!
//! The set is kept as a vector whose component views are pairwise distinct.

use vstd::prelude::*;

verus! {

use crate::aggregate::{EventSourcedAggregate, replay, views_of};
use crate::component_id::{ComponentId, ComponentIdView};
use crate::scan::{blank, str_is_blank};

/// Whether `s` holds an element whose view is `v`.
pub open spec fn contains_id(s: Seq<ComponentIdView>, v: ComponentIdView) -> bool {
    exists|i: int| 0 <= i < s.len() && s[i] == v
}

/// Whether the views in `s` are pairwise distinct.
pub open spec fn distinct_ids(s: Seq<ComponentIdView>) -> bool {
    forall|i: int, j: int| 0 <= i < j < s.len() ==> s[i] != s[j]
}

/// `s` with duplicates dropped, keeping the first occurrence of each id.
pub open spec fn dedup_ids(s: Seq<ComponentIdView>) -> Seq<ComponentIdView>
    decreases s.len(),
{
    if s.len() == 0 {
        s
    } else {
        let pre = dedup_ids(s.drop_last());
        if contains_id(pre, s.last()) {
            pre
        } else {
            pre.push(s.last())
        }
    }
}

/// `s` with every occurrence of `v` removed.
pub open spec fn remove_id(s: Seq<ComponentIdView>, v: ComponentIdView) -> Seq<ComponentIdView>
    decreases s.len(),
{
    if s.len() == 0 {
        s
    } else {
        let pre = remove_id(s.drop_last(), v);
        if s.last() == v {
            pre
        } else {
            pre.push(s.last())
        }
    }
}

/// The elements of `a` that do not occur in `b`, in `a`'s order.
pub open spec fn diff_ids(a: Seq<ComponentIdView>, b: Seq<ComponentIdView>) -> Seq<
    ComponentIdView,
>
    decreases a.len(),
{
    if a.len() == 0 {
        a
    } else {
        let pre = diff_ids(a.drop_last(), b);
        if contains_id(b, a.last()) {
            pre
        } else {
            pre.push(a.last())
        }
    }
}

/// Membership in a pushed sequence.
pub proof fn lemma_contains_push(s: Seq<ComponentIdView>, x: ComponentIdView, v: ComponentIdView)
    ensures
        contains_id(s.push(x), v) <==> (contains_id(s, v) || v == x),
{
    if contains_id(s, v) {
        let i = choose|i: int| 0 <= i < s.len() && s[i] == v;
        assert(s.push(x)[i] == v);
    }
    if v == x {
        assert(s.push(x)[s.len() as int] == v);
    }
    if contains_id(s.push(x), v) {
        let i = choose|i: int| 0 <= i < s.push(x).len() && s.push(x)[i] == v;
        if i < s.len() {
            assert(s[i] == v);
        }
    }
}

/// Pushing a fresh element keeps distinctness.
pub proof fn lemma_distinct_push(s: Seq<ComponentIdView>, x: ComponentIdView)
    requires
        distinct_ids(s),
        !contains_id(s, x),
    ensures
        distinct_ids(s.push(x)),
{
    assert forall|i: int, j: int| 0 <= i < j < s.push(x).len() implies s.push(x)[i] != s.push(
        x,
    )[j] by {
        if j == s.len() {
            if s[i] == x {
                assert(contains_id(s, x));
            }
        }
    }
}

/// Distinctness restricts to a prefix.
pub proof fn lemma_distinct_drop_last(s: Seq<ComponentIdView>)
    requires
        s.len() > 0,
        distinct_ids(s),
    ensures
        distinct_ids(s.drop_last()),
{
    assert forall|i: int, j: int|
        0 <= i < j < s.drop_last().len() implies s.drop_last()[i] != s.drop_last()[j] by {
        assert(s[i] != s[j]);
    }
}

/// Deduplication keeps exactly the ids of the input, each once.
pub proof fn lemma_dedup_ids(s: Seq<ComponentIdView>)
    ensures
        distinct_ids(dedup_ids(s)),
        forall|v: ComponentIdView| contains_id(dedup_ids(s), v) <==> contains_id(s, v),
    decreases s.len(),
{
    if s.len() == 0 {
    } else {
        lemma_dedup_ids(s.drop_last());
        let pre = dedup_ids(s.drop_last());
        if !contains_id(pre, s.last()) {
            lemma_distinct_push(pre, s.last());
        }
        assert forall|v: ComponentIdView| contains_id(dedup_ids(s), v) <==> contains_id(
            s,
            v,
        ) by {
            lemma_contains_push(pre, s.last(), v);
            if contains_id(s, v) {
                let i = choose|i: int| 0 <= i < s.len() && s[i] == v;
                if i < s.len() - 1 {
                    assert(s.drop_last()[i] == v);
                }
            }
            if contains_id(s.drop_last(), v) {
                let i = choose|i: int| 0 <= i < s.drop_last().len() && s.drop_last()[i] == v;
                assert(s[i] == v);
            }
            if v == s.last() {
                assert(s[s.len() - 1] == v);
            }
        }
    }
}

/// Removal keeps exactly the other ids, and keeps distinctness.
pub proof fn lemma_remove_id(s: Seq<ComponentIdView>, v: ComponentIdView)
    ensures
        forall|w: ComponentIdView| contains_id(remove_id(s, v), w) <==> (contains_id(s, w) && w
            != v),
        distinct_ids(s) ==> distinct_ids(remove_id(s, v)),
    decreases s.len(),
{
    if s.len() == 0 {
    } else {
        lemma_remove_id(s.drop_last(), v);
        let pre = remove_id(s.drop_last(), v);
        if distinct_ids(s) {
            lemma_distinct_drop_last(s);
            if s.last() != v && contains_id(pre, s.last()) {
                assert(contains_id(s.drop_last(), s.last()));
                let i = choose|i: int|
                    0 <= i < s.drop_last().len() && s.drop_last()[i] == s.last();
                assert(s[i] == s[s.len() - 1]);
                assert(false);
            }
            if s.last() != v {
                lemma_distinct_push(pre, s.last());
            }
        }
        assert forall|w: ComponentIdView|
            contains_id(remove_id(s, v), w) <==> (contains_id(s, w) && w != v) by {
            lemma_contains_push(pre, s.last(), w);
            if contains_id(s, w) {
                let i = choose|i: int| 0 <= i < s.len() && s[i] == w;
                if i < s.len() - 1 {
                    assert(s.drop_last()[i] == w);
                }
            }
            if contains_id(s.drop_last(), w) {
                let i = choose|i: int| 0 <= i < s.drop_last().len() && s.drop_last()[i] == w;
                assert(s[i] == w);
            }
            if w == s.last() {
                assert(s[s.len() - 1] == w);
            }
        }
    }
}

/// Replacing a set emits exactly the right ids: the difference holds an id
/// exactly when it is in the old set and not in the new one, and it holds
/// each id at most once when the old set was distinct.
pub proof fn lemma_diff_ids(a: Seq<ComponentIdView>, b: Seq<ComponentIdView>)
    ensures
        forall|w: ComponentIdView| contains_id(diff_ids(a, b), w) <==> (contains_id(a, w)
            && !contains_id(b, w)),
        distinct_ids(a) ==> distinct_ids(diff_ids(a, b)),
    decreases a.len(),
{
    if a.len() == 0 {
    } else {
        lemma_diff_ids(a.drop_last(), b);
        let pre = diff_ids(a.drop_last(), b);
        if distinct_ids(a) {
            lemma_distinct_drop_last(a);
            if !contains_id(b, a.last()) && contains_id(pre, a.last()) {
                assert(contains_id(a.drop_last(), a.last()));
                let i = choose|i: int|
                    0 <= i < a.drop_last().len() && a.drop_last()[i] == a.last();
                assert(a[i] == a[a.len() - 1]);
                assert(false);
            }
            if !contains_id(b, a.last()) {
                lemma_distinct_push(pre, a.last());
            }
        }
        assert forall|w: ComponentIdView|
            contains_id(diff_ids(a, b), w) <==> (contains_id(a, w) && !contains_id(b, w)) by {
            lemma_contains_push(pre, a.last(), w);
            if contains_id(a, w) {
                let i = choose|i: int| 0 <= i < a.len() && a[i] == w;
                if i < a.len() - 1 {
                    assert(a.drop_last()[i] == w);
                }
            }
            if contains_id(a.drop_last(), w) {
                let i = choose|i: int| 0 <= i < a.drop_last().len() && a.drop_last()[i] == w;
                assert(a[i] == w);
            }
            if w == a.last() {
                assert(a[a.len() - 1] == w);
            }
        }
    }
}

/// Name of a collection: a non-blank string.
#[derive(Debug)]
pub struct CollectionId {
    name: String,
}

/// Failure to build a collection id.
#[derive(Debug)]
pub enum CollectionIdError {
    Empty,
}

impl View for CollectionId {
    type V = Seq<char>;

    closed spec fn view(&self) -> Seq<char> {
        self.name@
    }
}

impl Clone for CollectionId {
    fn clone(&self) -> (r: Self)
        ensures
            r == *self,
    {
        CollectionId { name: self.name.clone() }
    }
}

impl PartialEq for CollectionId {
    fn eq(&self, other: &Self) -> (r: bool) {
        self.name.eq(&other.name)
    }
}

impl vstd::std_specs::cmp::PartialEqSpecImpl for CollectionId {
    open spec fn obeys_eq_spec() -> bool {
        true
    }

    open spec fn eq_spec(&self, other: &Self) -> bool {
        self@ == other@
    }
}

impl CollectionId {
    /// Accepts any id that is not blank.
    pub fn new(id: &str) -> (r: Result<CollectionId, CollectionIdError>)
        ensures
            r is Ok <==> !blank(id@),
            match r {
                Ok(c) => c@ == id@,
                Err(e) => e is Empty,
            },
    {
        if str_is_blank(id) {
            Err(CollectionIdError::Empty)
        } else {
            Ok(CollectionId { name: id.to_owned() })
        }
    }

    /// The id as text.
    pub fn as_str(&self) -> (r: &str)
        ensures
            r@ == self@,
    {
        self.name.as_str()
    }
}

/// Domain events emitted by the Collection aggregate.
#[derive(Debug)]
pub enum CollectionEvent {
    /// A new collection was created with an initial set of components.
    CollectionCreated { collection_id: CollectionId, initial_components: Vec<ComponentId> },
    /// A component is in the new set but was not in the previous one.
    ComponentAdded { collection_id: CollectionId, component_id: ComponentId },
    /// A component was in the previous set but is not in the new one.
    ComponentDropped { collection_id: CollectionId, component_id: ComponentId },
}

/// View of a collection event.
pub enum CollectionEventView {
    CollectionCreated { collection_id: Seq<char>, initial_components: Seq<ComponentIdView> },
    ComponentAdded { collection_id: Seq<char>, component_id: ComponentIdView },
    ComponentDropped { collection_id: Seq<char>, component_id: ComponentIdView },
}

impl View for CollectionEvent {
    type V = CollectionEventView;

    open spec fn view(&self) -> CollectionEventView {
        match self {
            CollectionEvent::CollectionCreated { collection_id, initial_components } => {
                CollectionEventView::CollectionCreated {
                    collection_id: collection_id@,
                    initial_components: initial_components.deep_view(),
                }
            },
            CollectionEvent::ComponentAdded { collection_id, component_id } => {
                CollectionEventView::ComponentAdded {
                    collection_id: collection_id@,
                    component_id: component_id@,
                }
            },
            CollectionEvent::ComponentDropped { collection_id, component_id } => {
                CollectionEventView::ComponentDropped {
                    collection_id: collection_id@,
                    component_id: component_id@,
                }
            },
        }
    }
}

impl DeepView for CollectionEvent {
    type V = CollectionEventView;

    open spec fn deep_view(&self) -> CollectionEventView {
        self.view()
    }
}

impl Clone for CollectionEvent {
    fn clone(&self) -> (r: Self)
        ensures
            r@ == self@,
    {
        match self {
            CollectionEvent::CollectionCreated { collection_id, initial_components } => {
                let ic = clone_components(initial_components);
                proof {
                    assert(ic.deep_view() =~= initial_components.deep_view());
                }
                CollectionEvent::CollectionCreated {
                    collection_id: collection_id.clone(),
                    initial_components: ic,
                }
            },
            CollectionEvent::ComponentAdded { collection_id, component_id } => {
                CollectionEvent::ComponentAdded {
                    collection_id: collection_id.clone(),
                    component_id: component_id.clone(),
                }
            },
            CollectionEvent::ComponentDropped { collection_id, component_id } => {
                CollectionEvent::ComponentDropped {
                    collection_id: collection_id.clone(),
                    component_id: component_id.clone(),
                }
            },
        }
    }
}

/// An element-wise copy of a component vector.
fn clone_components(v: &Vec<ComponentId>) -> (r: Vec<ComponentId>)
    ensures
        r@ == v@,
{
    let mut r: Vec<ComponentId> = Vec::new();
    let mut i: usize = 0;
    while i < v.len()
        invariant
            i <= v@.len(),
            r@ == v@.take(i as int),
        decreases v@.len() - i,
    {
        r.push(v[i].clone());
        proof {
            assert(r@ =~= v@.take(i as int + 1));
        }
        i = i + 1;
    }
    proof {
        assert(r@ =~= v@);
    }
    r
}

/// Failures of the Collection aggregate's validating operations.
#[derive(Debug)]
pub enum CollectionError {
    /// A collection cannot be created with, or replaced by, an empty set.
    Empty,
    /// A creation event cannot be applied to an existing collection.
    CreatedEventNotAllowed,
    /// Only a creation event can initialize a collection.
    InvalidInitialEvent,
}

/// View of a collection error.
pub enum CollectionErrorView {
    Empty,
    CreatedEventNotAllowed,
    InvalidInitialEvent,
}

impl View for CollectionError {
    type V = CollectionErrorView;

    open spec fn view(&self) -> CollectionErrorView {
        match self {
            CollectionError::Empty => CollectionErrorView::Empty,
            CollectionError::CreatedEventNotAllowed => CollectionErrorView::CreatedEventNotAllowed,
            CollectionError::InvalidInitialEvent => CollectionErrorView::InvalidInitialEvent,
        }
    }
}

/// View of a collection: its name and its set of component ids.
pub struct CollectionView {
    pub id: Seq<char>,
    pub components: Seq<ComponentIdView>,
}

/// Whether an event may initialize a collection: only a creation event.
pub open spec fn collection_init_ok(e: CollectionEventView) -> bool {
    e is CollectionCreated
}

/// The collection a creation event builds: the initial ids, deduplicated.
pub open spec fn collection_init_view(e: CollectionEventView) -> CollectionView {
    match e {
        CollectionEventView::CollectionCreated { collection_id, initial_components } => {
            CollectionView { id: collection_id, components: dedup_ids(initial_components) }
        },
        _ => vstd::pervasive::arbitrary(),
    }
}

/// Whether a state accepts an event: every event but a creation.
pub open spec fn collection_accepts(pre: CollectionView, e: CollectionEventView) -> bool {
    !(e is CollectionCreated)
}

/// The state after an accepted event: fold an added id in (if absent) or
/// drop a removed id.
pub open spec fn collection_step(pre: CollectionView, e: CollectionEventView) -> CollectionView {
    match e {
        CollectionEventView::CollectionCreated { .. } => pre,
        CollectionEventView::ComponentAdded { component_id, .. } => {
            if contains_id(pre.components, component_id) {
                pre
            } else {
                CollectionView { id: pre.id, components: pre.components.push(component_id) }
            }
        },
        CollectionEventView::ComponentDropped { component_id, .. } => {
            CollectionView { id: pre.id, components: remove_id(pre.components, component_id) }
        },
    }
}

/// The dropped events a replacement emits: one per id leaving the set.
pub open spec fn dropped_events_of(v: CollectionView, new: Seq<ComponentIdView>) -> Seq<
    CollectionEventView,
> {
    diff_ids(v.components, new).map_values(
        |c: ComponentIdView|
            CollectionEventView::ComponentDropped { collection_id: v.id, component_id: c },
    )
}

/// The added events a replacement emits: one per id entering the set,
/// however often the caller's list repeats that id.
pub open spec fn added_events_of(v: CollectionView, new: Seq<ComponentIdView>) -> Seq<
    CollectionEventView,
> {
    diff_ids(dedup_ids(new), v.components).map_values(
        |c: ComponentIdView|
            CollectionEventView::ComponentAdded { collection_id: v.id, component_id: c },
    )
}

/// A named set of components.
#[derive(Debug)]
pub struct Collection {
    id: CollectionId,
    components: Vec<ComponentId>,
}

impl View for Collection {
    type V = CollectionView;

    closed spec fn view(&self) -> CollectionView {
        CollectionView { id: self.id@, components: self.components.deep_view() }
    }
}

impl Clone for Collection {
    fn clone(&self) -> (r: Self)
        ensures
            r@ == self@,
    {
        let r = Collection { id: self.id.clone(), components: clone_components(&self.components) };
        proof {
            assert(r@.components =~= self@.components);
        }
        r
    }
}

/// A copy of the vector with duplicate identities dropped, keeping the
/// first occurrence of each.
fn dedup_components(v: &Vec<ComponentId>) -> (r: Vec<ComponentId>)
    ensures
        r.deep_view() == dedup_ids(v.deep_view()),
{
    let ghost vs = v.deep_view();
    let mut r: Vec<ComponentId> = Vec::new();
    let mut i: usize = 0;
    while i < v.len()
        invariant
            i <= v@.len(),
            vs == v.deep_view(),
            r.deep_view() == dedup_ids(vs.take(i as int)),
        decreases v@.len() - i,
    {
        let c = &v[i];
        proof {
            assert(vs.take(i as int + 1).drop_last() =~= vs.take(i as int));
            assert(vs.take(i as int + 1).last() == vs[i as int]);
            assert(vs[i as int] == v@[i as int]@);
        }
        if !contains_component(&r, c) {
            r.push(c.clone());
        }
        proof {
            assert(r.deep_view() =~= dedup_ids(vs.take(i as int + 1)));
        }
        i = i + 1;
    }
    proof {
        assert(vs.take(vs.len() as int) =~= vs);
    }
    r
}

/// Whether the vector holds a component with the given identity view.
fn contains_component(v: &Vec<ComponentId>, id: &ComponentId) -> (r: bool)
    ensures
        r == contains_id(v.deep_view(), id@),
{
    let mut i: usize = 0;
    while i < v.len()
        invariant
            i <= v@.len(),
            forall|j: int| 0 <= j < i ==> v.deep_view()[j] != id@,
        decreases v@.len() - i,
    {
        if v[i].eq(id) {
            proof {
                assert(v.deep_view()[i as int] == id@);
            }
            return true;
        }
        proof {
            assert(v.deep_view()[i as int] != id@);
        }
        i = i + 1;
    }
    false
}

impl Collection {
    /// Emits the creation event for a new collection; the initial set must
    /// not be empty.
    pub fn create(id: CollectionId, initial: Vec<ComponentId>) -> (r: Result<
        CollectionEvent,
        CollectionError,
    >)
        ensures
            r is Ok <==> initial@.len() > 0,
            match r {
                Ok(e) => e == (CollectionEvent::CollectionCreated {
                    collection_id: id,
                    initial_components: initial,
                }),
                Err(e) => e@ == CollectionErrorView::Empty,
            },
    {
        if initial.is_empty() {
            Err(CollectionError::Empty)
        } else {
            Ok(CollectionEvent::CollectionCreated { collection_id: id, initial_components: initial })
        }
    }

    /// Emits the events that replace the whole component set: first one
    /// dropped event per id leaving the set, then one added event per id
    /// entering it — the new list is deduplicated first, so a repeated id
    /// still enters once — and nothing for ids present in both.  An empty
    /// new set is refused and nothing is emitted.
    pub fn replace_components(&self, new_components: &Vec<ComponentId>) -> (r: Result<
        Vec<CollectionEvent>,
        CollectionError,
    >)
        ensures
            r is Ok <==> new_components@.len() > 0,
            match r {
                Ok(events) => events.deep_view() == dropped_events_of(
                    self@,
                    new_components.deep_view(),
                ) + added_events_of(self@, new_components.deep_view()),
                Err(e) => e@ == CollectionErrorView::Empty,
            },
    {
        if new_components.is_empty() {
            return Err(CollectionError::Empty);
        }
        let ghost cur = self.components.deep_view();
        let ghost new = new_components.deep_view();
        let mut events: Vec<CollectionEvent> = Vec::new();
        let mut i: usize = 0;
        while i < self.components.len()
            invariant
                i <= self.components@.len(),
                cur == self.components.deep_view(),
                new == new_components.deep_view(),
                events.deep_view().len() == diff_ids(cur.take(i as int), new).len(),
                forall|k: int| #![auto]
                    0 <= k < events.deep_view().len() ==> events.deep_view()[k]
                        == (CollectionEventView::ComponentDropped {
                        collection_id: self@.id,
                        component_id: diff_ids(cur.take(i as int), new)[k],
                    }),
            decreases self.components@.len() - i,
        {
            let c = &self.components[i];
            proof {
                assert(cur.take(i as int + 1).drop_last() =~= cur.take(i as int));
                assert(cur.take(i as int + 1).last() == cur[i as int]);
                assert(cur[i as int] == self.components@[i as int]@);
            }
            let ghost pre = events.deep_view();
            if !contains_component(new_components, c) {
                let ev = CollectionEvent::ComponentDropped {
                    collection_id: self.id.clone(),
                    component_id: c.clone(),
                };
                let ghost evv = ev.deep_view();
                events.push(ev);
                proof {
                    assert(events.deep_view() =~= pre.push(evv));
                    assert(evv == (CollectionEventView::ComponentDropped {
                        collection_id: self@.id,
                        component_id: cur[i as int],
                    }));
                }
            }
            proof {
                let d0 = diff_ids(cur.take(i as int), new);
                let d1 = diff_ids(cur.take(i as int + 1), new);
                if contains_id(new, cur[i as int]) {
                    assert(d1 == d0);
                } else {
                    assert(d1 == d0.push(cur[i as int]));
                }
                assert forall|k: int| 0 <= k < events.deep_view().len() implies events.deep_view()[k]
                    == (CollectionEventView::ComponentDropped {
                    collection_id: self@.id,
                    component_id: d1[k],
                }) by {
                    if k < d0.len() {
                        assert(pre[k] == (CollectionEventView::ComponentDropped {
                            collection_id: self@.id,
                            component_id: d0[k],
                        }));
                    } else {
                        assert(d1[k] == cur[i as int]);
                    }
                }
            }
            i = i + 1;
        }
        proof {
            assert(cur.take(cur.len() as int) =~= cur);
            assert(events.deep_view() =~= dropped_events_of(self@, new));
        }
        let ghost dropped = events.deep_view();
        let unique_new = dedup_components(new_components);
        let ghost nd = unique_new.deep_view();
        let mut j: usize = 0;
        while j < unique_new.len()
            invariant
                j <= unique_new@.len(),
                cur == self.components.deep_view(),
                nd == unique_new.deep_view(),
                dropped == dropped_events_of(self@, new),
                events.deep_view().len() == dropped.len() + diff_ids(nd.take(j as int), cur).len(),
                forall|k: int| #![auto]
                    0 <= k < dropped.len() ==> events.deep_view()[k] == dropped[k],
                forall|k: int| #![auto]
                    dropped.len() <= k < events.deep_view().len() ==> events.deep_view()[k]
                        == (CollectionEventView::ComponentAdded {
                        collection_id: self@.id,
                        component_id: diff_ids(nd.take(j as int), cur)[k - dropped.len()],
                    }),
            decreases unique_new@.len() - j,
        {
            let c = &unique_new[j];
            proof {
                assert(nd.take(j as int + 1).drop_last() =~= nd.take(j as int));
                assert(nd.take(j as int + 1).last() == nd[j as int]);
                assert(nd[j as int] == unique_new@[j as int]@);
            }
            let ghost pre = events.deep_view();
            if !contains_component(&self.components, c) {
                let ev = CollectionEvent::ComponentAdded {
                    collection_id: self.id.clone(),
                    component_id: c.clone(),
                };
                let ghost evv = ev.deep_view();
                events.push(ev);
                proof {
                    assert(events.deep_view() =~= pre.push(evv));
                    assert(evv == (CollectionEventView::ComponentAdded {
                        collection_id: self@.id,
                        component_id: nd[j as int],
                    }));
                }
            }
            proof {
                let d0 = diff_ids(nd.take(j as int), cur);
                let d1 = diff_ids(nd.take(j as int + 1), cur);
                if contains_id(cur, nd[j as int]) {
                    assert(d1 == d0);
                } else {
                    assert(d1 == d0.push(nd[j as int]));
                }
                assert forall|k: int|
                    dropped.len() <= k < events.deep_view().len() implies events.deep_view()[k]
                    == (CollectionEventView::ComponentAdded {
                    collection_id: self@.id,
                    component_id: d1[k - dropped.len()],
                }) by {
                    if k - dropped.len() < d0.len() {
                        assert(pre[k] == (CollectionEventView::ComponentAdded {
                            collection_id: self@.id,
                            component_id: d0[k - dropped.len()],
                        }));
                    } else {
                        assert(d1[k - dropped.len()] == nd[j as int]);
                    }
                }
            }
            j = j + 1;
        }
        proof {
            assert(nd.take(nd.len() as int) =~= nd);
            assert(events.deep_view() =~= dropped_events_of(self@, new) + added_events_of(
                self@,
                new,
            ));
        }
        Ok(events)
    }

    /// The collection's identity.
    pub fn id(&self) -> (r: &CollectionId)
        ensures
            r@ == self@.id,
    {
        &self.id
    }

    /// The component ids the collection currently holds.
    pub fn components(&self) -> (r: &Vec<ComponentId>)
        ensures
            r.deep_view() == self@.components,
    {
        &self.components
    }

    /// Constructs a collection from its genesis event, deduplicating the
    /// initial set; any other event is an invalid initializer.
    pub fn try_from(event: &CollectionEvent) -> (r: Result<Collection, CollectionError>)
        ensures
            match r {
                Ok(a) => collection_init_ok(event@) && a@ == collection_init_view(event@)
                    && distinct_ids(a@.components),
                Err(e) => !collection_init_ok(event@) && e@
                    == CollectionErrorView::InvalidInitialEvent,
            },
    {
        match event {
            CollectionEvent::CollectionCreated { collection_id, initial_components } => {
                let comps = dedup_components(initial_components);
                proof {
                    lemma_dedup_ids(initial_components.deep_view());
                }
                Ok(Collection { id: collection_id.clone(), components: comps })
            },
            _ => Err(CollectionError::InvalidInitialEvent),
        }
    }

    /// Rebuilds a collection by replaying its event history.
    pub fn rehydrate(events: &Vec<CollectionEvent>) -> (r: Result<Collection, CollectionError>)
        ensures
            match r {
                Ok(a) => replay::<CollectionEvent, CollectionError, Collection>(views_of(events@))
                    == Ok::<CollectionView, CollectionErrorView>(a@) && distinct_ids(
                    a@.components,
                ),
                Err(e) => replay::<CollectionEvent, CollectionError, Collection>(views_of(events@))
                    == Err::<CollectionView, CollectionErrorView>(e@),
            },
    {
        crate::aggregate::rehydrate(events)
    }
}

impl EventSourcedAggregate<CollectionEvent, CollectionError> for Collection {
    open spec fn init_ok(e: CollectionEventView) -> bool {
        collection_init_ok(e)
    }

    open spec fn init_view(e: CollectionEventView) -> CollectionView {
        collection_init_view(e)
    }

    open spec fn invalid_initial_view() -> CollectionErrorView {
        CollectionErrorView::InvalidInitialEvent
    }

    open spec fn accepts(pre: CollectionView, e: CollectionEventView) -> bool {
        collection_accepts(pre, e)
    }

    open spec fn step(pre: CollectionView, e: CollectionEventView) -> CollectionView {
        collection_step(pre, e)
    }

    open spec fn step_err(pre: CollectionView, e: CollectionEventView) -> CollectionErrorView {
        CollectionErrorView::CreatedEventNotAllowed
    }

    open spec fn view_inv(v: CollectionView) -> bool {
        distinct_ids(v.components)
    }

    fn from_initial_event(event: &CollectionEvent) -> (r: Result<Collection, CollectionError>) {
        Collection::try_from(event)
    }

    fn apply(&mut self, event: &CollectionEvent) -> (r: Result<(), CollectionError>) {
        match event {
            CollectionEvent::CollectionCreated { .. } => {
                Err(CollectionError::CreatedEventNotAllowed)
            },
            CollectionEvent::ComponentAdded { component_id, .. } => {
                if !contains_component(&self.components, component_id) {
                    proof {
                        lemma_distinct_push(self.components.deep_view(), component_id@);
                    }
                    self.components.push(component_id.clone());
                    proof {
                        assert(self.components.deep_view() =~= old(
                            self,
                        ).components.deep_view().push(component_id@));
                    }
                }
                Ok(())
            },
            CollectionEvent::ComponentDropped { component_id, .. } => {
                let ghost cur = self.components.deep_view();
                let mut kept: Vec<ComponentId> = Vec::new();
                let mut i: usize = 0;
                while i < self.components.len()
                    invariant
                        i <= self.components@.len(),
                        cur == self.components.deep_view(),
                        kept.deep_view() == remove_id(cur.take(i as int), component_id@),
                    decreases self.components@.len() - i,
                {
                    let c = &self.components[i];
                    proof {
                        assert(cur.take(i as int + 1).drop_last() =~= cur.take(i as int));
                        assert(cur.take(i as int + 1).last() == cur[i as int]);
                        assert(cur[i as int] == self.components@[i as int]@);
                    }
                    if !c.eq(component_id) {
                        kept.push(c.clone());
                    }
                    proof {
                        assert(kept.deep_view() =~= remove_id(
                            cur.take(i as int + 1),
                            component_id@,
                        ));
                    }
                    i = i + 1;
                }
                proof {
                    assert(cur.take(cur.len() as int) =~= cur);
                    lemma_remove_id(cur, component_id@);
                }
                self.components = kept;
                Ok(())
            },
        }
    }

    fn invalid_initial_event() -> (r: CollectionError) {
        CollectionError::InvalidInitialEvent
    }
}

/// A creation event is never applicable to an existing collection: it is
/// refused with the dedicated error, and `apply`'s contract guarantees a
/// refused event mutates nothing.
pub proof fn lemma_created_event_not_reapplicable(c: CollectionView, e: CollectionEventView)
    requires
        e is CollectionCreated,
    ensures
        !collection_accepts(c, e),
        <Collection as EventSourcedAggregate<CollectionEvent, CollectionError>>::step_err(c, e)
            == CollectionErrorView::CreatedEventNotAllowed,
{
}

} // verus!
