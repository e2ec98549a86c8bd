//! The event-sourced aggregate contract: construct from a first event,
//! apply subsequent events, and rehydrate from a whole event sequence.
//!
//! Every operation is a pure state transition.  The semantics of each
//! aggregate is given at the level of views: which events initialize it,
//! which events a state accepts, and what state an accepted event leads to.
//! `rehydrate` is provided once, for every aggregate, and is proved to
//! compute exactly the `replay` of the event views.

use vstd::prelude::*;

verus! {

/// The views of a sequence of events.
pub open spec fn views_of<E: View>(s: Seq<E>) -> Seq<E::V> {
    s.map_values(|e: E| e@)
}

/// Replay of an event sequence, at the level of views: the empty sequence
/// is an invalid start; otherwise the first event must initialize the
/// aggregate and each later event is applied in turn, stopping at the
/// first failure.
pub open spec fn replay<E: View, Error: View, A: EventSourcedAggregate<E, Error>>(
    events: Seq<E::V>,
) -> Result<A::V, Error::V>
    decreases events.len(),
{
    if events.len() == 0 {
        Err(A::invalid_initial_view())
    } else if events.len() == 1 {
        if A::init_ok(events[0]) {
            Ok(A::init_view(events[0]))
        } else {
            Err(A::invalid_initial_view())
        }
    } else {
        match replay::<E, Error, A>(events.drop_last()) {
            Ok(st) => if A::accepts(st, events.last()) {
                Ok(A::step(st, events.last()))
            } else {
                Err(A::step_err(st, events.last()))
            },
            Err(er) => Err(er),
        }
    }
}

/// Once a prefix of the replay fails, the whole replay fails the same way.
pub proof fn lemma_replay_err_extends<E: View, Error: View, A: EventSourcedAggregate<E, Error>>(
    s: Seq<E::V>,
    k: int,
)
    requires
        1 <= k <= s.len(),
        replay::<E, Error, A>(s.take(k)) is Err,
    ensures
        replay::<E, Error, A>(s) == replay::<E, Error, A>(s.take(k)),
    decreases s.len() - k,
{
    if k == s.len() {
        assert(s.take(k) =~= s);
    } else {
        assert(s.take(k + 1).drop_last() =~= s.take(k));
        lemma_replay_err_extends::<E, Error, A>(s, k + 1);
    }
}

/// Generic lifecycle of an event-sourced aggregate.
pub trait EventSourcedAggregate<E: View, Error: View>: Sized + View {
    /// Whether `e` may initialize the aggregate.
    spec fn init_ok(e: E::V) -> bool;

    /// The state a valid initial event creates.
    spec fn init_view(e: E::V) -> Self::V;

    /// The error for an invalid or missing initial event.
    spec fn invalid_initial_view() -> Error::V;

    /// Whether state `pre` accepts event `e`.
    spec fn accepts(pre: Self::V, e: E::V) -> bool;

    /// The state after an accepted event.
    spec fn step(pre: Self::V, e: E::V) -> Self::V;

    /// The error for an event refused in state `pre`.
    spec fn step_err(pre: Self::V, e: E::V) -> Error::V;

    /// Well-formedness that construction establishes and application
    /// preserves.
    spec fn view_inv(v: Self::V) -> bool;

    /// Creates the aggregate from the first event of its history; any event
    /// other than the designated genesis event is rejected.
    fn from_initial_event(event: &E) -> (r: Result<Self, Error>)
        ensures
            match r {
                Ok(a) => Self::init_ok(event@) && a@ == Self::init_view(event@) && Self::view_inv(
                    a@,
                ),
                Err(e) => !Self::init_ok(event@) && e@ == Self::invalid_initial_view(),
            },
    ;

    /// Applies one event to mutate state; a refused event leaves the state
    /// untouched.
    fn apply(&mut self, event: &E) -> (r: Result<(), Error>)
        requires
            Self::view_inv(old(self)@),
        ensures
            match r {
                Ok(()) => Self::accepts(old(self)@, event@) && final(self)@ == Self::step(
                    old(self)@,
                    event@,
                ) && Self::view_inv(final(self)@),
                Err(e) => !Self::accepts(old(self)@, event@) && *final(self) == *old(self) && e@
                    == Self::step_err(old(self)@, event@),
            },
    ;

    /// The error reported when the first event is missing or invalid.
    fn invalid_initial_event() -> (r: Error)
        ensures
            r@ == Self::invalid_initial_view(),
    ;
}

/// Reconstructs an aggregate from an event sequence: exactly the `replay`
/// of the event views, short-circuiting on the first failure.  Shared by
/// every aggregate's `rehydrate`.
pub fn rehydrate<E: View, Error: View, A: EventSourcedAggregate<E, Error>>(events: &Vec<E>) -> (r:
    Result<A, Error>)
    ensures
        match r {
            Ok(a) => replay::<E, Error, A>(views_of(events@)) == Ok::<A::V, Error::V>(a@)
                && A::view_inv(a@),
            Err(e) => replay::<E, Error, A>(views_of(events@)) == Err::<A::V, Error::V>(e@),
        },
{
    let ghost vs = views_of::<E>(events@);
    if events.len() == 0 {
        return Err(A::invalid_initial_event());
    }
    proof {
        assert(vs[0] == events@[0]@);
    }
    let mut agg: A = match A::from_initial_event(&events[0]) {
        Ok(a) => a,
        Err(e) => {
            proof {
                assert(vs.take(1)[0] == vs[0]);
                assert(replay::<E, Error, A>(vs.take(1)) == Err::<A::V, Error::V>(e@));
                lemma_replay_err_extends::<E, Error, A>(vs, 1);
            }
            return Err(e);
        },
    };
    let mut i: usize = 1;
    while i < events.len()
        invariant
            1 <= i <= events.len(),
            vs == views_of::<E>(events@),
            vs.len() == events.len(),
            replay::<E, Error, A>(vs.take(i as int)) == Ok::<A::V, Error::V>(agg@),
            A::view_inv(agg@),
        decreases events.len() - i,
    {
        let res = agg.apply(&events[i]);
        proof {
            assert(vs.take(i as int + 1).drop_last() =~= vs.take(i as int));
            assert(vs.take(i as int + 1).last() == vs[i as int]);
            assert(vs[i as int] == events@[i as int]@);
        }
        match res {
            Ok(()) => {},
            Err(e) => {
                proof {
                    assert(replay::<E, Error, A>(vs.take(i as int + 1)) == Err::<A::V, Error::V>(
                        e@,
                    ));
                    lemma_replay_err_extends::<E, Error, A>(vs, i as int + 1);
                }
                return Err(e);
            },
        }
        i = i + 1;
    }
    proof {
        assert(vs.take(events@.len() as int) =~= vs);
    }
    Ok(agg)
}

} // verus!
