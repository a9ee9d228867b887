//! Running a computation whose success payload starts a second computation,
//! and widening the second one's failure into the first one's failure type.

use vstd::prelude::*;
use crate::poll::Poll;
use crate::widen::{err_widened, widen_err, widens};

verus! {

/// Which computation a flattening combinator currently owns and drives.
pub enum FlattenStage<F, G> {
    /// The first computation, not resolved yet.
    Outer(F),
    /// The second computation, started from the first one's success payload.
    Inner(G),
    /// Both are released: the combinator has resolved.
    Done,
}

/// Outcome of one step on the first computation: `p` is what driving it
/// gave, `r` what the step reports and `now` the stage afterwards. While the
/// first computation is pending, so is the combinator; a failure resolves the
/// combinator with that very failure. A success payload is handed to
/// `start_inner`, whose result the combinator owns from then on, and the step
/// reports nothing (`None`): the turn is not over, and the second computation
/// is to be stepped in it at once.
pub open spec fn outer_step<F, G, A, B, C, K: FnOnce(A) -> G>(
    before: FlattenStage<F, G>,
    p: Poll<A, B>,
    now: FlattenStage<F, G>,
    r: Option<Poll<C, B>>,
    start_inner: K,
) -> bool {
    match p {
        Poll::Pending => r == Some(Poll::<C, B>::Pending) && now == before,
        Poll::Ready(Err(b)) => r == Some(Poll::<C, B>::Ready(Err(b))) && now is Done,
        Poll::Ready(Ok(a)) => r is None && now is Inner && start_inner.ensures((a,), now->Inner_0),
    }
}

/// Outcome of one step on the second computation: a success resolves the
/// combinator with it, a failure resolves it with that failure widened.
pub open spec fn inner_step<F, G, B, C, D>(
    before: FlattenStage<F, G>,
    p: Poll<C, D>,
    now: FlattenStage<F, G>,
    r: Poll<C, B>,
) -> bool
    where B: From<D>,
{
    match p {
        Poll::Pending => r is Pending && now == before,
        Poll::Ready(v) => now is Done && r is Ready && err_widened(v, r->Ready_0),
    }
}

/// A turn on the second computation `g`: it is driven once, by
/// `poll_inner`, which hands it back with what driving it gave, and that
/// outcome is taken as `inner_step` says.
pub open spec fn inner_turn<F, G, B, C, D, PG: FnOnce(G) -> (G, Poll<C, D>)>(
    g: G,
    poll_inner: PG,
    now: FlattenStage<F, G>,
    r: Poll<C, B>,
) -> bool
    where B: From<D>,
{
    exists|stepped: (G, Poll<C, D>)|
        poll_inner.ensures((g,), stepped) && #[trigger] inner_step(
            FlattenStage::<F, G>::Inner(stepped.0),
            stepped.1,
            now,
            r,
        )
}

/// One turn of a flattening combinator that was in stage `before`. The
/// computation it owns is driven exactly once. If that is the first one and
/// it succeeds, the second computation is started from the payload and
/// driven once in the same turn. So a turn reports `Pending` only when the
/// last computation it drove is pending.
pub open spec fn turn_taken<F, G, A, B, C, D, PF, K, PG>(
    before: FlattenStage<F, G>,
    now: FlattenStage<F, G>,
    r: Poll<C, B>,
    poll_outer: PF,
    start_inner: K,
    poll_inner: PG,
) -> bool
    where
        PF: FnOnce(F) -> (F, Poll<A, B>),
        K: FnOnce(A) -> G,
        PG: FnOnce(G) -> (G, Poll<C, D>),
        B: From<D>,
{
    match before {
        FlattenStage::Outer(f) => exists|stepped: (F, Poll<A, B>)|
            #[trigger] poll_outer.ensures((f,), stepped) && match stepped.1 {
                Poll::Ready(Ok(a)) => exists|g: G|
                    #[trigger] start_inner.ensures((a,), g) && inner_turn(g, poll_inner, now, r),
                _ => outer_step(
                    FlattenStage::<F, G>::Outer(stepped.0),
                    stepped.1,
                    now,
                    Some(r),
                    start_inner,
                ),
            },
        FlattenStage::Inner(g) => inner_turn(g, poll_inner, now, r),
        FlattenStage::Done => false,
    }
}

/// A computation that runs `F`, starts a `G` from its success payload and
/// runs that, with the failure of `G` widened into the failure type of `F`.
pub struct FlatMapErrInto<F, G> {
    pub stage: FlattenStage<F, G>,
}

impl<F, G> FlatMapErrInto<F, G> {
    /// A fresh combinator: it owns `future` and has not driven it.
    pub open spec fn drives(self, future: F) -> bool {
        self.stage == FlattenStage::<F, G>::Outer(future)
    }

    /// Wraps `future`; nothing is driven until the first step.
    pub fn new(future: F) -> (r: Self)
        ensures
            r.drives(future),
    {
        FlatMapErrInto { stage: FlattenStage::Outer(future) }
    }

    /// Takes what driving the first computation once gave. On success the
    /// first computation is released, its payload goes to `start_inner`, the
    /// combinator owns the result, and `None` tells the driver to step that
    /// second computation in the same turn.
    pub fn advance_outer<A, B, C, K: FnOnce(A) -> G>(
        &mut self,
        p: Poll<A, B>,
        start_inner: K,
    ) -> (r: Option<Poll<C, B>>)
        requires
            old(self).stage is Outer,
            forall|a: A| start_inner.requires((a,)),
        ensures
            outer_step(old(self).stage, p, final(self).stage, r, start_inner),
    {
        match p {
            Poll::Pending => Some(Poll::Pending),
            Poll::Ready(Err(b)) => {
                self.stage = FlattenStage::Done;
                Some(Poll::Ready(Err(b)))
            },
            Poll::Ready(Ok(a)) => {
                self.stage = FlattenStage::Done;
                let inner = start_inner(a);
                self.stage = FlattenStage::Inner(inner);
                None
            },
        }
    }

    /// Takes what driving the second computation once gave.
    pub fn advance_inner<B, C, D>(&mut self, p: Poll<C, D>) -> (r: Poll<C, B>)
        where
            B: From<D>,
        requires
            old(self).stage is Inner,
        ensures
            inner_step(old(self).stage, p, final(self).stage, r),
    {
        match p {
            Poll::Pending => Poll::Pending,
            Poll::Ready(v) => {
                self.stage = FlattenStage::Done;
                Poll::Ready(widen_err(v))
            },
        }
    }

    /// Takes one turn: drives the computation the combinator owns once,
    /// through `poll_outer` or `poll_inner`, each of which hands the
    /// computation back with what driving it gave. On a success of the first
    /// computation the second is started with `start_inner` and driven in the
    /// same turn.
    pub fn turn<A, B, C, D, PF, K, PG>(
        &mut self,
        poll_outer: PF,
        start_inner: K,
        poll_inner: PG,
    ) -> (r: Poll<C, B>)
        where
            PF: FnOnce(F) -> (F, Poll<A, B>),
            K: FnOnce(A) -> G,
            PG: FnOnce(G) -> (G, Poll<C, D>),
            B: From<D>,
        requires
            !(old(self).stage is Done),
            forall|f: F| poll_outer.requires((f,)),
            forall|a: A| start_inner.requires((a,)),
            forall|g: G| poll_inner.requires((g,)),
        ensures
            turn_taken(old(self).stage, final(self).stage, r, poll_outer, start_inner, poll_inner),
    {
        let ghost before = self.stage;
        let mut stage = FlattenStage::Done;
        core::mem::swap(&mut self.stage, &mut stage);
        let inner = match stage {
            FlattenStage::Outer(f) => {
                let (f, p) = poll_outer(f);
                let ghost stepped = (f, p);
                self.stage = FlattenStage::Outer(f);
                match self.advance_outer(p, start_inner) {
                    Some(r) => {
                        assert(poll_outer.ensures((before->Outer_0,), stepped));
                        return r;
                    },
                    None => {},
                }
                assert(poll_outer.ensures((before->Outer_0,), stepped));
                let mut started = FlattenStage::Done;
                core::mem::swap(&mut self.stage, &mut started);
                match started {
                    FlattenStage::Inner(g) => g,
                    _ => {
                        proof {
                            assert(false);
                        }
                        return Poll::Pending;
                    },
                }
            },
            FlattenStage::Inner(g) => g,
            FlattenStage::Done => {
                proof {
                    assert(false);
                }
                return Poll::Pending;
            },
        };
        let ghost started = inner;
        let (g, q) = poll_inner(inner);
        let ghost stepped = (g, q);
        self.stage = FlattenStage::Inner(g);
        let r = self.advance_inner(q);
        assert(poll_inner.ensures((started,), stepped));
        assert(inner_step(FlattenStage::<F, G>::Inner(stepped.0), stepped.1, self.stage, r));
        r
    }
}

/// Runs a computation whose success payload becomes a second computation
/// of type `G`, giving one computation with the first one's failure type.
pub trait FutureFlatMapErrInto<G>: Sized {
    type Output;

    fn flat_map_err_into(self) -> Self::Output;
}

impl<F, G> FutureFlatMapErrInto<G> for F {
    type Output = FlatMapErrInto<F, G>;

    fn flat_map_err_into(self) -> (r: FlatMapErrInto<F, G>)
        ensures
            FlatMapErrInto::<F, G>::drives(r, self),
    {
        FlatMapErrInto::new(self)
    }
}

} // verus!

verus! {

/// A flattening combinator resolves exactly as its two computations say.
/// If the first fails with `b`, it resolves to failure `b` and no second
/// computation was ever started. If the first succeeds with `a`, the second
/// is the one built from `a`; if that one then fails with `d`, the combinator
/// resolves to `B::from(d)`, and if it succeeds with `c`, to success `c`.
pub proof fn lemma_flatten_resolution<F, G, A, B, C, D, K: FnOnce(A) -> G>(
    start: FlattenStage<F, G>,
    p: Poll<A, B>,
    mid: FlattenStage<F, G>,
    r: Option<Poll<C, B>>,
    start_inner: K,
    q: Poll<C, D>,
    end: FlattenStage<F, G>,
    s: Poll<C, B>,
)
    where
        B: From<D>,
    requires
        start is Outer,
        outer_step(start, p, mid, r, start_inner),
        mid is Inner ==> inner_step(mid, q, end, s),
    ensures
        p matches Poll::Ready(Err(b)) ==> r == Some(Poll::<C, B>::Ready(Err(b))) && !(mid is Inner),
        p matches Poll::Ready(Ok(a)) ==> r is None && mid is Inner && start_inner.ensures(
            (a,),
            mid->Inner_0,
        ),
        p is Ready && p->Ready_0 is Ok && q is Ready && q->Ready_0 is Err ==> s is Ready
            && s->Ready_0 is Err && widens(q->Ready_0->Err_0, s->Ready_0->Err_0),
        p is Ready && p->Ready_0 is Ok && q is Ready && q->Ready_0 is Ok ==> s
            == Poll::<C, B>::Ready(Ok(q->Ready_0->Ok_0)),
        p is Pending ==> r == Some(Poll::<C, B>::Pending) && mid == start,
{
}

} // verus!
