//! Widening one arm of an asynchronous computation while it is driven.

use vstd::prelude::*;
use crate::poll::{Poll, Stage};
use crate::widen::{err_widened, ok_widened, widen_err, widen_ok};
use core::marker::PhantomData;

verus! {

/// Outcome of one step of an arm-converting combinator: `p` is what driving
/// the wrapped computation gave, `r` what the combinator reports, and `now`
/// its stage afterwards. A pending computation stays owned and driven; a
/// resolved one is released, and its outcome relabelled by `relabel`.
pub open spec fn converted_step<F, T, E, X, Y>(
    before: Stage<F>,
    p: Poll<T, E>,
    now: Stage<F>,
    r: Poll<X, Y>,
    relabel: spec_fn(Result<T, E>, Result<X, Y>) -> bool,
) -> bool {
    match p {
        Poll::Pending => r is Pending && now == before,
        Poll::Ready(v) => now is Done && r is Ready && relabel(v, r->Ready_0),
    }
}

/// One turn of an arm-converting combinator that was in stage `before`: the
/// computation it owns is driven exactly once, by `poll`, which hands it back
/// with what driving it gave, and that outcome is taken as `converted_step`
/// says.
pub open spec fn polled_once<F, T, E, X, Y, PF: FnOnce(F) -> (F, Poll<T, E>)>(
    before: Stage<F>,
    now: Stage<F>,
    r: Poll<X, Y>,
    poll: PF,
    relabel: spec_fn(Result<T, E>, Result<X, Y>) -> bool,
) -> bool {
    match before {
        Stage::Running(f) => exists|stepped: (F, Poll<T, E>)|
            #[trigger] poll.ensures((f,), stepped) && converted_step(
                Stage::Running(stepped.0),
                stepped.1,
                now,
                r,
                relabel,
            ),
        Stage::Done => false,
    }
}

/// A computation whose success payload is converted into `U` as it resolves.
pub struct MapInto<F, U> {
    pub stage: Stage<F>,
    pub target: PhantomData<U>,
}

/// A computation whose failure payload is converted into `U` as it resolves.
pub struct MapErrInto<F, U> {
    pub stage: Stage<F>,
    pub target: PhantomData<U>,
}

impl<F, U> MapInto<F, U> {
    /// A fresh combinator: it owns `future` and has not driven it.
    pub open spec fn drives(self, future: F) -> bool {
        self.stage == Stage::Running(future)
    }

    /// Wraps `future`; nothing is driven until the first step.
    pub fn new(future: F) -> (r: Self)
        ensures
            r.stage == Stage::Running(future),
    {
        MapInto { stage: Stage::Running(future), target: PhantomData }
    }

    /// Takes what driving the wrapped computation once gave, and reports the
    /// combinator's own outcome for that step.
    pub fn advance<T, E>(&mut self, p: Poll<T, E>) -> (r: Poll<U, E>)
        where
            U: From<T>,
        requires
            old(self).stage is Running,
        ensures
            converted_step(
                old(self).stage,
                p,
                final(self).stage,
                r,
                |v: Result<T, E>, w: Result<U, E>| ok_widened(v, w),
            ),
    {
        match p {
            Poll::Pending => Poll::Pending,
            Poll::Ready(v) => {
                self.stage = Stage::Done;
                Poll::Ready(widen_ok(v))
            },
        }
    }

    /// Takes one turn: drives the owned computation once, through `poll`,
    /// which hands it back with what driving it gave.
    pub fn turn<T, E, PF>(&mut self, poll: PF) -> (r: Poll<U, E>)
        where
            PF: FnOnce(F) -> (F, Poll<T, E>),
            U: From<T>,
        requires
            old(self).stage is Running,
            forall|f: F| poll.requires((f,)),
        ensures
            polled_once(
                old(self).stage,
                final(self).stage,
                r,
                poll,
                |v: Result<T, E>, w: Result<U, E>| ok_widened(v, w),
            ),
    {
        let mut stage = Stage::Done;
        core::mem::swap(&mut self.stage, &mut stage);
        match stage {
            Stage::Running(f) => {
                let ghost before = f;
                let (f, p) = poll(f);
                let ghost stepped = (f, p);
                self.stage = Stage::Running(f);
                let r = self.advance(p);
                assert(poll.ensures((before,), stepped));
                r
            },
            Stage::Done => {
                proof {
                    assert(false);
                }
                Poll::Pending
            },
        }
    }
}

impl<F, U> MapErrInto<F, U> {
    /// A fresh combinator: it owns `future` and has not driven it.
    pub open spec fn drives(self, future: F) -> bool {
        self.stage == Stage::Running(future)
    }

    /// Wraps `future`; nothing is driven until the first step.
    pub fn new(future: F) -> (r: Self)
        ensures
            r.stage == Stage::Running(future),
    {
        MapErrInto { stage: Stage::Running(future), target: PhantomData }
    }

    /// Takes what driving the wrapped computation once gave, and reports the
    /// combinator's own outcome for that step.
    pub fn advance<T, E>(&mut self, p: Poll<T, E>) -> (r: Poll<T, U>)
        where
            U: From<E>,
        requires
            old(self).stage is Running,
        ensures
            converted_step(
                old(self).stage,
                p,
                final(self).stage,
                r,
                |v: Result<T, E>, w: Result<T, U>| err_widened(v, w),
            ),
    {
        match p {
            Poll::Pending => Poll::Pending,
            Poll::Ready(v) => {
                self.stage = Stage::Done;
                Poll::Ready(widen_err(v))
            },
        }
    }

    /// Takes one turn: drives the owned computation once, through `poll`,
    /// which hands it back with what driving it gave.
    pub fn turn<T, E, PF>(&mut self, poll: PF) -> (r: Poll<T, U>)
        where
            PF: FnOnce(F) -> (F, Poll<T, E>),
            U: From<E>,
        requires
            old(self).stage is Running,
            forall|f: F| poll.requires((f,)),
        ensures
            polled_once(
                old(self).stage,
                final(self).stage,
                r,
                poll,
                |v: Result<T, E>, w: Result<T, U>| err_widened(v, w),
            ),
    {
        let mut stage = Stage::Done;
        core::mem::swap(&mut self.stage, &mut stage);
        match stage {
            Stage::Running(f) => {
                let ghost before = f;
                let (f, p) = poll(f);
                let ghost stepped = (f, p);
                self.stage = Stage::Running(f);
                let r = self.advance(p);
                assert(poll.ensures((before,), stepped));
                r
            },
            Stage::Done => {
                proof {
                    assert(false);
                }
                Poll::Pending
            },
        }
    }
}

/// Converts the success arm of an asynchronous computation into `U`.
pub trait FutureMapInto<U>: Sized {
    type Output;

    fn map_into(self) -> Self::Output;
}

/// Converts the failure arm of an asynchronous computation into `U`.
pub trait FutureMapErrInto<U>: Sized {
    type Output;

    fn map_err_into(self) -> Self::Output;
}

impl<F, U> FutureMapInto<U> for F {
    type Output = MapInto<F, U>;

    fn map_into(self) -> (r: MapInto<F, U>)
        ensures
            MapInto::<F, U>::drives(r, self),
    {
        MapInto::new(self)
    }
}

impl<F, U> FutureMapErrInto<U> for F {
    type Output = MapErrInto<F, U>;

    fn map_err_into(self) -> (r: MapErrInto<F, U>)
        ensures
            MapErrInto::<F, U>::drives(r, self),
    {
        MapErrInto::new(self)
    }
}

} // verus!

verus! {

/// Over a run of steps of an arm-converting combinator, each taken while it
/// still owns its computation, with `handed[i]` the stage holding the
/// computation as driving it left it: every step but the last sees the
/// computation pending and reports pending, the combinator reports a
/// resolved outcome exactly on the step where the computation resolves, and
/// after the last step it has released the computation exactly when that
/// step resolved it. So the computation is driven once per step and never
/// after it resolved.
pub proof fn lemma_single_resolution<F, T, E, X, Y>(
    stages: Seq<Stage<F>>,
    handed: Seq<Stage<F>>,
    polls: Seq<Poll<T, E>>,
    reports: Seq<Poll<X, Y>>,
    relabel: spec_fn(Result<T, E>, Result<X, Y>) -> bool,
)
    requires
        stages.len() == polls.len() + 1,
        handed.len() == polls.len(),
        reports.len() == polls.len(),
        forall|i: int| 0 <= i < polls.len() ==> (#[trigger] stages[i]) is Running,
        forall|i: int|
            0 <= i < polls.len() ==> (#[trigger] handed[i]) is Running && converted_step(
                handed[i],
                polls[i],
                stages[i + 1],
                reports[i],
                relabel,
            ),
    ensures
        forall|i: int|
            0 <= i < polls.len() - 1 ==> (#[trigger] polls[i]) is Pending && reports[i] is Pending,
        forall|i: int| 0 <= i < polls.len() ==> ((#[trigger] reports[i]) is Ready <==> polls[i] is Ready),
        polls.len() > 0 ==> (stages[polls.len() as int] is Done <==> polls[polls.len() - 1] is Ready),
{
    assert forall|i: int| 0 <= i < polls.len() - 1 implies (#[trigger] polls[i]) is Pending
        && reports[i] is Pending by {
        assert(handed[i] is Running);
        assert(stages[i + 1] is Running);
    }
    assert forall|i: int| 0 <= i < polls.len() implies ((#[trigger] reports[i]) is Ready
        <==> polls[i] is Ready) by {
        assert(handed[i] is Running);
    }
    if polls.len() > 0 {
        assert(handed[polls.len() - 1] is Running);
    }
}

} // verus!
