//! The composer: validation first, then one unit of work through the
//! executor, every failure turned into the operation's own error.

use crate::db::DbActionError;
use vstd::prelude::*;

verus! {

/// A business operation, named by its error type. It says what comes in,
/// which unit of work a valid request starts, what the work yields, and
/// how each stage's failure becomes an error of the operation.
pub trait Operation: Sized {
    /// The request as it comes in.
    type Form;

    /// The unit of work that a valid request starts.
    type Work;

    /// What the unit of work yields.
    type Output;

    /// What the unit of work fails with.
    type Fail;

    /// Whether validation lets the request pass.
    spec fn admits(form: Self::Form) -> bool;

    /// The unit of work that a request which passes starts.
    spec fn work(form: Self::Form) -> Self::Work;

    /// The error for a request that does not pass.
    spec fn refusal(form: Self::Form) -> Self;

    /// The error for a unit of work that yielded nothing.
    spec fn failure(e: DbActionError<Self::Fail>) -> Self;

    /// The validation stage.
    fn validate(form: Self::Form) -> (checked: Result<Self::Work, Self>)
        ensures
            Self::admits(form) ==> checked == Ok::<Self::Work, Self>(Self::work(form)),
            !Self::admits(form) ==> checked == Err::<Self::Work, Self>(Self::refusal(form)),
    ;

    /// The conversion of the executor's failures.
    fn fail(e: DbActionError<Self::Fail>) -> (error: Self)
        ensures
            error == Self::failure(e),
    ;
}

/// How far an operation has come.
pub enum Progress<P: Operation> {
    /// The request is in; nothing has looked at it.
    Requested(P::Form),
    /// The request passed validation and its unit of work was handed out.
    Validated,
    /// The unit of work yielded its value.
    Finished(P::Output),
    /// A stage failed. No later stage was started.
    Failed(P),
}

/// What reaches an operation from outside.
pub enum Event<P: Operation> {
    /// The caller asks for the operation to start.
    Begin,
    /// The executor's reply for the unit of work.
    Replied(Result<P::Output, DbActionError<P::Fail>>),
}

/// The state that follows `state` on `event`. An event that the state
/// does not wait for changes nothing.
pub open spec fn next<P: Operation>(state: Progress<P>, event: Event<P>) -> Progress<P> {
    match (state, event) {
        (Progress::Requested(form), Event::Begin) => if P::admits(form) {
            Progress::Validated
        } else {
            Progress::Failed(P::refusal(form))
        },
        (Progress::Validated, Event::Replied(Ok(output))) => Progress::Finished(output),
        (Progress::Validated, Event::Replied(Err(e))) => Progress::Failed(P::failure(e)),
        (state, _) => state,
    }
}

/// The unit of work that leaving `state` on `event` hands out, if any.
pub open spec fn handed_out<P: Operation>(state: Progress<P>, event: Event<P>) -> Option<P::Work> {
    match (state, event) {
        (Progress::Requested(form), Event::Begin) => if P::admits(form) {
            Some(P::work(form))
        } else {
            None
        },
        _ => None,
    }
}

/// Takes one step: the state that follows, and the unit of work that the
/// caller has to send to the executor, if the step started one.
pub fn step<P: Operation>(state: Progress<P>, event: Event<P>) -> (taken: (
    Progress<P>,
    Option<P::Work>,
))
    ensures
        taken.0 == next(state, event),
        taken.1 == handed_out(state, event),
{
    match state {
        Progress::Requested(form) => match event {
            Event::Begin => match P::validate(form) {
                Ok(work) => (Progress::Validated, Some(work)),
                Err(error) => (Progress::Failed(error), None),
            },
            Event::Replied(_) => (Progress::Requested(form), None),
        },
        Progress::Validated => match event {
            Event::Replied(Ok(output)) => (Progress::Finished(output), None),
            Event::Replied(Err(e)) => (Progress::Failed(P::fail(e)), None),
            Event::Begin => (Progress::Validated, None),
        },
        Progress::Finished(output) => (Progress::Finished(output), None),
        Progress::Failed(error) => (Progress::Failed(error), None),
    }
}

impl<P: Operation> Progress<P> {
    /// How the operation ended, if it has.
    pub open spec fn ended(self) -> Option<Result<P::Output, P>> {
        match self {
            Progress::Finished(output) => Some(Ok(output)),
            Progress::Failed(error) => Some(Err(error)),
            _ => None,
        }
    }

    /// Takes the end of the operation out of it, if it has come to one.
    pub fn outcome(self) -> (ended: Option<Result<P::Output, P>>)
        ensures
            ended == self.ended(),
    {
        match self {
            Progress::Finished(output) => Some(Ok(output)),
            Progress::Failed(error) => Some(Err(error)),
            _ => None,
        }
    }
}

/// Whether `ended` is a way in which the operation on `form` can end when
/// `send` is what carries a unit of work to the executor and back: a
/// refused request ends in its refusal, and a request that passes ends
/// as one of the replies of `send` for its unit of work says.
pub open spec fn performs<
    P: Operation,
    S: FnOnce(P::Work) -> Result<P::Output, DbActionError<P::Fail>>,
>(
    form: P::Form,
    send: S,
    ended: Result<P::Output, P>,
) -> bool {
    if P::admits(form) {
        match ended {
            Ok(output) => call_ensures(send, (P::work(form),), Ok(output)),
            Err(error) => exists|e: DbActionError<P::Fail>| #[trigger]
                call_ensures(send, (P::work(form),), Err(e)) && error == P::failure(e),
        }
    } else {
        ended == Err::<P::Output, P>(P::refusal(form))
    }
}

/// Runs an operation from request to end for a caller that can wait for
/// the executor: validation, then `send` on the unit of work, then the
/// conversion of what came back. `send` is not called for a request that
/// validation refuses.
pub fn perform<P: Operation, S: FnOnce(P::Work) -> Result<P::Output, DbActionError<P::Fail>>>(
    form: P::Form,
    send: S,
) -> (ended: Result<P::Output, P>)
    requires
        P::admits(form) ==> call_requires(send, (P::work(form),)),
    ensures
        performs(form, send, ended),
{
    match P::validate(form) {
        Err(error) => Err(error),
        Ok(work) => match send(work) {
            Ok(output) => Ok(output),
            Err(e) => Err(P::fail(e)),
        },
    }
}

/// Whether an operation has come to its end.
pub open spec fn settled<P: Operation>(state: Progress<P>) -> bool {
    state is Finished || state is Failed
}

/// The state that `events`, taken in order, lead to from `state`.
pub open spec fn run<P: Operation>(state: Progress<P>, events: Seq<Event<P>>) -> Progress<P>
    decreases events.len(),
{
    if events.len() == 0 {
        state
    } else {
        run(next(state, events[0]), events.drop_first())
    }
}

/// The units of work that are handed out while `events`, taken in order,
/// lead on from `state`.
pub open spec fn issued<P: Operation>(state: Progress<P>, events: Seq<Event<P>>) -> Seq<P::Work>
    decreases events.len(),
{
    if events.len() == 0 {
        Seq::empty()
    } else {
        let later = issued(next(state, events[0]), events.drop_first());
        match handed_out(state, events[0]) {
            Some(work) => seq![work] + later,
            None => later,
        }
    }
}

/// An operation that has handed out its unit of work, or has come to its
/// end, hands out nothing more, whatever reaches it.
pub proof fn nothing_after_validation<P: Operation>(state: Progress<P>, events: Seq<Event<P>>)
    requires
        !(state is Requested),
    ensures
        issued(state, events) == Seq::<P::Work>::empty(),
        !(run(state, events) is Requested),
    decreases events.len(),
{
    if events.len() > 0 {
        nothing_after_validation(next(state, events[0]), events.drop_first());
    }
}

/// An operation that has come to its end stays as it is, whatever reaches
/// it: a failure is never mended and a success is never undone.
pub proof fn settled_is_final<P: Operation>(state: Progress<P>, events: Seq<Event<P>>)
    requires
        settled(state),
    ensures
        run(state, events) == state,
        issued(state, events) == Seq::<P::Work>::empty(),
    decreases events.len(),
{
    if events.len() > 0 {
        settled_is_final(next(state, events[0]), events.drop_first());
    }
}

/// A request that validation refuses never starts a unit of work: however
/// the operation is driven, nothing is handed out, and once the operation
/// was begun it has failed with the refusal.
pub proof fn refused_request_starts_nothing<P: Operation>(form: P::Form, events: Seq<Event<P>>)
    requires
        !P::admits(form),
    ensures
        issued(Progress::<P>::Requested(form), events) == Seq::<P::Work>::empty(),
        run(Progress::<P>::Requested(form), events) == Progress::<P>::Requested(form) || run(
            Progress::<P>::Requested(form),
            events,
        ) == Progress::<P>::Failed(P::refusal(form)),
    decreases events.len(),
{
    if events.len() > 0 {
        let state = Progress::<P>::Requested(form);
        let after = next(state, events[0]);
        if after is Requested {
            refused_request_starts_nothing::<P>(form, events.drop_first());
        } else {
            settled_is_final(after, events.drop_first());
        }
    }
}

/// An operation hands out at most one unit of work, and if it hands one
/// out, it is the one that belongs to the request, which then was valid.
pub proof fn one_unit_per_request<P: Operation>(form: P::Form, events: Seq<Event<P>>)
    ensures
        issued(Progress::<P>::Requested(form), events) == Seq::<P::Work>::empty() || (P::admits(
            form,
        ) && issued(Progress::<P>::Requested(form), events) == seq![P::work(form)]),
    decreases events.len(),
{
    if events.len() > 0 {
        let state = Progress::<P>::Requested(form);
        let after = next(state, events[0]);
        if after is Requested {
            one_unit_per_request::<P>(form, events.drop_first());
        } else {
            nothing_after_validation(after, events.drop_first());
            if handed_out(state, events[0]) is Some {
                assert(seq![P::work(form)] + Seq::<P::Work>::empty() =~= seq![P::work(form)]);
            }
        }
    }
}

} // verus!
