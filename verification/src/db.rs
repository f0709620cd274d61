//! Running a unit of work against a borrowed storage connection.

use vstd::prelude::*;

verus! {

/// Why a unit of work handed to the executor produced no value.
#[derive(Clone, Copy, Debug, PartialEq, Eq)]
pub enum DbActionError<E> {
    /// No connection could be had from the pool.
    Connection,
    /// The work could not be handed to the context that holds the pool.
    Mailbox,
    /// The work ran and failed on its own terms.
    Action(E),
}

/// The executor's answer for a unit of work that ran and returned `inner`.
pub open spec fn ran<T, E>(inner: Result<T, E>) -> Result<T, DbActionError<E>> {
    match inner {
        Ok(t) => Ok(t),
        Err(e) => Err(DbActionError::Action(e)),
    }
}

/// Whether `reply` is the executor's answer for some result that `work`
/// may return on `conn`.
pub open spec fn answers<C, T, E, F: FnOnce(&C) -> Result<T, E>>(
    work: F,
    conn: C,
    reply: Result<T, DbActionError<E>>,
) -> bool {
    match reply {
        Ok(t) => call_ensures(work, (&conn,), Ok(t)),
        Err(DbActionError::Action(e)) => call_ensures(work, (&conn,), Err(e)),
        Err(_) => false,
    }
}

/// Runs `work` on the connection that the pool handed out, if it handed
/// one out. The connection is owned for the call alone and is given up on
/// every way out.
pub fn run<C, T, E, F: FnOnce(&C) -> Result<T, E>>(conn: Option<C>, work: F) -> (reply: Result<
    T,
    DbActionError<E>,
>)
    requires
        conn matches Some(c) ==> call_requires(work, (&c,)),
    ensures
        conn is None ==> reply == Err::<T, DbActionError<E>>(DbActionError::Connection),
        conn matches Some(c) ==> answers(work, c, reply),
{
    match conn {
        None => Err(DbActionError::Connection),
        Some(c) => match work(&c) {
            Ok(t) => Ok(t),
            Err(e) => Err(DbActionError::Action(e)),
        },
    }
}

/// What the caller observes of a unit of work that was sent to the
/// executor: the executor's own answer if the hand-off worked, and
/// `Mailbox` if it did not.
pub open spec fn delivered<T, E, M>(sent: Result<Result<T, DbActionError<E>>, M>) -> Result<
    T,
    DbActionError<E>,
> {
    match sent {
        Ok(reply) => reply,
        Err(_) => Err(DbActionError::Mailbox),
    }
}

/// Takes what came back from the hand-off of a unit of work to the
/// executor, and tells the caller what to make of it.
pub fn deliver<T, E, M>(sent: Result<Result<T, DbActionError<E>>, M>) -> (reply: Result<
    T,
    DbActionError<E>,
>)
    ensures
        reply == delivered(sent),
{
    match sent {
        Ok(reply) => reply,
        Err(_) => Err(DbActionError::Mailbox),
    }
}

/// The connections that wait to be used. A unit of work borrows one for
/// as long as it runs and for no longer.
pub struct Pool<C> {
    idle: Vec<C>,
}

impl<C> View for Pool<C> {
    type V = Seq<C>;

    /// The idle connections; the last one is handed out next.
    closed spec fn view(&self) -> Seq<C> {
        self.idle@
    }
}

impl<C> Pool<C> {
    /// A pool without connections.
    pub fn new() -> (pool: Self)
        ensures
            pool@ == Seq::<C>::empty(),
    {
        Pool { idle: Vec::new() }
    }

    /// Puts a connection into the pool.
    pub fn add(&mut self, conn: C)
        ensures
            final(self)@ == old(self)@.push(conn),
    {
        self.idle.push(conn);
    }

    /// How many connections wait to be used.
    pub fn idle(&self) -> (n: usize)
        ensures
            n == self@.len(),
    {
        self.idle.len()
    }

    /// Runs `work` on a connection of the pool. With no connection to be
    /// had the work does not run and the reply is `Connection`. Whether
    /// the work succeeds or fails, the pool is afterwards as it was
    /// before: the connection is back.
    pub fn run<T, E, F: FnOnce(&C) -> Result<T, E>>(&mut self, work: F) -> (reply: Result<
        T,
        DbActionError<E>,
    >)
        requires
            old(self)@.len() > 0 ==> call_requires(work, (&old(self)@.last(),)),
        ensures
            final(self)@ == old(self)@,
            old(self)@.len() == 0 ==> reply == Err::<T, DbActionError<E>>(
                DbActionError::Connection,
            ),
            old(self)@.len() > 0 ==> answers(work, old(self)@.last(), reply),
    {
        match self.idle.pop() {
            None => Err(DbActionError::Connection),
            Some(conn) => {
                let reply = match work(&conn) {
                    Ok(value) => Ok(value),
                    Err(e) => Err(DbActionError::Action(e)),
                };
                self.idle.push(conn);
                assert(self.idle@ =~= old(self).idle@);
                reply
            },
        }
    }
}

/// A fault of the machinery and a failure of the work are never taken for
/// one another: what the caller observes is `Action(e)` exactly when the
/// work was handed over, ran, and failed with `e`; it is the work's value
/// exactly when the work was handed over, ran, and succeeded.
pub proof fn faults_stay_apart<T, E, M>(inner: Result<T, E>, undelivered: M)
    ensures
        delivered::<T, E, M>(Ok(ran(inner))) == ran(inner),
        ran(inner) is Ok <==> inner is Ok,
        inner matches Err(e) ==> ran(inner) == Err::<T, DbActionError<E>>(DbActionError::Action(e)),
        !(ran(inner) matches Err(DbActionError::Connection)),
        !(ran(inner) matches Err(DbActionError::Mailbox)),
        delivered::<T, E, M>(Err(undelivered)) == Err::<T, DbActionError<E>>(
            DbActionError::Mailbox,
        ),
{
}

} // verus!
