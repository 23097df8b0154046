//! Shared service handle: the one engine of the process, built on first use.
//!
//! The handle never builds the engine itself. A caller asks for access; the
//! first one is told to construct the engine and reports back, every other one
//! is told to wait or is given the engine that is already there. Because each
//! operation takes the handle by `&mut`, two callers can never be inside it at
//! once, whatever the host does around it.

use vstd::prelude::*;

verus! {

/// The storage engine could not be opened.
#[derive(Debug, Clone, Copy, PartialEq, Eq)]
pub struct StorageOpenError;

/// How far the construction of the engine has come.
pub enum Slot<E> {
    /// No engine yet, and nobody is building one.
    Empty,
    /// One caller has been told to build the engine and has not reported back.
    Opening,
    /// The engine of this process.
    Ready(E),
}

/// What a caller that asked for access has to do.
#[derive(Debug, Clone, Copy, PartialEq, Eq)]
pub enum Access {
    /// Build the engine, then report with `install` or `abandon`.
    Construct,
    /// Another caller is building the engine: ask again later.
    Wait,
    /// The engine is there: take it with `engine`.
    Share,
}

/// One operation on the handle, as it appears in a history of operations.
pub enum Op<E> {
    /// A caller asks for access.
    Open,
    /// The constructing caller reports the engine it has built.
    Install(E),
    /// The constructing caller reports that the storage could not be opened.
    Abandon,
}

/// The slot after `op` has been applied to it.
pub open spec fn step<E>(slot: Slot<E>, op: Op<E>) -> Slot<E> {
    match (slot, op) {
        (Slot::Empty, Op::Open) => Slot::Opening,
        (Slot::Opening, Op::Install(engine)) => Slot::Ready(engine),
        (Slot::Opening, Op::Abandon) => Slot::Empty,
        _ => slot,
    }
}

/// What a caller that asks for access is told, by the slot it finds.
pub open spec fn access_in<E>(slot: Slot<E>) -> Access {
    match slot {
        Slot::Empty => Access::Construct,
        Slot::Opening => Access::Wait,
        Slot::Ready(_) => Access::Share,
    }
}

/// True when `op`, applied to `slot`, tells its caller to build an engine.
pub open spec fn constructs<E>(slot: Slot<E>, op: Op<E>) -> bool {
    op is Open && slot is Empty
}

/// True when `op`, applied to `slot`, hands out the engine.
pub open spec fn shares<E>(slot: Slot<E>, op: Op<E>) -> bool {
    op is Open && slot is Ready
}

/// The slot after the whole history `ops`, first operation first.
pub open spec fn run<E>(slot: Slot<E>, ops: Seq<Op<E>>) -> Slot<E>
    decreases ops.len(),
{
    if ops.len() == 0 {
        slot
    } else {
        run(step(slot, ops[0]), ops.drop_first())
    }
}

/// How many callers in the history `ops` are told to build an engine.
pub open spec fn constructions<E>(slot: Slot<E>, ops: Seq<Op<E>>) -> nat
    decreases ops.len(),
{
    if ops.len() == 0 {
        0
    } else {
        let rest = constructions(step(slot, ops[0]), ops.drop_first());
        if constructs(slot, ops[0]) {
            rest + 1
        } else {
            rest
        }
    }
}

/// The engines handed out in the course of the history `ops`, in order.
pub open spec fn observations<E>(slot: Slot<E>, ops: Seq<Op<E>>) -> Seq<E>
    decreases ops.len(),
{
    if ops.len() == 0 {
        Seq::empty()
    } else {
        let rest = observations(step(slot, ops[0]), ops.drop_first());
        if shares(slot, ops[0]) {
            seq![slot->Ready_0] + rest
        } else {
            rest
        }
    }
}

/// True when no caller in `ops` reports a failed construction.
pub open spec fn no_failure<E>(ops: Seq<Op<E>>) -> bool {
    forall|i: int| 0 <= i < ops.len() ==> !(#[trigger] ops[i] is Abandon)
}

/// True when some caller in `ops` asks for access.
pub open spec fn some_open<E>(ops: Seq<Op<E>>) -> bool {
    exists|i: int| 0 <= i < ops.len() && #[trigger] ops[i] is Open
}

/// The process-wide handle to the storage engine.
pub struct SharedHandle<E> {
    slot: Slot<E>,
}

impl<E> SharedHandle<E> {
    /// The slot that this handle holds.
    pub closed spec fn view(&self) -> Slot<E> {
        self.slot
    }

    /// The handle at process start: no engine.
    pub fn new() -> (handle: Self)
        ensures
            handle@ is Empty,
    {
        SharedHandle { slot: Slot::Empty }
    }

    /// Asks for access to the engine. Only a caller that finds the slot empty
    /// is told to construct, and the slot is then marked so that no second
    /// caller is told the same.
    pub fn open(&mut self) -> (access: Access)
        ensures
            access == access_in(old(self)@),
            (access == Access::Construct) == constructs(old(self)@, Op::Open),
            (access == Access::Share) == shares(old(self)@, Op::Open),
            final(self)@ == step(old(self)@, Op::Open),
    {
        match self.slot {
            Slot::Empty => {
                self.slot = Slot::Opening;
                Access::Construct
            },
            Slot::Opening => Access::Wait,
            Slot::Ready(_) => Access::Share,
        }
    }

    /// Reports the engine that the constructing caller has built. It is taken
    /// only while a construction is under way; otherwise the handle stays as it
    /// is and the engine is handed back.
    pub fn install(&mut self, engine: E) -> (refused: Option<E>)
        ensures
            final(self)@ == step(old(self)@, Op::Install(engine)),
            old(self)@ is Opening ==> refused is None,
            !(old(self)@ is Opening) ==> refused == Some(engine),
    {
        match self.slot {
            Slot::Opening => {
                self.slot = Slot::Ready(engine);
                None
            },
            _ => Some(engine),
        }
    }

    /// Reports that the storage could not be opened. A construction under way
    /// is given up, so that a later caller may try again; an engine that is
    /// already there stays.
    pub fn abandon(&mut self) -> (error: StorageOpenError)
        ensures
            final(self)@ == step(old(self)@, Op::Abandon),
    {
        match self.slot {
            Slot::Opening => {
                self.slot = Slot::Empty;
            },
            _ => {},
        }
        StorageOpenError
    }

    /// The engine, where there is one.
    pub fn engine(&self) -> (engine: Option<&E>)
        ensures
            match engine {
                Some(e) => self@ == Slot::Ready(*e),
                None => !(self@ is Ready),
            },
    {
        match &self.slot {
            Slot::Ready(e) => Some(e),
            _ => None,
        }
    }
}

/// Once the engine is there it stays: no history changes the slot, tells a
/// caller to construct, or hands out another engine.
pub proof fn lemma_ready_is_final<E>(engine: E, ops: Seq<Op<E>>)
    ensures
        run(Slot::Ready(engine), ops) == Slot::Ready(engine),
        constructions(Slot::Ready(engine), ops) == 0,
        forall|i: int|
            0 <= i < observations(Slot::Ready(engine), ops).len() ==> observations(
                Slot::Ready(engine),
                ops,
            )[i] == engine,
    decreases ops.len(),
{
    if ops.len() > 0 {
        let ready = Slot::Ready(engine);
        let rest = observations(ready, ops.drop_first());
        lemma_ready_is_final(engine, ops.drop_first());
        assert forall|i: int| 0 <= i < observations(ready, ops).len() implies observations(
            ready,
            ops,
        )[i] == engine by {
            if shares(ready, ops[0]) && i > 0 {
                assert(observations(ready, ops)[i] == rest[i - 1]);
            }
        }
    }
}

/// Every caller that is handed an engine in the course of a history is handed
/// the same one: the engine that the slot holds at the end.
pub proof fn lemma_one_engine_observed<E>(slot: Slot<E>, ops: Seq<Op<E>>)
    ensures
        observations(slot, ops).len() > 0 ==> run(slot, ops) is Ready,
        forall|i: int|
            0 <= i < observations(slot, ops).len() ==> Slot::Ready(
                #[trigger] observations(slot, ops)[i],
            ) == run(slot, ops),
    decreases ops.len(),
{
    match slot {
        Slot::Ready(engine) => {
            lemma_ready_is_final(engine, ops);
        },
        _ => {
            if ops.len() > 0 {
                let next = step(slot, ops[0]);
                assert(observations(slot, ops) == observations(next, ops.drop_first()));
                lemma_one_engine_observed(next, ops.drop_first());
            }
        },
    }
}

/// While a construction is under way and none fails, no caller is told to
/// construct.
pub proof fn lemma_opening_constructs_nothing<E>(ops: Seq<Op<E>>)
    requires
        no_failure(ops),
    ensures
        constructions(Slot::<E>::Opening, ops) == 0,
    decreases ops.len(),
{
    if ops.len() > 0 {
        let rest = ops.drop_first();
        assert(no_failure(rest)) by {
            assert forall|i: int| 0 <= i < rest.len() implies !(#[trigger] rest[i] is Abandon) by {
                assert(rest[i] == ops[i + 1]);
            }
        }
        assert(!(ops[0] is Abandon));
        match step(Slot::<E>::Opening, ops[0]) {
            Slot::Ready(engine) => {
                lemma_ready_is_final(engine, rest);
            },
            _ => {
                lemma_opening_constructs_nothing(rest);
            },
        }
    }
}

/// In any history of calls on a fresh handle in which no construction fails,
/// however the calls of the callers are interleaved, exactly one caller is told
/// to construct the engine if any caller asks at all, and none otherwise.
pub proof fn lemma_single_construction<E>(ops: Seq<Op<E>>)
    requires
        no_failure(ops),
    ensures
        constructions(Slot::<E>::Empty, ops) == if some_open(ops) {
            1nat
        } else {
            0nat
        },
    decreases ops.len(),
{
    if ops.len() > 0 {
        let rest = ops.drop_first();
        assert(no_failure(rest)) by {
            assert forall|i: int| 0 <= i < rest.len() implies !(#[trigger] rest[i] is Abandon) by {
                assert(rest[i] == ops[i + 1]);
            }
        }
        if ops[0] is Open {
            lemma_opening_constructs_nothing(rest);
            assert(some_open(ops));
        } else {
            lemma_single_construction(rest);
            if some_open(rest) {
                let i = choose|i: int| 0 <= i < rest.len() && #[trigger] rest[i] is Open;
                assert(ops[i + 1] is Open);
            }
            if some_open(ops) {
                let i = choose|i: int| 0 <= i < ops.len() && #[trigger] ops[i] is Open;
                assert(rest[i - 1] is Open);
            }
        }
    }
}

} // verus!
