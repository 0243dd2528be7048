//! The cell: holds at most one value, published once and read many times.

use vstd::prelude::*;
use std::sync::Arc;
use crate::policy::{ExposureMode, WaitPolicy};
use crate::wait::{decide, next_action, Action};

verus! {

/// A publish reached a cell that already holds a value. The value that was
/// offered comes back to the caller; the cell keeps the one it had.
#[derive(Debug, PartialEq, Eq)]
pub struct AlreadyPublished<T> {
    pub name: String,
    pub rejected: T,
}

/// A read used up its attempts without finding a value.
#[derive(Clone, Debug, PartialEq, Eq)]
pub struct Uninitialized {
    pub name: String,
    pub max_attempts: usize,
    pub interval_ms: u64,
}

/// The stored value, in the shape the cell's exposure mode asks for.
enum Stored<T> {
    Direct(T),
    Shared(Arc<T>),
}

/// What a reader receives: the stored value itself, or the shared handle
/// that was made when the value was published.
pub enum Exposed<'a, T> {
    Direct(&'a T),
    Shared(&'a Arc<T>),
}

/// One step of a read: the value, an instruction to sleep and come back, or
/// the failure of the whole read.
pub enum ReadStep<'a, T> {
    Ready(Exposed<'a, T>),
    Sleep { interval_ms: u64 },
    Failed(Uninitialized),
}

/// A set-once cell with its fixed wait policy and exposure mode.
pub struct WaitableCell<T> {
    name: String,
    policy: WaitPolicy,
    exposure: ExposureMode,
    slot: Option<Stored<T>>,
}

/// The cell as contracts see it: its configuration and the value it holds,
/// if any.
pub struct CellView<T> {
    pub name: Seq<char>,
    pub policy: WaitPolicy,
    pub exposure: ExposureMode,
    pub value: Option<T>,
}

impl<T> CellView<T> {
    /// Whether the cell holds a value.
    pub open spec fn is_occupied(self) -> bool {
        self.value is Some
    }

    /// The cell after one publish: an empty cell takes the value, an
    /// occupied cell stays as it is.
    pub open spec fn publish(self, value: T) -> CellView<T> {
        if self.value is Some {
            self
        } else {
            CellView { value: Some(value), ..self }
        }
    }

    /// The cell after the publishes of `values`, taken in order.
    pub open spec fn publish_all(self, values: Seq<T>) -> CellView<T>
        decreases values.len(),
    {
        if values.len() == 0 {
            self
        } else {
            self.publish_all(values.drop_last()).publish(values.last())
        }
    }

    /// Whether the publish at position `i` of `values` succeeds: it does if
    /// the cell is still empty after the publishes before it.
    pub open spec fn accepts(self, values: Seq<T>, i: int) -> bool {
        self.publish_all(values.take(i)).value is None
    }
}

impl<'a, T> Exposed<'a, T> {
    /// The published value behind the reference or the handle.
    pub open spec fn value(self) -> T {
        match self {
            Exposed::Direct(v) => *v,
            Exposed::Shared(handle) => **handle,
        }
    }

    /// The exposure mode this shape belongs to.
    pub open spec fn mode(self) -> ExposureMode {
        match self {
            Exposed::Direct(_) => ExposureMode::Direct,
            Exposed::Shared(_) => ExposureMode::Shared,
        }
    }

    /// The published value, whichever shape it came in.
    pub fn get(&self) -> (r: &'a T)
        ensures
            *r == self.value(),
    {
        match self {
            Exposed::Direct(v) => v,
            Exposed::Shared(handle) => handle,
        }
    }

    /// The shared handle, if the cell exposes one.
    pub fn handle(&self) -> (r: Option<&'a Arc<T>>)
        ensures
            r is Some <==> self.mode() == ExposureMode::Shared,
            r matches Some(handle) ==> **handle == self.value(),
    {
        match self {
            Exposed::Direct(_) => None,
            Exposed::Shared(handle) => Some(handle),
        }
    }
}

impl<T> View for WaitableCell<T> {
    type V = CellView<T>;

    closed spec fn view(&self) -> CellView<T> {
        CellView {
            name: self.name@,
            policy: self.policy,
            exposure: self.exposure,
            value: match self.slot {
                None => None,
                Some(Stored::Direct(v)) => Some(v),
                Some(Stored::Shared(handle)) => Some(*handle),
            },
        }
    }
}

impl<T> WaitableCell<T> {
    #[verifier::type_invariant]
    spec fn well_formed(self) -> bool {
        self.policy.wf() && match self.slot {
            None => true,
            Some(Stored::Direct(_)) => self.exposure == ExposureMode::Direct,
            Some(Stored::Shared(_)) => self.exposure == ExposureMode::Shared,
        }
    }

    /// An empty cell bound to a name, a wait policy and an exposure mode.
    /// The policy has to be well formed: a positive interval and at least
    /// one attempt.
    pub fn create(name: String, policy: WaitPolicy, exposure: ExposureMode) -> (cell: Self)
        requires
            policy.wf(),
        ensures
            cell@ == (CellView::<T> { name: name@, policy, exposure, value: None }),
    {
        WaitableCell { name, policy, exposure, slot: None }
    }

    /// Stores `value` if the cell is empty. An occupied cell is left as it
    /// is, and the value comes back in the error.
    pub fn publish(&mut self, value: T) -> (r: Result<(), AlreadyPublished<T>>)
        ensures
            final(self)@ == old(self)@.publish(value),
            old(self)@.value is None ==> r is Ok,
            old(self)@.value is Some ==> (r matches Err(e) && e.rejected == value
                && e.name@ == old(self)@.name),
    {
        proof {
            use_type_invariant(&*self);
        }
        if self.slot.is_some() {
            return Err(AlreadyPublished { name: self.name.clone(), rejected: value });
        }
        let stored = match self.exposure {
            ExposureMode::Direct => Stored::Direct(value),
            ExposureMode::Shared => Stored::Shared(Arc::new(value)),
        };
        self.slot = Some(stored);
        Ok(())
    }

    /// Whether a value has been published.
    pub fn is_occupied(&self) -> (r: bool)
        ensures
            r == self@.is_occupied(),
    {
        self.slot.is_some()
    }

    /// The name that identifies the cell in diagnostics.
    pub fn name(&self) -> (r: &String)
        ensures
            r@ == self@.name,
    {
        &self.name
    }

    /// The wait policy the cell was created with.
    pub fn policy(&self) -> (r: WaitPolicy)
        ensures
            r == self@.policy,
            r.wf(),
    {
        proof {
            use_type_invariant(self);
        }
        self.policy
    }

    /// The exposure mode the cell was created with.
    pub fn exposure(&self) -> (r: ExposureMode)
        ensures
            r == self@.exposure,
    {
        self.exposure
    }

    /// One observation of the cell: the value in the cell's exposure mode if
    /// the cell is occupied, nothing if it is empty. The cell is not changed.
    pub fn observe(&self) -> (r: Option<Exposed<'_, T>>)
        ensures
            r is Some == self@.is_occupied(),
            r matches Some(e) ==> self@.value == Some(e.value()) && e.mode() == self@.exposure,
    {
        proof {
            use_type_invariant(self);
        }
        match &self.slot {
            None => None,
            Some(Stored::Direct(v)) => Some(Exposed::Direct(v)),
            Some(Stored::Shared(handle)) => Some(Exposed::Shared(handle)),
        }
    }

    /// The error of a read that found the cell empty at every attempt.
    pub fn timeout_error(&self) -> (e: Uninitialized)
        ensures
            e.name@ == self@.name,
            e.max_attempts == self@.policy.max_attempts,
            e.interval_ms == self@.policy.interval_ms,
    {
        Uninitialized {
            name: self.name.clone(),
            max_attempts: self.policy.max_attempts,
            interval_ms: self.policy.interval_ms,
        }
    }

    /// One attempt of a read that has made `attempts_made` attempts before:
    /// observes the cell and says how the read goes on. The caller sleeps
    /// when told to and calls again with one attempt more.
    pub fn poll(&self, attempts_made: usize) -> (r: ReadStep<'_, T>)
        ensures
            self@.policy.wf(),
            match decide(self@.policy, attempts_made, self@.is_occupied()) {
                Action::Deliver => r matches ReadStep::Ready(e) && self@.value == Some(e.value())
                    && e.mode() == self@.exposure,
                Action::Sleep { interval_ms } => r matches ReadStep::Sleep { interval_ms: ms }
                    && ms == interval_ms,
                Action::GiveUp => r matches ReadStep::Failed(e) && e.name@ == self@.name
                    && e.max_attempts == self@.policy.max_attempts && e.interval_ms
                    == self@.policy.interval_ms,
            },
    {
        proof {
            use_type_invariant(self);
        }
        let observed = self.observe();
        match next_action(&self.policy, attempts_made, observed.is_some()) {
            Action::Deliver => match observed {
                Some(e) => ReadStep::Ready(e),
                None => ReadStep::Failed(self.timeout_error()),
            },
            Action::Sleep { interval_ms } => ReadStep::Sleep { interval_ms },
            Action::GiveUp => ReadStep::Failed(self.timeout_error()),
        }
    }
}

/// Of any number of publishes on an empty cell, taken in the order in which
/// they reach it, exactly the first succeeds, and the cell then holds the
/// value of that one.
pub proof fn lemma_at_most_one_publish<T>(cell: CellView<T>, values: Seq<T>)
    requires
        cell.value is None,
        values.len() > 0,
    ensures
        cell.accepts(values, 0),
        forall|i: int| 0 < i < values.len() ==> !#[trigger] cell.accepts(values, i),
        cell.publish_all(values).value == Some(values[0]),
{
    assert(values.take(0).len() == 0);
    assert forall|i: int| 0 < i < values.len() implies !#[trigger] cell.accepts(values, i) by {
        lemma_first_publish_wins(cell, values.take(i));
    }
    lemma_first_publish_wins(cell, values);
}

/// Once a cell holds a value, no later publish changes the cell: every
/// read after it finds the same value.
pub proof fn lemma_read_stability<T>(cell: CellView<T>, later: Seq<T>)
    requires
        cell.value is Some,
    ensures
        cell.publish_all(later) == cell,
    decreases later.len(),
{
    if later.len() > 0 {
        lemma_read_stability(cell, later.drop_last());
    }
}

/// A read that begins on an occupied cell takes the value at its first
/// attempt: it is not told to sleep, and it does not fail.
pub proof fn lemma_occupied_cell_is_read_at_once<T>(cell: CellView<T>)
    requires
        cell.is_occupied(),
        cell.policy.wf(),
    ensures
        decide(cell.policy, 0, cell.is_occupied()) == Action::Deliver,
{
}

proof fn lemma_first_publish_wins<T>(cell: CellView<T>, values: Seq<T>)
    requires
        cell.value is None,
        values.len() > 0,
    ensures
        cell.publish_all(values).value == Some(values[0]),
    decreases values.len(),
{
    if values.len() == 1 {
        assert(values.drop_last().len() == 0);
        assert(cell.publish_all(values.drop_last()) == cell);
    } else {
        lemma_first_publish_wins(cell, values.drop_last());
        assert(values.drop_last()[0] == values[0]);
    }
}

} // verus!
