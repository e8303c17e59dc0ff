//! A cell that hands its value to one operation at a time.
//!
//! An operation takes the value out of the cell, works on it for as long as
//! it likes, and puts a value back. While the value is out, the cell is
//! marked as taken, nobody else can get at the value, and whoever asks is
//! told to wait. The cell itself never waits: it says what the caller has to
//! do, and a caller that shares one cell among tasks wakes one waiter after
//! each [`MutexBox::put_back`] and each [`MutexBox::set`].
use vstd::prelude::*;

verus! {

/// What a cell holds.
pub struct CellState<T> {
    /// The value, unless it is out or was never put in.
    pub inner: Option<T>,
    /// Whether an operation has the value.
    pub taken: bool,
}

impl<T> CellState<T> {
    /// While the value is out the cell holds none.
    pub open spec fn wf(self) -> bool {
        self.taken ==> self.inner is None
    }

    /// The start of an operation: the value leaves the cell, if there is one.
    pub open spec fn take(self) -> (CellState<T>, Option<T>) {
        match self.inner {
            Some(value) => (CellState { inner: None, taken: true }, Some(value)),
            None => (self, None),
        }
    }

    /// The end of an operation: `value` enters the cell.
    pub open spec fn put_back(self, value: T) -> CellState<T> {
        CellState { inner: Some(value), taken: false }
    }

    /// Replaces what the cell holds by `value`, unless the value is out.
    pub open spec fn set(self, value: Option<T>) -> CellState<T> {
        if self.taken {
            self
        } else {
            CellState { inner: value, taken: false }
        }
    }

    /// One whole operation that turns the value `v` into `g(v)`.
    pub open spec fn operate(self, g: spec_fn(T) -> T) -> CellState<T> {
        match self.take().1 {
            Some(value) => self.take().0.put_back(g(value)),
            None => self,
        }
    }

    /// `count` operations in a row, each turning `v` into `g(v)`.
    pub open spec fn operate_times(self, g: spec_fn(T) -> T, count: nat) -> CellState<T>
        decreases count,
    {
        if count == 0 {
            self
        } else {
            self.operate_times(g, (count - 1) as nat).operate(g)
        }
    }
}

/// `g` applied `count` times to `value`.
pub open spec fn iterate<T>(g: spec_fn(T) -> T, count: nat, value: T) -> T
    decreases count,
{
    if count == 0 {
        value
    } else {
        g(iterate(g, (count - 1) as nat, value))
    }
}

#[derive(Debug)]
pub struct MutexBox<T> {
    inner: Option<T>,
    taken: bool,
}

impl<T> View for MutexBox<T> {
    type V = CellState<T>;

    closed spec fn view(&self) -> CellState<T> {
        CellState { inner: self.inner, taken: self.taken }
    }
}

impl<T> MutexBox<T> {
    /// While the value is out the cell holds none.
    pub open spec fn wf(&self) -> bool {
        self@.wf()
    }

    /// Whether an operation has the value.
    pub open spec fn spec_is_taken(&self) -> bool {
        self@.taken
    }

    /// An empty cell.
    pub fn new() -> (cell: MutexBox<T>)
        ensures
            cell@ == (CellState::<T> { inner: None, taken: false }),
            cell.wf(),
    {
        Self { inner: None, taken: false }
    }

    /// Whether an operation has the value.
    #[verifier::when_used_as_spec(spec_is_taken)]
    pub fn is_taken(&self) -> (taken: bool)
        ensures
            taken == self@.taken,
    {
        self.taken
    }

    /// Starts an operation: takes the value out and marks the cell as taken.
    /// On a cell without a value, nothing happens and nothing comes back.
    pub fn take(&mut self) -> (value: Option<T>)
        ensures
            (final(self)@, value) == old(self)@.take(),
            old(self).wf() ==> final(self).wf(),
    {
        match self.inner.take() {
            Some(value) => {
                self.taken = true;
                Some(value)
            },
            None => None,
        }
    }

    /// Ends an operation: puts `value` into the cell and clears the mark.
    pub fn put_back(&mut self, value: T)
        ensures
            final(self)@ == old(self)@.put_back(value),
            final(self).wf(),
    {
        self.inner = Some(value);
        self.taken = false;
    }

    /// Runs `f` on the value and stores what `f` gives back. On a cell
    /// without a value, `f` does not run and nothing comes back.
    pub fn take_sync<F, R>(&mut self, f: F) -> (result: Option<R>) where F: FnOnce(T) -> (T, R)
        requires
            old(self)@.inner matches Some(value) ==> f.requires((value,)),
        ensures
            match old(self)@.inner {
                Some(value) => result matches Some(r) && final(self)@.inner matches Some(new_value)
                    && f.ensures((value,), (new_value, r)) && !final(self)@.taken,
                None => result is None && final(self)@ == old(self)@,
            },
            old(self).wf() ==> final(self).wf(),
    {
        match self.take() {
            Some(value) => {
                let (new_value, result) = f(value);
                self.put_back(new_value);
                Some(result)
            },
            None => None,
        }
    }

    /// Runs `f` on the value unless the value is out. Where it is out, `f`
    /// comes back unused in `Err`, for the caller to try again later.
    pub fn open<F, R>(&mut self, f: F) -> (result: Result<Option<R>, F>) where
        F: FnOnce(T) -> (T, R),

        requires
            old(self)@.inner matches Some(value) ==> f.requires((value,)),
        ensures
            old(self)@.taken ==> result == Err::<Option<R>, F>(f) && final(self)@ == old(self)@,
            !old(self)@.taken ==> match old(self)@.inner {
                Some(value) => result matches Ok(Some(r)) && final(self)@.inner matches Some(
                    new_value,
                ) && f.ensures((value,), (new_value, r)) && !final(self)@.taken,
                None => result == Ok::<Option<R>, F>(None) && final(self)@ == old(self)@,
            },
            old(self).wf() ==> final(self).wf(),
    {
        if self.is_taken() {
            Err(f)
        } else {
            Ok(self.take_sync(f))
        }
    }

    /// Replaces what the cell holds by `value` unless the value is out.
    /// Where it is out, `value` comes back in `Err`, for the caller to try
    /// again later.
    pub fn set(&mut self, value: Option<T>) -> (result: Result<(), Option<T>>)
        ensures
            final(self)@ == old(self)@.set(value),
            old(self)@.taken ==> result == Err::<(), Option<T>>(value),
            !old(self)@.taken ==> result is Ok,
            old(self).wf() ==> final(self).wf(),
    {
        if self.is_taken() {
            Err(value)
        } else {
            self.inner = value;
            Ok(())
        }
    }
}

impl<T: Clone> MutexBox<T> {
    /// A copy of the value, with the value left in the cell. `Err` where the
    /// value is out, `Ok(None)` where the cell holds none.
    pub fn clone_inner(&mut self) -> (result: Result<Option<T>, ()>)
        ensures
            final(self)@ == old(self)@,
            old(self)@.taken ==> result is Err,
            !old(self)@.taken ==> match old(self)@.inner {
                Some(value) => result matches Ok(Some(copy)) && cloned(value, copy),
                None => result == Ok::<Option<T>, ()>(None),
            },
    {
        if self.is_taken() {
            Err(())
        } else {
            match self.take() {
                Some(inner) => {
                    let output = inner.clone();
                    self.put_back(inner);
                    Ok(Some(output))
                },
                None => Ok(None),
            }
        }
    }
}

/// At most one operation has the value at a time: once an operation has
/// taken it, whoever asks next gets nothing and changes nothing, until the
/// operation puts a value back. That value is then the one the next
/// operation gets.
pub proof fn lemma_one_at_a_time<T>(cell: CellState<T>, replacement: Option<T>, new_value: T)
    requires
        cell.wf(),
        cell.take().1 is Some,
    ensures
        cell.take().0.taken,
        cell.take().0.wf(),
        cell.take().0.take() == (cell.take().0, None::<T>),
        cell.take().0.set(replacement) == cell.take().0,
        cell.take().0.put_back(new_value).take().1 == Some(new_value),
{
}

/// No update is lost: after `count` operations in a row on a cell that holds
/// `value`, the cell holds the result of all of them, and is free.
pub proof fn lemma_no_lost_update<T>(cell: CellState<T>, g: spec_fn(T) -> T, count: nat, value: T)
    requires
        cell.inner == Some(value),
        !cell.taken,
    ensures
        cell.operate_times(g, count) == (CellState {
            inner: Some(iterate(g, count, value)),
            taken: false,
        }),
    decreases count,
{
    if count > 0 {
        lemma_no_lost_update(cell, g, (count - 1) as nat, value);
    }
}

} // verus!
