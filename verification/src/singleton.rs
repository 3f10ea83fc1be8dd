//! The static singleton cell: a write-once container that promotes a
//! transient value into the one instance every later consumer shares.

use vstd::prelude::*;

verus! {

/// Error raised by the write-once cell: a second initialization was
/// attempted, or a read came before the first write.
#[derive(Clone, Copy, Debug, PartialEq, Eq, Structural)]
pub enum CellError {
    AlreadyInitialized,
    NotInitialized,
}

/// A write-once container holding zero or one value.
///
/// Downstream code assumes the value it reads from the cell is the unique
/// instance, so a second write is refused rather than overwriting, and a
/// read before the first write is refused rather than inventing a value.
pub struct SingletonCell<T> {
    slot: Option<T>,
}

impl<T> SingletonCell<T> {
    /// Whether the one-time write has happened.
    pub closed spec fn is_initialized(&self) -> bool {
        self.slot is Some
    }

    /// The stored value; meaningful only once `is_initialized()` holds.
    pub closed spec fn value(&self) -> T
        recommends
            self.is_initialized(),
    {
        self.slot->Some_0
    }

    /// An empty cell, ready for its one-time write.
    pub fn new() -> (r: Self)
        ensures
            !r.is_initialized(),
    {
        SingletonCell { slot: None }
    }

    /// Invokes `factory` and stores its result, provided no value is stored
    /// yet. A second initialization attempt is refused, does not invoke the
    /// factory a second time, and leaves the cell untouched.
    pub fn init_with<F: FnOnce() -> T>(&mut self, factory: F) -> (r: Result<(), CellError>)
        requires
            !old(self).is_initialized() ==> call_requires(factory, ()),
        ensures
            old(self).is_initialized() ==> r == Err::<(), CellError>(CellError::AlreadyInitialized)
                && *final(self) == *old(self),
            !old(self).is_initialized() ==> r == Ok::<(), CellError>(())
                && final(self).is_initialized()
                && call_ensures(factory, (), final(self).value()),
    {
        if self.slot.is_some() {
            Err(CellError::AlreadyInitialized)
        } else {
            self.slot = Some(factory());
            Ok(())
        }
    }

    /// Stores `value` directly: the bare "reserve storage, write later" form,
    /// for a value constructed before its promotion. Refused once a value is
    /// already stored.
    pub fn write(&mut self, value: T) -> (r: Result<(), CellError>)
        ensures
            old(self).is_initialized() ==> r == Err::<(), CellError>(CellError::AlreadyInitialized)
                && *final(self) == *old(self),
            !old(self).is_initialized() ==> r == Ok::<(), CellError>(())
                && final(self).is_initialized()
                && final(self).value() == value,
    {
        if self.slot.is_some() {
            Err(CellError::AlreadyInitialized)
        } else {
            self.slot = Some(value);
            Ok(())
        }
    }

    /// Law: once a cell is initialized, every read observes the one stored
    /// value, so any two reads of the same cell agree. [`Self::get`]
    /// promises each read result equals `value()`, which no read changes.
    pub proof fn lemma_repeated_reads_agree(cell: SingletonCell<T>, first: T, second: T)
        requires
            cell.is_initialized(),
            first == cell.value(),
            second == cell.value(),
        ensures
            first == second,
    {
    }

    /// Read access to the stored value. Refused before initialization; after
    /// it, every read returns the same stored value.
    pub fn get(&self) -> (r: Result<&T, CellError>)
        ensures
            self.is_initialized() ==> (r matches Ok(v) && *v == self.value()),
            !self.is_initialized() ==> r == Err::<&T, CellError>(CellError::NotInitialized),
    {
        match &self.slot {
            Some(v) => Ok(v),
            None => Err(CellError::NotInitialized),
        }
    }
}

} // verus!
