//! A cell for a singleton that is built at most once, on first use.

use vstd::prelude::*;

verus! {

/// A holder for a value that lives as long as the kernel does.
///
/// A cell is *empty* (there is nothing to build the value from yet), *pending*
/// (it holds the factory that will build the value) or *ready* (it holds the
/// value). A cell becomes ready by [`Lazy::unsafe_init`], which is handed the
/// value, or by [`Lazy::init`] and [`Lazy::unwrap`], which run the factory.
/// Ready is final: no operation takes a ready cell to another state, and the
/// factory of a cell runs at most once.
///
/// To resolve an empty cell, or to initialise a ready one, is an error of the
/// caller. The operations rule both out by what they require, and
/// [`Lazy::is_empty`], [`Lazy::is_pending`] and [`Lazy::is_ready`] tell a
/// caller where a cell stands.
pub enum Lazy<T, F> {
    /// No value, and no factory to build one.
    Empty,
    /// The factory that builds the value; it has not run.
    Pending(F),
    /// The value.
    Ready(T),
}

impl<T, F: FnOnce() -> T> Lazy<T, F> {
    /// Whether resolving this cell may hand out `value`: a ready cell hands out
    /// what it holds, a pending cell what its factory may return, an empty
    /// cell nothing.
    pub open spec fn resolves_to(self, value: T) -> bool {
        match self {
            Lazy::Empty => false,
            Lazy::Pending(factory) => call_ensures(factory, (), value),
            Lazy::Ready(held) => held == value,
        }
    }

    /// Whether the cell can be resolved: it is ready, or it is pending and its
    /// factory may be called.
    pub open spec fn resolvable(self) -> bool {
        match self {
            Lazy::Empty => false,
            Lazy::Pending(factory) => call_requires(factory, ()),
            Lazy::Ready(_) => true,
        }
    }

    /// A pending cell around `factory`.
    pub fn new(factory: F) -> (cell: Self)
        ensures
            cell == Lazy::<T, F>::Pending(factory),
    {
        Lazy::Pending(factory)
    }

    /// Whether the cell is empty.
    pub fn is_empty(&self) -> (empty: bool)
        ensures
            empty == (*self is Empty),
    {
        match self {
            Lazy::Empty => true,
            _ => false,
        }
    }

    /// Whether the cell is pending.
    pub fn is_pending(&self) -> (pending: bool)
        ensures
            pending == (*self is Pending),
    {
        match self {
            Lazy::Pending(_) => true,
            _ => false,
        }
    }

    /// Whether the cell is ready.
    pub fn is_ready(&self) -> (ready: bool)
        ensures
            ready == (*self is Ready),
    {
        match self {
            Lazy::Ready(_) => true,
            _ => false,
        }
    }

    /// Makes the cell ready with `value`, without running any factory. This is
    /// for a value that only an event from outside can supply. A factory that
    /// the cell held is dropped unused.
    pub fn unsafe_init(&mut self, value: T)
        requires
            !(*old(self) is Ready),
        ensures
            *final(self) == Lazy::<T, F>::Ready(value),
    {
        *self = Lazy::Ready(value);
    }

    /// Runs the factory of a pending cell and makes the cell ready with what it
    /// returned. On a cell that is not pending this is an error of the caller.
    pub fn init(&mut self)
        requires
            *old(self) is Pending,
            old(self).resolvable(),
        ensures
            *final(self) is Ready,
            old(self).resolves_to(final(self)->Ready_0),
    {
        let mut taken = Lazy::Empty;
        core::mem::swap(self, &mut taken);
        match taken {
            Lazy::Pending(factory) => {
                let value = factory();
                *self = Lazy::Ready(value);
            },
            _ => {
                vstd::pervasive::unreached::<()>();
            },
        }
    }

    /// Like [`Lazy::init`], for a caller that does not know where the cell
    /// stands: initialises a pending cell and returns `true`; leaves every
    /// other cell as it is and returns `false`.
    pub fn try_init(&mut self) -> (done: bool)
        requires
            *old(self) is Pending ==> old(self).resolvable(),
        ensures
            done == (*old(self) is Pending),
            done ==> *final(self) is Ready && old(self).resolves_to(final(self)->Ready_0),
            !done ==> *final(self) == *old(self),
    {
        if self.is_pending() {
            self.init();
            true
        } else {
            false
        }
    }

    /// Resolves the cell: hands out the value, after building it if the cell
    /// was pending. The cell is ready from then on, and holds what the caller
    /// leaves in the value handed out. On an empty cell this is an error of
    /// the caller.
    pub fn unwrap(&mut self) -> (value: &mut T)
        requires
            old(self).resolvable(),
        ensures
            old(self).resolves_to(*value),
            *final(self) == Lazy::<T, F>::Ready(*final(value)),
    {
        if let Lazy::Pending(_) = self {
            self.init();
        }
        match self {
            Lazy::Ready(value) => value,
            _ => vstd::pervasive::unreached(),
        }
    }

    /// Like [`Lazy::unwrap`], for a caller that does not know where the cell
    /// stands: resolves a cell that is pending or ready; leaves an empty cell
    /// empty and returns `None`.
    pub fn try_unwrap(&mut self) -> (resolved: Option<&mut T>)
        requires
            *old(self) is Pending ==> old(self).resolvable(),
        ensures
            resolved is None <==> *old(self) is Empty,
            match resolved {
                Some(value) => old(self).resolves_to(*value) && *final(self) == Lazy::<
                    T,
                    F,
                >::Ready(*final(value)),
                None => *final(self) == *old(self),
            },
    {
        if self.is_empty() {
            None
        } else {
            Some(self.unwrap())
        }
    }

    /// Whether a call of [`Lazy::unwrap`] may take the cell `self` to the cell
    /// `after` and hand out `value`, where the caller leaves the value handed
    /// out as it is: this is what [`Lazy::unwrap`] ensures, with the value at
    /// the end of the borrow the one at its start.
    pub open spec fn unwraps_to(self, value: T, after: Self) -> bool {
        &&& self.resolvable()
        &&& self.resolves_to(value)
        &&& after == Lazy::<T, F>::Ready(value)
    }

    /// Resolving a cell twice hands out the same value both times, and the
    /// second time leaves the cell as the first left it: a cell is built at
    /// most once. After the first time the cell is ready, and so it can be
    /// resolved again whatever its factory required.
    pub proof fn lemma_resolves_once(self, first: T, between: Self, second: T, after: Self)
        requires
            self.unwraps_to(first, between),
            between.resolves_to(second),
            after == Lazy::<T, F>::Ready(second),
        ensures
            between is Ready,
            between.resolvable(),
            between.unwraps_to(second, after),
            second == first,
            after == between,
    {
    }

    /// An empty cell can never be resolved: what [`Lazy::unwrap`] requires
    /// holds of no empty cell, and there is no value that resolving one could
    /// hand out.
    pub proof fn lemma_empty_never_resolves(self)
        requires
            self is Empty,
        ensures
            !self.resolvable(),
            forall|value: T| !self.resolves_to(value),
    {
    }
}

} // verus!
