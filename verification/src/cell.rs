//! The cell: its model, its operations and their contracts.
//!
//! A cell is modelled by its view, an `Option<T>`: `None` while the cell is
//! empty, `Some(v)` once it has been filled with `v`. The only operation
//! that changes a cell is `get_or_create`, and the only change it makes is
//! from `None` to `Some`.

use vstd::prelude::*;

verus! {

/// A value of type `T` that is made on first use, at most once, and kept.
///
/// The cell owns its value. It starts out empty, the first `get_or_create`
/// fills it, and nothing empties or overwrites it afterwards: a filled cell
/// only ends by being dropped or by `into_inner`.
///
/// Filling a cell takes `&mut self`. While an initializer runs, the cell is
/// therefore borrowed exclusively, and the initializer cannot reach it: an
/// initializer that would fill its own cell is rejected when the caller is
/// compiled, and no synchronization is needed to keep readers from seeing a
/// cell that is half filled.
#[derive(Debug)]
pub struct Lazy<T>(Option<T>);

impl<T> View for Lazy<T> {
    type V = Option<T>;

    /// What the cell holds: `None` while empty, `Some(v)` once filled with `v`.
    closed spec fn view(&self) -> Option<T> {
        self.0
    }
}

impl<T> Lazy<T> {
    /// `new` as specifications see it: the empty cell.
    pub closed spec fn spec_new() -> Self {
        Lazy(None)
    }

    /// `get` as specifications see it: a borrow of the value held, if any.
    pub open spec fn spec_get(&self) -> Option<&T> {
        match self@ {
            Some(held) => Some(&held),
            None => None,
        }
    }

    /// Whether `get_or_create` may be called on this cell with `f`.
    ///
    /// Only an empty cell runs its initializer, so only an empty cell asks
    /// that `f` can be called at all.
    pub open spec fn accepts<F: FnOnce() -> T>(&self, f: F) -> bool {
        self@ is None ==> f.requires(())
    }

    /// The step that `get_or_create` takes with `f`: from this cell to the
    /// cell `after`, handing out `value`.
    ///
    /// A filled cell stays as it is and hands out the value it holds. An
    /// empty cell is filled with a value that `f` returned, and hands out
    /// that one.
    pub open spec fn creates<F: FnOnce() -> T>(&self, f: F, after: Self, value: T) -> bool {
        &&& after@ == Some(value)
        &&& match self@ {
            Some(held) => value == held,
            None => f.ensures((), value),
        }
    }

    /// Makes an empty cell.
    #[verifier::when_used_as_spec(spec_new)]
    pub fn new() -> (cell: Self)
        ensures
            cell == Self::spec_new(),
            cell@ == None::<T>,
        no_unwind
    {
        Lazy(None)
    }

    /// Ends the cell and hands out the value it held, or `None` if it was
    /// still empty.
    pub fn into_inner(self) -> (inner: Option<T>)
        ensures
            inner == self@,
        no_unwind
    {
        self.0
    }

    /// Borrows the value if the cell has been filled. Runs no initializer
    /// and leaves the cell as it is.
    #[verifier::when_used_as_spec(spec_get)]
    pub fn get(&self) -> (seen: Option<&T>)
        ensures
            seen == self.spec_get(),
        no_unwind
    {
        match &self.0 {
            Some(held) => Some(held),
            None => None,
        }
    }

    /// Borrows the value of the cell, filling the cell first if it is empty.
    ///
    /// On a filled cell `f` is dropped unused: nothing is asked of it, the
    /// cell does not change, and the call cannot unwind. On an empty cell
    /// `f` is run once, and what it returns becomes the value of the cell
    /// for good. If `f` unwinds instead of returning, nothing has been
    /// written and the cell is still empty.
    pub fn get_or_create<F>(&mut self, f: F) -> (value: &T) where F: FnOnce() -> T
        requires
            old(self).accepts(f),
        ensures
            old(self).creates(f, *final(self), *value),
        no_unwind when old(self)@ is Some
    {
        if let None = self.0 {
            let made = f();
            // The initializer had no access to this cell, so it cannot have
            // filled it: `made` is the only candidate for the slot.
            assert(self@ is None);
            self.0 = Some(made);
        }
        match &self.0 {
            Some(held) => held,
            None => unreached(),
        }
    }

    /// A fresh cell is empty: `get` on it shows nothing.
    pub proof fn lemma_new_is_empty()
        ensures
            Self::new()@ == None::<T>,
            Self::new().get() is None,
    {
    }

    /// A cell is nothing but what it holds: two cells with the same view are
    /// the same cell. There is no flag beside the slot that could disagree
    /// with it, and no state between empty and filled.
    pub proof fn lemma_view_is_whole_cell(a: Self, b: Self)
        requires
            a@ == b@,
        ensures
            a == b,
    {
    }
}

impl<T: Clone> Lazy<T> {
    /// The relation between a cell and a `clone` of it: an empty cell gives
    /// an empty cell, a filled one gives a cell filled with what `T::clone`
    /// made of its value.
    pub open spec fn duplicates(&self, copy: Self) -> bool {
        match self@ {
            Some(held) => copy@ is Some && vstd::pervasive::strictly_cloned(held, copy@->0),
            None => copy@ is None,
        }
    }
}

impl<T: Clone> Clone for Lazy<T> {
    /// Makes a second cell that owns its own value. Runs no initializer.
    fn clone(&self) -> (copy: Self)
        ensures
            self.duplicates(copy),
    {
        match self.get() {
            Some(held) => Lazy(Some(held.clone())),
            None => Self::new(),
        }
    }
}

} // verus!
