//! Laws of the cell: what holds across several operations.
//!
//! Every law here is proved from the public contracts of the operations.
//! This module sees no more of a cell than any caller does, so whatever it
//! proves, a caller can rely on as well.

use crate::cell::Lazy;
use vstd::prelude::*;

verus! {

/// A filled cell ignores initializers.
///
/// `get_or_create` on a filled cell is admitted whatever `g` requires, even
/// if `g` could never be called: so `g` is not run. The call hands out the
/// value that was there and leaves the cell as it was.
pub proof fn lemma_filled_cell_ignores_initializer<T, G: FnOnce() -> T>(
    cell: Lazy<T>,
    held: T,
    g: G,
    after: Lazy<T>,
    value: T,
)
    requires
        cell@ == Some(held),
    ensures
        cell.accepts(g),
        cell.creates(g, after, value) ==> value == held && after == cell,
{
    if cell.creates(g, after, value) {
        Lazy::lemma_view_is_whole_cell(after, cell);
    }
}

/// Memoization.
///
/// Of two `get_or_create` in a row on one cell, the second hands out the
/// value that the first handed out and leaves the cell as the first left it.
/// The second initializer `g` is not run: the call is admitted whatever `g`
/// requires. The first initializer `f` is run only if the cell started out
/// empty, and then the value handed out both times is one that `f` returned.
pub proof fn lemma_get_or_create_memoizes<T, F: FnOnce() -> T, G: FnOnce() -> T>(
    start: Lazy<T>,
    f: F,
    filled: Lazy<T>,
    first: T,
    g: G,
    end: Lazy<T>,
    second: T,
)
    requires
        start.creates(f, filled, first),
        filled.creates(g, end, second),
    ensures
        second == first,
        end == filled,
        filled.accepts(g),
        start@ is None ==> f.ensures((), first),
        start@ is Some ==> start.accepts(f) && filled == start,
{
    lemma_filled_cell_ignores_initializer(filled, first, g, end, second);
    if start@ is Some {
        lemma_filled_cell_ignores_initializer(start, start@->0, f, filled, first);
    }
}

/// What `get_or_create` hands out is what the cell shows from then on: `get`
/// borrows that value, and `into_inner` would hand it out.
pub proof fn lemma_created_value_is_held<T, F: FnOnce() -> T>(
    cell: Lazy<T>,
    f: F,
    after: Lazy<T>,
    value: T,
)
    requires
        cell.creates(f, after, value),
    ensures
        after.get() == Some(&value),
        after@ == Some(value),
{
}

/// An empty cell has only empty clones, and they are the fresh cell again.
pub proof fn lemma_clone_of_empty_is_new<T: Clone>(cell: Lazy<T>, copy: Lazy<T>)
    requires
        cell@ is None,
        cell.duplicates(copy),
    ensures
        copy == Lazy::<T>::new(),
        copy.get() is None,
{
    Lazy::<T>::lemma_new_is_empty();
    Lazy::lemma_view_is_whole_cell(copy, Lazy::<T>::new());
}

/// Where `T::clone` hands back a value equal to the one it was given, a
/// clone of a cell is equal to the cell: it holds and shows the same value.
pub proof fn lemma_clone_of_faithful_value<T: Clone>(cell: Lazy<T>, copy: Lazy<T>)
    requires
        cell.duplicates(copy),
        forall|a: T, b: T| #[trigger] vstd::pervasive::strictly_cloned(a, b) ==> a == b,
    ensures
        copy == cell,
        copy.get() == cell.get(),
{
    Lazy::lemma_view_is_whole_cell(copy, cell);
}

} // verus!
