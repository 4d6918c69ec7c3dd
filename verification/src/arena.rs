//! The arenas of the `typed_arena` crate that hold a plot's series and a
//! page's plots, seen through the sequence of what they hold.
//!
//! An arena only grows: an item keeps its position from the moment it is
//! added. Every function in this module is a call into `typed_arena` whose
//! contract says what that crate's source shows; none of them is proved.

use vstd::prelude::*;
use typed_arena::Arena;
use crate::plot::Plot;
use crate::series::Series;

verus! {

#[verifier::external_type_specification]
#[verifier::external_body]
#[verifier::reject_recursive_types(T)]
pub struct ExArena<T>(typed_arena::Arena<T>);

/// The series that an arena holds, in the order in which they were added.
pub uninterp spec fn series_held(arena: Arena<Series>) -> Seq<Series>;

/// The plots that an arena holds, in the order in which they were added.
pub uninterp spec fn plots_held(arena: Arena<Plot>) -> Seq<Plot>;

/// `Arena::new`: an arena that holds nothing.
#[verifier::external_body]
pub(crate) fn new_series_arena() -> (arena: Arena<Series>)
    ensures
        series_held(arena) == Seq::<Series>::empty(),
{
    Arena::new()
}

/// `Arena::len`: the number of items that the arena holds.
#[verifier::external_body]
pub(crate) fn series_count(arena: &Arena<Series>) -> (n: usize)
    ensures
        n == series_held(*arena).len(),
{
    arena.len()
}

/// `Arena::alloc`: adds `item` after all that the arena holds and gives its
/// place. What is written to the place is what the arena then holds last.
#[verifier::external_body]
pub(crate) fn add_series<'a>(arena: &'a mut Arena<Series>, item: Series) -> (r: &'a mut Series)
    ensures
        *r == item,
        series_held(*final(arena)) == series_held(*old(arena)).push(*final(r)),
{
    arena.alloc(item)
}

/// `Arena::iter_mut`, which yields the items in the order in which they were
/// added, taken to its item number `index`: the place of that item, or
/// nothing where the arena holds no more than `index` items.
#[verifier::external_body]
pub(crate) fn series_place<'a>(arena: &'a mut Arena<Series>, index: usize) -> (r: Option<
    &'a mut Series,
>)
    ensures
        r is Some <==> index < series_held(*old(arena)).len(),
        r is Some ==> *r->Some_0 == series_held(*old(arena))[index as int] && series_held(
            *final(arena),
        ) == series_held(*old(arena)).update(index as int, *final(r->Some_0)),
        r is None ==> *final(arena) == *old(arena),
{
    arena.iter_mut().nth(index)
}

/// `Arena::into_vec`: the items in the order in which they were added.
#[verifier::external_body]
pub(crate) fn into_series(arena: Arena<Series>) -> (items: Vec<Series>)
    ensures
        items@ == series_held(arena),
{
    arena.into_vec()
}

/// `Arena::new`: an arena that holds nothing.
#[verifier::external_body]
pub(crate) fn new_plot_arena() -> (arena: Arena<Plot>)
    ensures
        plots_held(arena) == Seq::<Plot>::empty(),
{
    Arena::new()
}

/// `Arena::alloc`: adds `item` after all that the arena holds and gives its
/// place. What is written to the place is what the arena then holds last.
#[verifier::external_body]
pub(crate) fn add_plot<'a>(arena: &'a mut Arena<Plot>, item: Plot) -> (r: &'a mut Plot)
    ensures
        *r == item,
        plots_held(*final(arena)) == plots_held(*old(arena)).push(*final(r)),
{
    arena.alloc(item)
}

/// `Arena::iter_mut`, which yields the items in the order in which they were
/// added, taken to its item number `index`: the place of that item, or
/// nothing where the arena holds no more than `index` items.
#[verifier::external_body]
pub(crate) fn plot_place<'a>(arena: &'a mut Arena<Plot>, index: usize) -> (r: Option<&'a mut Plot>)
    ensures
        r is Some <==> index < plots_held(*old(arena)).len(),
        r is Some ==> *r->Some_0 == plots_held(*old(arena))[index as int] && plots_held(
            *final(arena),
        ) == plots_held(*old(arena)).update(index as int, *final(r->Some_0)),
        r is None ==> *final(arena) == *old(arena),
{
    arena.iter_mut().nth(index)
}

/// `Arena::into_vec`: the items in the order in which they were added.
#[verifier::external_body]
pub(crate) fn into_plots(arena: Arena<Plot>) -> (items: Vec<Plot>)
    ensures
        items@ == plots_held(arena),
{
    arena.into_vec()
}

} // verus!
