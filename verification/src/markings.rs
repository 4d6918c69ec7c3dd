//! Markings: bands, lines and areas drawn over the grid of a plot.
//!
//! The markings of a plot are an array under `grid.markings` in its option
//! tree. A marking is added at the end, and a colour goes to the marking
//! that was added last.

use vstd::prelude::*;
use json::JsonValue;
use crate::number::Decimal;
use crate::plot::Plot;
use crate::series::BuildError;
use crate::tree::{lemma_key_index_is, lemma_nested_of_with_nested, Tree};
use crate::value::{
    is_array, json_tree, len, member, member_mut, new_array, new_object, number, push, slot_mut,
    text,
};

verus! {

/// The markings in an option tree.
pub open spec fn markings_of(options: Tree) -> Tree {
    options.nested("grid"@, "markings"@)
}

/// The option tree with other markings.
pub open spec fn with_markings(options: Tree, markings: Tree) -> Tree {
    options.with_nested("grid"@, "markings"@, markings)
}

/// The option tree with one more marking, after those it has.
pub open spec fn with_marking(options: Tree, marking: Tree) -> Tree {
    with_markings(options, markings_of(options).pushed(marking))
}

/// The option tree with `color` as the colour of the last marking. Every
/// other marking stays as it is.
pub open spec fn with_marking_color(options: Tree, color: Seq<char>) -> Tree {
    let markings = markings_of(options);
    let last = markings.count() - 1;
    with_markings(
        options,
        markings.with_slot(last, markings.slot(last).with_member("color"@, Tree::Text(color))),
    )
}

/// A range on an axis.
pub open spec fn range_tree(from: Decimal, to: Decimal) -> Tree {
    Tree::Object(
        seq![
            ("from"@, Tree::Number(from.normalized())),
            ("to"@, Tree::Number(to.normalized())),
        ],
    )
}

/// A band over the plot: a range on the axis under `axis`.
pub open spec fn band_tree(axis: Seq<char>, from: Decimal, to: Decimal) -> Tree {
    Tree::Object(seq![(axis, range_tree(from, to))])
}

/// A rectangle over the plot: a range on the x axis and one on the y axis.
pub open spec fn area_tree(x1: Decimal, x2: Decimal, y1: Decimal, y2: Decimal) -> Tree {
    Tree::Object(seq![("xaxis"@, range_tree(x1, x2)), ("yaxis"@, range_tree(y1, y2))])
}

fn range(from: Decimal, to: Decimal) -> (v: JsonValue)
    ensures
        json_tree(v) == range_tree(from, to),
{
    let mut v = new_object();
    *member_mut(&mut v, "from") = number(from);
    *member_mut(&mut v, "to") = number(to);
    proof {
        reveal_strlit("from");
        reveal_strlit("to");
        assert("from"@.len() == 4 && "to"@.len() == 2);
        let f = ("from"@, Tree::Number(from.normalized()));
        let t = ("to"@, Tree::Number(to.normalized()));
        lemma_key_index_is(seq![f], "to"@, 1);
        assert(seq![f].push(t) =~= seq![f, t]);
    }
    v
}

fn band(axis: &str, from: Decimal, to: Decimal) -> (v: JsonValue)
    ensures
        json_tree(v) == band_tree(axis@, from, to),
{
    let mut v = new_object();
    *member_mut(&mut v, axis) = range(from, to);
    v
}

/// Represents the markings, or annotations, of a plot.
pub struct Markings<'a> {
    pub plot: &'a mut Plot,
}

impl<'a> Markings<'a> {
    /// The markings of the plot are an array: this is what `Plot::markings`
    /// establishes and every method here keeps.
    pub open spec fn wf(&self) -> bool {
        markings_of(self.plot@.options) is Array
    }

    /// The number of markings.
    pub open spec fn count(&self) -> nat {
        markings_of(self.plot@.options).count()
    }

    /// Starts the markings of `plot` anew, with none.
    pub(crate) fn new(plot: &'a mut Plot) -> (m: Markings<'a>)
        ensures
            m.plot@ == old(plot)@.with_options(
                with_markings(old(plot)@.options, Tree::empty_array()),
            ),
            m.wf(),
            *final(m.plot) == *final(plot),
    {
        proof {
            lemma_nested_of_with_nested(plot@.options, "grid"@, "markings"@, Tree::empty_array());
        }
        plot.set_option("grid", "markings", new_array());
        Markings { plot }
    }

    /// Adds a marking after those that the plot has.
    pub fn add_marking(&mut self, val: JsonValue) -> (r: &mut Self)
        requires
            old(self).wf(),
        ensures
            r.plot@ == old(self).plot@.with_options(
                with_marking(old(self).plot@.options, json_tree(val)),
            ),
            r.wf(),
            *final(r.plot) == *final(old(self).plot),
            *final(self) == *final(r),
    {
        proof {
            let options = self.plot@.options;
            lemma_nested_of_with_nested(
                options,
                "grid"@,
                "markings"@,
                markings_of(options).pushed(json_tree(val)),
            );
        }
        let markings = member_mut(member_mut(self.plot.options_mut(), "grid"), "markings");
        push(markings, val).unwrap();
        self
    }

    /// Adds a vertical band over the plot.
    pub fn vertical_area(&mut self, from: Decimal, to: Decimal) -> (r: &mut Self)
        requires
            old(self).wf(),
        ensures
            r.plot@ == old(self).plot@.with_options(
                with_marking(old(self).plot@.options, band_tree("xaxis"@, from, to)),
            ),
            r.wf(),
            *final(r.plot) == *final(old(self).plot),
            *final(self) == *final(r),
    {
        self.add_marking(band("xaxis", from, to))
    }

    /// Adds a horizontal band over the plot.
    pub fn horizontal_area(&mut self, from: Decimal, to: Decimal) -> (r: &mut Self)
        requires
            old(self).wf(),
        ensures
            r.plot@ == old(self).plot@.with_options(
                with_marking(old(self).plot@.options, band_tree("yaxis"@, from, to)),
            ),
            r.wf(),
            *final(r.plot) == *final(old(self).plot),
            *final(self) == *final(r),
    {
        self.add_marking(band("yaxis", from, to))
    }

    /// Adds a vertical line at an x position.
    pub fn vertical_line(&mut self, pos: Decimal) -> (r: &mut Self)
        requires
            old(self).wf(),
        ensures
            r.plot@ == old(self).plot@.with_options(
                with_marking(old(self).plot@.options, band_tree("xaxis"@, pos, pos)),
            ),
            r.wf(),
            *final(r.plot) == *final(old(self).plot),
            *final(self) == *final(r),
    {
        self.vertical_area(pos, pos)
    }

    /// Adds a horizontal line at a y position.
    pub fn horizontal_line(&mut self, pos: Decimal) -> (r: &mut Self)
        requires
            old(self).wf(),
        ensures
            r.plot@ == old(self).plot@.with_options(
                with_marking(old(self).plot@.options, band_tree("yaxis"@, pos, pos)),
            ),
            r.wf(),
            *final(r.plot) == *final(old(self).plot),
            *final(self) == *final(r),
    {
        self.horizontal_area(pos, pos)
    }

    /// Adds a rectangular area, given as (x1, x2, y1, y2).
    pub fn area(&mut self, x1: Decimal, x2: Decimal, y1: Decimal, y2: Decimal) -> (r: &mut Self)
        requires
            old(self).wf(),
        ensures
            r.plot@ == old(self).plot@.with_options(
                with_marking(old(self).plot@.options, area_tree(x1, x2, y1, y2)),
            ),
            r.wf(),
            *final(r.plot) == *final(old(self).plot),
            *final(self) == *final(r),
    {
        let mut v = new_object();
        *member_mut(&mut v, "xaxis") = range(x1, x2);
        *member_mut(&mut v, "yaxis") = range(y1, y2);
        proof {
            reveal_strlit("xaxis");
            reveal_strlit("yaxis");
            assert("xaxis"@[0] == 'x' && "yaxis"@[0] == 'y');
            let x = ("xaxis"@, range_tree(x1, x2));
            let y = ("yaxis"@, range_tree(y1, y2));
            lemma_key_index_is(seq![x], "yaxis"@, 1);
            assert(seq![x].push(y) =~= seq![x, y]);
        }
        self.add_marking(v)
    }

    /// Whether a colour can be given: the markings are an array and hold at
    /// least one marking. Where none was added yet, the caller is told so,
    /// and nothing is changed by asking.
    pub fn check(&self) -> (r: Result<(), BuildError>)
        ensures
            r is Ok <==> self.wf() && self.count() > 0,
            r is Err ==> r->Err_0 == BuildError::NoMarking,
    {
        let markings = member(member(self.plot.options(), "grid"), "markings");
        if is_array(markings) && len(markings) > 0 {
            Ok(())
        } else {
            Err(BuildError::NoMarking)
        }
    }

    /// Sets the colour of the marking that was added last; every marking
    /// before it stays as it is. To give a colour before any marking was
    /// added is an error of the caller, which `check` tells.
    pub fn color(&mut self, color: &str) -> (r: &mut Self)
        requires
            old(self).wf(),
            old(self).count() > 0,
        ensures
            r.plot@ == old(self).plot@.with_options(
                with_marking_color(old(self).plot@.options, color@),
            ),
            r.wf(),
            *final(r.plot) == *final(old(self).plot),
            *final(self) == *final(r),
    {
        let n = len(member(member(self.plot.options(), "grid"), "markings"));
        proof {
            let options = self.plot@.options;
            let markings = markings_of(options);
            lemma_nested_of_with_nested(
                options,
                "grid"@,
                "markings"@,
                markings.with_slot(
                    n - 1,
                    markings.slot(n - 1).with_member("color"@, Tree::Text(color@)),
                ),
            );
        }
        let markings = member_mut(member_mut(self.plot.options_mut(), "grid"), "markings");
        *member_mut(slot_mut(markings, n - 1), "color") = text(color);
        self
    }
}

} // verus!
