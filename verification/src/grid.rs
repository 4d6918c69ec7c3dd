//! The grid area of a plot: the options under `grid` in its option tree.

use vstd::prelude::*;
use json::JsonValue;
use crate::plot::Plot;
use crate::tree::Tree;
use crate::value::{
    boolean, is_null, json_tree, member, member_mut, new_array, new_object, push, text,
};

verus! {

/// A gradient from the bottom colour to the top colour.
pub open spec fn gradient_tree(bottom: Seq<char>, top: Seq<char>) -> Tree {
    Tree::Object(seq![("colors"@, Tree::Array(seq![Tree::Text(bottom), Tree::Text(top)]))])
}

/// Represents the grid area of a plot.
pub struct Grid<'a> {
    pub plot: &'a mut Plot,
}

impl<'a> Grid<'a> {
    /// The grid of `plot`; where the plot has no grid options yet, it gets
    /// them, empty.
    pub(crate) fn new(plot: &'a mut Plot) -> (g: Grid<'a>)
        ensures
            g.plot@ == old(plot)@.with_options(old(plot)@.options.with_object_at("grid"@)),
            *final(g.plot) == *final(plot),
    {
        if is_null(member(plot.options(), "grid")) {
            *member_mut(plot.options_mut(), "grid") = new_object();
        }
        Grid { plot }
    }

    /// Sets any grid option.
    pub fn set_option(&mut self, key: &str, val: JsonValue) -> (r: &mut Self)
        ensures
            r.plot@ == old(self).plot@.with_options(
                old(self).plot@.options.with_nested("grid"@, key@, json_tree(val)),
            ),
            *final(r.plot) == *final(old(self).plot),
            *final(self) == *final(r),
    {
        *member_mut(member_mut(self.plot.options_mut(), "grid"), key) = val;
        self
    }

    /// Hides the grid completely.
    pub fn hide_grid(&mut self) -> (r: &mut Self)
        ensures
            r.plot@ == old(self).plot@.with_options(
                old(self).plot@.options.with_nested("grid"@, "show"@, Tree::Boolean(false)),
            ),
            *final(r.plot) == *final(old(self).plot),
            *final(self) == *final(r),
    {
        self.set_option("show", boolean(false))
    }

    /// Sets the foreground colour.
    pub fn color(&mut self, front: &str) -> (r: &mut Self)
        ensures
            r.plot@ == old(self).plot@.with_options(
                old(self).plot@.options.with_nested("grid"@, "color"@, Tree::Text(front@)),
            ),
            *final(r.plot) == *final(old(self).plot),
            *final(self) == *final(r),
    {
        self.set_option("color", text(front))
    }

    /// Sets the background colour.
    pub fn background_color(&mut self, back: &str) -> (r: &mut Self)
        ensures
            r.plot@ == old(self).plot@.with_options(
                old(self).plot@.options.with_nested(
                    "grid"@,
                    "backgroundColor"@,
                    Tree::Text(back@),
                ),
            ),
            *final(r.plot) == *final(old(self).plot),
            *final(self) == *final(r),
    {
        self.set_option("backgroundColor", text(back))
    }

    /// Sets a background gradient, from the bottom colour to the top colour.
    pub fn background_gradient(&mut self, bottom: &str, top: &str) -> (r: &mut Self)
        ensures
            r.plot@ == old(self).plot@.with_options(
                old(self).plot@.options.with_nested(
                    "grid"@,
                    "backgroundColor"@,
                    gradient_tree(bottom@, top@),
                ),
            ),
            *final(r.plot) == *final(old(self).plot),
            *final(self) == *final(r),
    {
        let mut colors = new_array();
        push(&mut colors, text(bottom)).unwrap();
        push(&mut colors, text(top)).unwrap();
        let mut v = new_object();
        *member_mut(&mut v, "colors") = colors;
        proof {
            let pair = seq![Tree::Text(bottom@), Tree::Text(top@)];
            assert(Seq::<Tree>::empty().push(Tree::Text(bottom@)).push(Tree::Text(top@)) =~= pair);
        }
        self.set_option("backgroundColor", v)
    }
}

} // verus!
