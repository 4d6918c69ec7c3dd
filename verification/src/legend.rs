//! The legend of a plot: the options under `legend` in its option tree.

use vstd::prelude::*;
use json::JsonValue;
use crate::plot::Plot;
use crate::tree::Tree;
use crate::value::{boolean, is_null, json_tree, member, member_mut, new_object, text};

verus! {

/// Describes the position of the legend (`Hidden` for no legend).
#[derive(Clone, Copy, Debug, PartialEq, Eq, Structural)]
pub enum Corner {
    Hidden,
    TopRight,
    TopLeft,
    BottomRight,
    BottomLeft,
}

impl Corner {
    /// The corner as the legend options name it: by compass, north for the
    /// top, south for the bottom, east for the right and west for the left.
    pub open spec fn name(self) -> Seq<char> {
        match self {
            Corner::Hidden => "none"@,
            Corner::TopRight => "ne"@,
            Corner::TopLeft => "nw"@,
            Corner::BottomRight => "se"@,
            Corner::BottomLeft => "sw"@,
        }
    }

    /// The corner as the legend options name it.
    pub fn to_str(&self) -> (s: &'static str)
        ensures
            s@ == self.name(),
    {
        match *self {
            Corner::Hidden => "none",
            Corner::TopRight => "ne",
            Corner::TopLeft => "nw",
            Corner::BottomRight => "se",
            Corner::BottomLeft => "sw",
        }
    }
}

/// The option tree with the legend at `pos`: hidden for no corner, and else
/// placed in that corner.
pub open spec fn with_legend_pos(options: Tree, pos: Corner) -> Tree {
    if pos == Corner::Hidden {
        options.with_nested("legend"@, "show"@, Tree::Boolean(false))
    } else {
        options.with_nested("legend"@, "position"@, Tree::Text(pos.name()))
    }
}

/// Represents the legend of a plot.
pub struct Legend<'a> {
    pub plot: &'a mut Plot,
}

impl<'a> Legend<'a> {
    /// The legend of `plot`; where the plot has no legend options yet, it
    /// gets them, empty.
    pub(crate) fn new(plot: &'a mut Plot) -> (l: Legend<'a>)
        ensures
            l.plot@ == old(plot)@.with_options(old(plot)@.options.with_object_at("legend"@)),
            *final(l.plot) == *final(plot),
    {
        if is_null(member(plot.options(), "legend")) {
            *member_mut(plot.options_mut(), "legend") = new_object();
        }
        Legend { plot }
    }

    /// Sets any legend option.
    pub fn set_option(&mut self, key: &str, val: JsonValue) -> (r: &mut Self)
        ensures
            r.plot@ == old(self).plot@.with_options(
                old(self).plot@.options.with_nested("legend"@, key@, json_tree(val)),
            ),
            *final(r.plot) == *final(old(self).plot),
            *final(self) == *final(r),
    {
        *member_mut(member_mut(self.plot.options_mut(), "legend"), key) = val;
        self
    }

    /// Sets the position of the legend (`Corner::Hidden` to hide it).
    pub fn pos(&mut self, pos: Corner) -> (r: &mut Self)
        ensures
            r.plot@ == old(self).plot@.with_options(
                with_legend_pos(old(self).plot@.options, pos),
            ),
            *final(r.plot) == *final(old(self).plot),
            *final(self) == *final(r),
    {
        match pos {
            Corner::Hidden => self.set_option("show", boolean(false)),
            _ => self.set_option("position", text(pos.to_str())),
        }
    }
}

} // verus!
