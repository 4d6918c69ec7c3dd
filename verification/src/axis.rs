//! The axes of a plot.
//!
//! The x axes and the y axes of a plot are two arrays in its option tree;
//! an axis is one slot of such an array and holds the options of that axis.

use vstd::prelude::*;
use vstd::string::*;
use json::JsonValue;
use crate::number::Decimal;
use crate::plot::{Plot, PlotView};
use crate::text::{debug_text, decimal_text, push_decimal, quoted, starts_with};
use crate::tree::{empty_objects, Tree};
use crate::value::{
    is_array, json_tree, len, member_mut, new_array, new_object, number, push, slot_mut, text,
};

verus! {

/// Describes the sides of a plot, for the position of an axis.
#[derive(Clone, Copy, Debug, PartialEq, Eq, Structural)]
pub enum Side {
    Right,
    Left,
    Bottom,
    Top,
}

impl Side {
    /// The side as the axis options name it.
    pub open spec fn name(self) -> Seq<char> {
        match self {
            Side::Right => "right"@,
            Side::Left => "left"@,
            Side::Bottom => "bottom"@,
            Side::Top => "top"@,
        }
    }

    /// The side as the axis options name it.
    pub fn to_str(&self) -> (s: &'static str)
        ensures
            s@ == self.name(),
    {
        match *self {
            Side::Right => "right",
            Side::Left => "left",
            Side::Bottom => "bottom",
            Side::Top => "top",
        }
    }
}

/// The option tree once the axes under `which` have at least `n` slots.
pub open spec fn with_axes(options: Tree, which: Seq<char>, n: nat) -> Tree {
    options.with_member(which, options.member(which).with_slots(n))
}

/// The option tree after `value` was written under `key` in slot `idx` of
/// the axes under `which`.
pub open spec fn with_axis_option(
    options: Tree,
    which: Seq<char>,
    idx: int,
    key: Seq<char>,
    value: Tree,
) -> Tree {
    let axes = options.member(which);
    options.with_member(which, axes.with_slot(idx, axes.slot(idx).with_member(key, value)))
}

/// The assignment that gives slot `idx` of the axes under `which` the
/// JavaScript function `fun` as its `var`.
pub open spec fn axis_assignment(which: Seq<char>, idx: nat, var: Seq<char>, fun: Seq<char>)
    -> Seq<char> {
    which + "["@ + decimal_text(idx) + "]."@ + var + " = "@ + fun
}

/// The function that transforms axis values: `source` itself where it is
/// written as a function, and else a function of `v` that returns the
/// expression `source`.
pub open spec fn transform_function(source: Seq<char>) -> Seq<char> {
    if "function"@.is_prefix_of(source) {
        source
    } else {
        "function (v) { return "@ + source + "; }"@
    }
}

/// The formatter that writes a string after the default label of a tick.
/// `quoted` is the string as a JavaScript literal, quotes included.
pub open spec fn label_post_text(quoted: Seq<char>) -> Seq<char> {
    "function(v,a) { return v.toFixed(a.tickDecimals) + "@ + quoted + "; }"@
}

/// The formatter that writes a string before the default label of a tick.
/// `quoted` is the string as a JavaScript literal, quotes included.
pub open spec fn label_pre_text(quoted: Seq<char>) -> Seq<char> {
    "function(v,a) { return "@ + quoted + " + v.toFixed(a.tickDecimals); }"@
}

/// The formatter that writes a string after the default label of a tick.
/// `quoted` is the string as a JavaScript literal, quotes included.
pub fn label_post_function(quoted: &str) -> (fun: String)
    ensures
        fun@ == label_post_text(quoted@),
{
    let mut fun = String::from_str("function(v,a) { return v.toFixed(a.tickDecimals) + ");
    fun.append(quoted);
    fun.append("; }");
    fun
}

/// The formatter that writes a string before the default label of a tick.
/// `quoted` is the string as a JavaScript literal, quotes included.
pub fn label_pre_function(quoted: &str) -> (fun: String)
    ensures
        fun@ == label_pre_text(quoted@),
{
    let mut fun = String::from_str("function(v,a) { return ");
    fun.append(quoted);
    fun.append(" + v.toFixed(a.tickDecimals); }");
    fun
}

/// Tick positions as an array of numbers.
pub open spec fn ticks_tree(values: Seq<Decimal>) -> Tree {
    Tree::Array(values.map_values(|v: Decimal| Tree::Number(v.normalized())))
}

/// A tick position with its label: the array of both.
pub open spec fn labelled_tick_tree(tick: (Decimal, &str)) -> Tree {
    Tree::Array(seq![Tree::Number(tick.0.normalized()), Tree::Text(tick.1@)])
}

/// Tick positions with their labels as an array of pairs.
pub open spec fn labelled_ticks_tree(ticks: Seq<(Decimal, &str)>) -> Tree {
    Tree::Array(ticks.map_values(|t: (Decimal, &str)| labelled_tick_tree(t)))
}

/// Makes `axes` an array of at least `n` slots: what is missing is filled
/// with empty objects.
fn ensure_slots(axes: &mut JsonValue, n: usize)
    ensures
        json_tree(*final(axes)) == json_tree(*old(axes)).with_slots(n as nat),
{
    if !is_array(axes) {
        *axes = new_array();
    }
    let ghost start = json_tree(*axes).items();
    let mut k = len(axes);
    while k < n
        invariant
            start.len() <= k,
            k <= n || k == start.len(),
            json_tree(*axes) == Tree::Array(start + empty_objects((k - start.len()) as nat)),
        decreases n - k,
    {
        push(axes, new_object()).unwrap();
        k += 1;
        proof {
            assert((start + empty_objects((k - 1 - start.len()) as nat)).push(Tree::empty_object())
                =~= start + empty_objects((k - start.len()) as nat));
        }
    }
}

/// Represents an axis: slot `idx` of the axes under `which` in the option
/// tree of `plot`.
pub struct Axis<'a> {
    pub which: &'static str,
    pub plot: &'a mut Plot,
    pub idx: usize,
}

impl<'a> Axis<'a> {
    /// The axis number `idx`, counted from 1, of the axes under `which`.
    /// Slots that the axis and those before it lack are created empty.
    pub(crate) fn new(which: &'static str, plot: &'a mut Plot, idx: usize) -> (axis: Axis<'a>)
        requires
            idx >= 1,
        ensures
            axis.which == which,
            axis.idx == idx - 1,
            axis.plot@ == old(plot)@.with_options(
                with_axes(old(plot)@.options, which@, idx as nat),
            ),
            *final(axis.plot) == *final(plot),
    {
        ensure_slots(member_mut(plot.options_mut(), which), idx);
        Axis { which, plot, idx: idx - 1 }
    }

    /// Sets any option of this axis.
    pub fn set_option(&mut self, key: &str, val: JsonValue) -> (r: &mut Self)
        ensures
            r.plot@ == old(self).plot@.with_options(
                with_axis_option(
                    old(self).plot@.options,
                    old(self).which@,
                    old(self).idx as int,
                    key@,
                    json_tree(val),
                ),
            ),
            r.which == old(self).which,
            r.idx == old(self).idx,
            *final(r.plot) == *final(old(self).plot),
            *final(self) == *final(r),
    {
        let axes = member_mut(self.plot.options_mut(), self.which);
        *member_mut(slot_mut(axes, self.idx), key) = val;
        self
    }

    /// Gives this axis the JavaScript function `fun` as its `var`.
    fn axis_function(&mut self, var: &str, fun: &str) -> (r: &mut Self)
        ensures
            r.plot@ == old(self).plot@.with_option_function(
                axis_assignment(old(self).which@, old(self).idx as nat, var@, fun@),
            ),
            r.which == old(self).which,
            r.idx == old(self).idx,
            *final(r.plot) == *final(old(self).plot),
            *final(self) == *final(r),
    {
        let mut assignment = String::from_str(self.which);
        assignment.append("[");
        push_decimal(&mut assignment, self.idx as u64);
        assignment.append("].");
        assignment.append(var);
        assignment.append(" = ");
        assignment.append(fun);
        self.plot.add_option_function(assignment);
        self
    }

    /// Sets the conversion function to apply to axis values: either a
    /// JavaScript expression in `v` or the full function.
    pub fn transform(&mut self, expr_or_fun: &str) -> (r: &mut Self)
        ensures
            r.plot@ == old(self).plot@.with_option_function(
                axis_assignment(
                    old(self).which@,
                    old(self).idx as nat,
                    "transform"@,
                    transform_function(expr_or_fun@),
                ),
            ),
            r.which == old(self).which,
            r.idx == old(self).idx,
            *final(r.plot) == *final(old(self).plot),
            *final(self) == *final(r),
    {
        if starts_with(expr_or_fun, "function") {
            self.axis_function("transform", expr_or_fun)
        } else {
            let mut fun = String::from_str("function (v) { return ");
            fun.append(expr_or_fun);
            fun.append("; }");
            self.axis_function("transform", fun.as_str())
        }
    }

    /// Sets the JavaScript function that formats the labels of the ticks.
    pub fn label_formatter(&mut self, fun: &str) -> (r: &mut Self)
        ensures
            r.plot@ == old(self).plot@.with_option_function(
                axis_assignment(old(self).which@, old(self).idx as nat, "tickFormatter"@, fun@),
            ),
            r.which == old(self).which,
            r.idx == old(self).idx,
            *final(r.plot) == *final(old(self).plot),
            *final(self) == *final(r),
    {
        self.axis_function("tickFormatter", fun)
    }

    /// Appends a string to the default label.
    pub fn label_post(&mut self, s: &str) -> (r: &mut Self)
        ensures
            r.plot@ == old(self).plot@.with_option_function(
                axis_assignment(
                    old(self).which@,
                    old(self).idx as nat,
                    "tickFormatter"@,
                    label_post_text(debug_text(s@)),
                ),
            ),
            r.which == old(self).which,
            r.idx == old(self).idx,
            *final(r.plot) == *final(old(self).plot),
            *final(self) == *final(r),
    {
        let fun = label_post_function(quoted(s).as_str());
        self.label_formatter(fun.as_str())
    }

    /// Prepends a string to the default label.
    pub fn label_pre(&mut self, s: &str) -> (r: &mut Self)
        ensures
            r.plot@ == old(self).plot@.with_option_function(
                axis_assignment(
                    old(self).which@,
                    old(self).idx as nat,
                    "tickFormatter"@,
                    label_pre_text(debug_text(s@)),
                ),
            ),
            r.which == old(self).which,
            r.idx == old(self).idx,
            *final(r.plot) == *final(old(self).plot),
            *final(self) == *final(r),
    {
        let fun = label_pre_function(quoted(s).as_str());
        self.label_formatter(fun.as_str())
    }

    /// Forces the minimum value on the axis.
    pub fn min(&mut self, min: Decimal) -> (r: &mut Self)
        ensures
            r.plot@ == old(self).plot@.with_options(
                with_axis_option(
                    old(self).plot@.options,
                    old(self).which@,
                    old(self).idx as int,
                    "min"@,
                    Tree::Number(min.normalized()),
                ),
            ),
            r.which == old(self).which,
            r.idx == old(self).idx,
            *final(r.plot) == *final(old(self).plot),
            *final(self) == *final(r),
    {
        self.set_option("min", number(min))
    }

    /// Forces the maximum value on the axis.
    pub fn max(&mut self, max: Decimal) -> (r: &mut Self)
        ensures
            r.plot@ == old(self).plot@.with_options(
                with_axis_option(
                    old(self).plot@.options,
                    old(self).which@,
                    old(self).idx as int,
                    "max"@,
                    Tree::Number(max.normalized()),
                ),
            ),
            r.which == old(self).which,
            r.idx == old(self).idx,
            *final(r.plot) == *final(old(self).plot),
            *final(self) == *final(r),
    {
        self.set_option("max", number(max))
    }

    /// Sets the position of the axis. An axis on the right also has its
    /// ticks aligned with those of the first axis.
    pub fn position(&mut self, side: Side) -> (r: &mut Self)
        ensures
            r.plot@ == old(self).plot@.with_options(
                with_axis_option(
                    if side is Right {
                        with_axis_option(
                            old(self).plot@.options,
                            old(self).which@,
                            old(self).idx as int,
                            "alignTicksWithAxis"@,
                            Tree::Number(Decimal::whole(1)),
                        )
                    } else {
                        old(self).plot@.options
                    },
                    old(self).which@,
                    old(self).idx as int,
                    "position"@,
                    Tree::Text(side.name()),
                ),
            ),
            r.which == old(self).which,
            r.idx == old(self).idx,
            *final(r.plot) == *final(old(self).plot),
            *final(self) == *final(r),
    {
        match side {
            Side::Right => {
                self.set_option("alignTicksWithAxis", number(Decimal::from_u32(1)));
            },
            _ => {},
        }
        self.set_option("position", text(side.to_str()))
    }

    /// Indicates that this axis uses time values, given in milliseconds.
    pub fn time(&mut self) -> (r: &mut Self)
        ensures
            r.plot@ == (PlotView {
                time: true,
                options: with_axis_option(
                    old(self).plot@.options,
                    old(self).which@,
                    old(self).idx as int,
                    "mode"@,
                    Tree::Text("time"@),
                ),
                ..old(self).plot@
            }),
            r.which == old(self).which,
            r.idx == old(self).idx,
            *final(r.plot) == *final(old(self).plot),
            *final(self) == *final(r),
    {
        self.plot.set_time();
        self.set_option("mode", text("time"))
    }

    /// Provides the tick values.
    pub fn tick_values(&mut self, vv: &[Decimal]) -> (r: &mut Self)
        ensures
            r.plot@ == old(self).plot@.with_options(
                with_axis_option(
                    old(self).plot@.options,
                    old(self).which@,
                    old(self).idx as int,
                    "ticks"@,
                    ticks_tree(vv@),
                ),
            ),
            r.which == old(self).which,
            r.idx == old(self).idx,
            *final(r.plot) == *final(old(self).plot),
            *final(self) == *final(r),
    {
        let mut arr = new_array();
        let n = vv.len();
        let ghost f = |v: Decimal| Tree::Number(v.normalized());
        assert(vv@.take(0).map_values(f) =~= Seq::empty());
        for i in 0..n
            invariant
                n == vv@.len(),
                f == |v: Decimal| Tree::Number(v.normalized()),
                json_tree(arr) == Tree::Array(vv@.take(i as int).map_values(f)),
        {
            proof {
                assert(vv@.take(i + 1).map_values(f) =~= vv@.take(i as int).map_values(f).push(
                    f(vv@[i as int]),
                ));
            }
            push(&mut arr, number(vv[i])).unwrap();
        }
        proof {
            assert(vv@.take(n as int) == vv@);
        }
        self.set_option("ticks", arr)
    }

    /// Provides the tick values and their labels.
    pub fn tick_values_and_labels(&mut self, vv: &[(Decimal, &str)]) -> (r: &mut Self)
        ensures
            r.plot@ == old(self).plot@.with_options(
                with_axis_option(
                    old(self).plot@.options,
                    old(self).which@,
                    old(self).idx as int,
                    "ticks"@,
                    labelled_ticks_tree(vv@),
                ),
            ),
            r.which == old(self).which,
            r.idx == old(self).idx,
            *final(r.plot) == *final(old(self).plot),
            *final(self) == *final(r),
    {
        let mut arr = new_array();
        let n = vv.len();
        let ghost f = |t: (Decimal, &str)| labelled_tick_tree(t);
        assert(vv@.take(0).map_values(f) =~= Seq::empty());
        for i in 0..n
            invariant
                n == vv@.len(),
                f == |t: (Decimal, &str)| labelled_tick_tree(t),
                json_tree(arr) == Tree::Array(vv@.take(i as int).map_values(f)),
        {
            let mut pair = new_array();
            push(&mut pair, number(vv[i].0)).unwrap();
            push(&mut pair, text(vv[i].1)).unwrap();
            proof {
                assert(json_tree(pair) == labelled_tick_tree(vv@[i as int])) by {
                    assert(Seq::<Tree>::empty().push(Tree::Number(vv@[i as int].0.normalized())).push(
                        Tree::Text(vv@[i as int].1@),
                    ) =~= seq![
                        Tree::Number(vv@[i as int].0.normalized()),
                        Tree::Text(vv@[i as int].1@),
                    ]);
                }
                assert(vv@.take(i + 1).map_values(f) =~= vv@.take(i as int).map_values(f).push(
                    f(vv@[i as int]),
                ));
            }
            push(&mut arr, pair).unwrap();
        }
        proof {
            assert(vv@.take(n as int) == vv@);
        }
        self.set_option("ticks", arr)
    }
}

} // verus!
