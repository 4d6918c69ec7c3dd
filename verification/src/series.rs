//! Data series: one trace of points drawn as lines, points or bars.

use vstd::prelude::*;
use json::JsonValue;
use crate::number::Decimal;
use crate::tree::{lemma_key_index_is, Tree};
use crate::value::{boolean, json_tree, member_mut, new_array, new_object, number, push, text};

verus! {

/// How a series is drawn. The kind names the object that holds the options
/// of that kind in the series' configuration.
#[derive(Clone, Copy, Debug, PartialEq, Eq, Structural)]
pub enum PlotKind {
    Lines,
    Points,
    Bars,
}

impl PlotKind {
    /// The key of the kind's options in a series' configuration.
    pub open spec fn name(self) -> Seq<char> {
        match self {
            PlotKind::Lines => "lines"@,
            PlotKind::Points => "points"@,
            PlotKind::Bars => "bars"@,
        }
    }

    /// The key of the kind's options in a series' configuration.
    pub fn to_str(&self) -> (s: &'static str)
        ensures
            s@ == self.name(),
    {
        match *self {
            PlotKind::Lines => "lines",
            PlotKind::Points => "points",
            PlotKind::Bars => "bars",
        }
    }
}

/// The options that only one kind of series has.
#[derive(Clone, Copy, Debug, PartialEq, Eq, Structural)]
pub enum Operation {
    Radius,
    Symbol,
    Steps,
    Width,
}

impl Operation {
    /// The one kind of series that has this option.
    pub open spec fn applies_to(self) -> PlotKind {
        match self {
            Operation::Radius => PlotKind::Points,
            Operation::Symbol => PlotKind::Points,
            Operation::Steps => PlotKind::Lines,
            Operation::Width => PlotKind::Bars,
        }
    }

    /// The option as a caller writes it.
    pub open spec fn label(self) -> Seq<char> {
        match self {
            Operation::Radius => "radius()"@,
            Operation::Symbol => "symbol()"@,
            Operation::Steps => "steps()"@,
            Operation::Width => "width()"@,
        }
    }

    /// The one kind of series that has this option.
    pub fn kind(&self) -> (k: PlotKind)
        ensures
            k == self.applies_to(),
    {
        match *self {
            Operation::Radius => PlotKind::Points,
            Operation::Symbol => PlotKind::Points,
            Operation::Steps => PlotKind::Lines,
            Operation::Width => PlotKind::Bars,
        }
    }

    /// The option as a caller writes it.
    pub fn to_str(&self) -> (s: &'static str)
        ensures
            s@ == self.label(),
    {
        match *self {
            Operation::Radius => "radius()",
            Operation::Symbol => "symbol()",
            Operation::Steps => "steps()",
            Operation::Width => "width()",
        }
    }
}

/// Why a builder call is an error of the caller. The calls themselves leave
/// these cases out; `Series::check` and `Markings::check` tell them before
/// the call.
#[derive(Clone, Copy, Debug, PartialEq, Eq, Structural)]
pub enum BuildError {
    /// `operation` was asked of a series of kind `kind`, which lacks it.
    KindMismatch { operation: Operation, kind: PlotKind },
    /// A colour was given before any marking was added.
    NoMarking,
}

impl BuildError {
    /// The refusal in words: the option, the kind that has it, and the kind
    /// of the series that was asked.
    pub open spec fn text(self) -> Seq<char> {
        match self {
            BuildError::KindMismatch { operation, kind } => operation.label()
                + " only applies to "@ + operation.applies_to().name() + ", not "@ + kind.name(),
            BuildError::NoMarking => "color() needs a marking to apply to"@,
        }
    }

    /// The refusal in words.
    pub fn message(&self) -> (s: String)
        ensures
            s@ == self.text(),
    {
        match *self {
            BuildError::KindMismatch { operation, kind } => {
                let mut s = String::from_str(operation.to_str());
                s.append(" only applies to ");
                s.append(operation.kind().to_str());
                s.append(", not ");
                s.append(kind.to_str());
                s
            },
            BuildError::NoMarking => String::from_str("color() needs a marking to apply to"),
        }
    }
}

/// A point as the data array holds it: the array of x and y.
pub open spec fn point_tree(p: (Decimal, Decimal)) -> Tree {
    Tree::Array(seq![Tree::Number(p.0.normalized()), Tree::Number(p.1.normalized())])
}

/// The data array of a series: its points in order.
pub open spec fn points_tree(points: Seq<(Decimal, Decimal)>) -> Tree {
    Tree::Array(points.map_values(|p: (Decimal, Decimal)| point_tree(p)))
}

/// The label of a series: null for the empty label, which keeps the series
/// out of the legend.
pub open spec fn label_tree(label: Seq<char>) -> Tree {
    if label.len() == 0 {
        Tree::Null
    } else {
        Tree::Text(label)
    }
}

/// The configuration of a new series: label, data, and the options of its
/// kind, which at first only say that the kind is shown.
pub open spec fn series_tree(kind: PlotKind, label: Seq<char>, points: Seq<(Decimal, Decimal)>)
    -> Tree {
    Tree::Object(
        seq![
            ("label"@, label_tree(label)),
            ("data"@, points_tree(points)),
            (kind.name(), Tree::Object(seq![("show"@, Tree::Boolean(true))])),
        ],
    )
}

/// What a series is: its kind, its configuration, and whether a symbol was
/// chosen for its points.
pub struct SeriesView {
    pub kind: PlotKind,
    pub data: Tree,
    pub symbols: bool,
}

impl SeriesView {
    /// A new series.
    pub open spec fn fresh(kind: PlotKind, label: Seq<char>, points: Seq<(Decimal, Decimal)>)
        -> SeriesView {
        SeriesView { kind, data: series_tree(kind, label, points), symbols: false }
    }

    /// The series with an attribute that every kind has.
    pub open spec fn with_attribute(self, key: Seq<char>, value: Tree) -> SeriesView {
        SeriesView { data: self.data.with_member(key, value), ..self }
    }

    /// The series with an option among those of its kind.
    pub open spec fn with_style(self, key: Seq<char>, value: Tree) -> SeriesView {
        SeriesView { data: self.data.with_nested(self.kind.name(), key, value), ..self }
    }

    /// The value of an option among those of the series' kind.
    pub open spec fn style(self, key: Seq<char>) -> Tree {
        self.data.nested(self.kind.name(), key)
    }
}

/// Describes a data series which can be plotted as lines, points or bars.
pub struct Series {
    data: JsonValue,
    kind: PlotKind,
    symbols: bool,
}

impl View for Series {
    type V = SeriesView;

    closed spec fn view(&self) -> SeriesView {
        SeriesView { kind: self.kind, data: json_tree(self.data), symbols: self.symbols }
    }
}

/// The three keys of a new series differ from each other.
proof fn lemma_series_keys(kind: PlotKind)
    ensures
        "label"@ != "data"@,
        kind.name() != "label"@,
        kind.name() != "data"@,
{
    reveal_strlit("label");
    reveal_strlit("data");
    reveal_strlit("lines");
    reveal_strlit("points");
    reveal_strlit("bars");
    assert("label"@[1] == 'a' && "lines"@[1] == 'i');
    assert("data"@[0] == 'd' && "bars"@[0] == 'b');
}

impl Series {
    pub(crate) fn new(kind: PlotKind, label: &str, data: Vec<(Decimal, Decimal)>) -> (s: Series)
        ensures
            s@ == SeriesView::fresh(kind, label@, data@),
    {
        let mut arr = new_array();
        let n = data.len();
        proof {
            assert(data@.take(0).map_values(|p: (Decimal, Decimal)| point_tree(p)) =~= Seq::empty());
        }
        for i in 0..n
            invariant
                n == data@.len(),
                json_tree(arr) == points_tree(data@.take(i as int)),
        {
            let p = data[i];
            let mut pair = new_array();
            push(&mut pair, number(p.0)).unwrap();
            push(&mut pair, number(p.1)).unwrap();
            proof {
                assert(json_tree(pair) == point_tree(p)) by {
                    assert(Seq::<Tree>::empty().push(Tree::Number(p.0.normalized())).push(
                        Tree::Number(p.1.normalized()),
                    ) =~= seq![Tree::Number(p.0.normalized()), Tree::Number(p.1.normalized())]);
                }
                let f = |p: (Decimal, Decimal)| point_tree(p);
                assert(data@.take(i + 1).map_values(f) =~= data@.take(i as int).map_values(f).push(
                    point_tree(p),
                ));
            }
            push(&mut arr, pair).unwrap();
        }
        proof {
            assert(data@.take(n as int) == data@);
        }
        let mut tree = new_object();
        let place = member_mut(&mut tree, "label");
        if !label.is_empty() {
            *place = text(label);
        }
        *member_mut(&mut tree, "data") = arr;
        let options = member_mut(&mut tree, kind.to_str());
        *options = new_object();
        *member_mut(options, "show") = boolean(true);
        proof {
            lemma_series_keys(kind);
            let l = ("label"@, label_tree(label@));
            let d = ("data"@, points_tree(data@));
            let k = (kind.name(), Tree::Object(seq![("show"@, Tree::Boolean(true))]));
            lemma_key_index_is(seq![l], "data"@, 1);
            lemma_key_index_is(seq![l, d], kind.name(), 2);
            assert(seq![l].push(d) =~= seq![l, d]);
            assert(seq![l, d].push(k) =~= seq![l, d, k]);
        }
        Series { data: tree, kind, symbols: false }
    }

    /// The place of the options of this series' kind.
    fn kind_ref(&mut self) -> (r: &mut JsonValue)
        ensures
            json_tree(*r) == old(self)@.data.member(old(self)@.kind.name()),
            final(self)@ == (SeriesView {
                data: old(self)@.data.with_member(old(self)@.kind.name(), json_tree(*final(r))),
                ..old(self)@
            }),
    {
        member_mut(&mut self.data, self.kind.to_str())
    }

    /// The series' configuration.
    pub fn data(&self) -> (r: &JsonValue)
        ensures
            json_tree(*r) == self@.data,
    {
        &self.data
    }

    /// How the series is drawn.
    pub fn kind(&self) -> (k: PlotKind)
        ensures
            k == self@.kind,
    {
        self.kind
    }

    /// Whether a symbol was chosen for the points of this series.
    pub fn has_symbols(&self) -> (b: bool)
        ensures
            b == self@.symbols,
    {
        self.symbols
    }

    /// Sets the x axis for this series (2 for the second).
    pub fn xaxis(&mut self, which: u32) -> (r: &mut Self)
        ensures
            r@ == old(self)@.with_attribute("xaxis"@, Tree::Number(Decimal::whole(which))),
            *final(self) == *final(r),
    {
        *member_mut(&mut self.data, "xaxis") = number(Decimal::from_u32(which));
        self
    }

    /// Sets the y axis for this series (2 for the second).
    pub fn yaxis(&mut self, which: u32) -> (r: &mut Self)
        ensures
            r@ == old(self)@.with_attribute("yaxis"@, Tree::Number(Decimal::whole(which))),
            *final(self) == *final(r),
    {
        *member_mut(&mut self.data, "yaxis") = number(Decimal::from_u32(which));
        self
    }

    /// Sets the fill colour underneath lines or in bars as an alpha value.
    pub fn fill(&mut self, opacity: Decimal) -> (r: &mut Self)
        ensures
            r@ == old(self)@.with_style("fill"@, Tree::Number(opacity.normalized())),
            *final(self) == *final(r),
    {
        *member_mut(self.kind_ref(), "fill") = number(opacity);
        self
    }

    /// Sets the fill colour underneath lines or in bars as an HTML colour.
    pub fn fill_color(&mut self, color: &str) -> (r: &mut Self)
        ensures
            r@ == old(self)@.with_style("fillColor"@, Tree::Text(color@)),
            *final(self) == *final(r),
    {
        *member_mut(self.kind_ref(), "fillColor") = text(color);
        self
    }

    /// Sets the line colour as an HTML colour.
    pub fn color(&mut self, color: &str) -> (r: &mut Self)
        ensures
            r@ == old(self)@.with_attribute("color"@, Tree::Text(color@)),
            *final(self) == *final(r),
    {
        *member_mut(&mut self.data, "color") = text(color);
        self
    }

    /// Sets the width of the line; zero for no shadow.
    pub fn line_width(&mut self, size: u32) -> (r: &mut Self)
        ensures
            r@ == old(self)@.with_style("lineWidth"@, Tree::Number(Decimal::whole(size))),
            *final(self) == *final(r),
    {
        *member_mut(self.kind_ref(), "lineWidth") = number(Decimal::from_u32(size));
        self
    }

    /// Whether this series has the option `operation`: it has where its kind
    /// is the one kind that the option applies to. A series that lacks the
    /// option is told why, and nothing is changed by asking.
    pub fn check(&self, operation: Operation) -> (r: Result<(), BuildError>)
        ensures
            r is Ok <==> self@.kind == operation.applies_to(),
            r is Err ==> r->Err_0 == (BuildError::KindMismatch { operation, kind: self@.kind }),
    {
        if self.kind == operation.kind() {
            Ok(())
        } else {
            Err(BuildError::KindMismatch { operation, kind: self.kind })
        }
    }

    /// Sets the radius of points. Only a series of points has it: to ask it
    /// of another series is an error of the caller, which `check` tells.
    pub fn radius(&mut self, size: u32) -> (r: &mut Self)
        requires
            old(self)@.kind == Operation::Radius.applies_to(),
        ensures
            r@ == old(self)@.with_style("radius"@, Tree::Number(Decimal::whole(size))),
            *final(self) == *final(r),
    {
        *member_mut(self.kind_ref(), "radius") = number(Decimal::from_u32(size));
        self
    }

    /// Sets the symbol of points, and notes that the series has one. Only a
    /// series of points has it: to ask it of another series is an error of
    /// the caller, which `check` tells.
    pub fn symbol(&mut self, name: &str) -> (r: &mut Self)
        requires
            old(self)@.kind == Operation::Symbol.applies_to(),
        ensures
            r@ == (SeriesView {
                symbols: true,
                ..old(self)@.with_style("symbol"@, Tree::Text(name@))
            }),
            *final(self) == *final(r),
    {
        self.symbols = true;
        *member_mut(self.kind_ref(), "symbol") = text(name);
        self
    }

    /// Draws steps between points. Only a series of lines has it: to ask it
    /// of another series is an error of the caller, which `check` tells.
    pub fn steps(&mut self) -> (r: &mut Self)
        requires
            old(self)@.kind == Operation::Steps.applies_to(),
        ensures
            r@ == old(self)@.with_style("steps"@, Tree::Boolean(true)),
            *final(self) == *final(r),
    {
        *member_mut(self.kind_ref(), "steps") = boolean(true);
        self
    }

    /// Sets the width of bars. Only a series of bars has it: to ask it of
    /// another series is an error of the caller, which `check` tells.
    pub fn width(&mut self, width: Decimal) -> (r: &mut Self)
        requires
            old(self)@.kind == Operation::Width.applies_to(),
        ensures
            r@ == old(self)@.with_style("barWidth"@, Tree::Number(width.normalized())),
            *final(self) == *final(r),
    {
        *member_mut(self.kind_ref(), "barWidth") = number(width);
        self
    }
}

} // verus!
