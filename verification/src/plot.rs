//! A plot: its series, its option tree, and the text it contributes to the
//! page.

use vstd::prelude::*;
use vstd::string::*;
use json::JsonValue;
use typed_arena::Arena;
use crate::axis::{with_axes, Axis};
use crate::grid::Grid;
use crate::legend::{with_legend_pos, Corner, Legend};
use crate::markings::{with_markings, Markings};
use crate::number::Decimal;
use crate::series::{PlotKind, Series, SeriesView};
use crate::arena::{
    add_series, into_series, new_series_arena, series_count, series_held, series_place,
};
use crate::text::{debug_text, decimal_text, escape, escaped, push_decimal, quoted};
use crate::tree::Tree;
use crate::value::{dump, is_null, json_text, json_tree, member_mut, new_object};

verus! {

/// What a plot is: the series in the order of their creation, the id of the
/// element it is drawn in, the option tree, the flags that decide which
/// scripts the page loads, size, title, the JavaScript assignments made to
/// the options after they are declared, and the paragraphs under the plot.
pub struct PlotView {
    pub series: Seq<SeriesView>,
    pub placeholder: Seq<char>,
    pub options: Tree,
    pub time: bool,
    pub symbols: bool,
    pub bounds: (u32, u32),
    pub title: Seq<char>,
    pub option_functions: Seq<Seq<char>>,
    pub description: Seq<Seq<char>>,
}

impl PlotView {
    /// A new plot: no series, no options set.
    pub open spec fn fresh(placeholder: Seq<char>, title: Seq<char>, bounds: (u32, u32))
        -> PlotView {
        PlotView {
            series: Seq::empty(),
            placeholder,
            options: Tree::empty_object(),
            time: false,
            symbols: false,
            bounds,
            title,
            option_functions: Seq::empty(),
            description: Seq::empty(),
        }
    }

    /// Whether the plot needs the script of the additional symbols: it was
    /// asked for, or a symbol was chosen for one of the plot's series.
    pub open spec fn uses_symbols(self) -> bool {
        self.symbols || exists|i: int|
            0 <= i < self.series.len() && (#[trigger] self.series[i]).symbols
    }

    /// The plot with another option tree.
    pub open spec fn with_options(self, options: Tree) -> PlotView {
        PlotView { options, ..self }
    }

    /// The plot with one more series.
    pub open spec fn with_series(self, series: SeriesView) -> PlotView {
        PlotView { series: self.series.push(series), ..self }
    }

    /// The plot with one more paragraph under it.
    pub open spec fn with_paragraph(self, paragraph: Seq<char>) -> PlotView {
        PlotView { description: self.description.push(paragraph), ..self }
    }

    /// The plot with one more assignment to its options.
    pub open spec fn with_option_function(self, assignment: Seq<char>) -> PlotView {
        PlotView { option_functions: self.option_functions.push(assignment), ..self }
    }
}

/// The views of the series in an arena's order.
pub open spec fn series_views(held: Seq<Series>) -> Seq<SeriesView> {
    held.map_values(|s: Series| s@)
}

/// One paragraph under a plot of the given width.
pub open spec fn paragraph_text(width: u32, paragraph: Seq<char>) -> Seq<char> {
    "<p style='width:"@ + decimal_text(width as nat) + "px;margin-left:2em;margin-right:2em'>"@
        + paragraph + "</p>"@
}

/// The paragraphs under a plot, in order.
pub open spec fn paragraphs_text(width: u32, paragraphs: Seq<Seq<char>>) -> Seq<char>
    decreases paragraphs.len(),
{
    if paragraphs.len() == 0 {
        Seq::empty()
    } else {
        paragraphs_text(width, paragraphs.drop_last()) + paragraph_text(width, paragraphs.last())
    }
}

/// The heading over a plot: none for an empty title.
pub open spec fn heading_text(p: PlotView) -> Seq<char> {
    if p.title.len() == 0 {
        Seq::empty()
    } else {
        "<h2 style='text-align: center;width:"@ + decimal_text(p.bounds.0 as nat) + "px'>"@
            + p.title + "</h2>\n"@
    }
}

/// The element a plot is drawn in, with the id as it is written between
/// its quotes, and the size of the plot.
pub open spec fn container_text(quoted_id: Seq<char>, bounds: (u32, u32)) -> Seq<char> {
    "<div id="@ + quoted_id + " style=\"width:"@ + decimal_text(bounds.0 as nat) + "px;height:"@
        + decimal_text(bounds.1 as nat) + "px\"></div>\n"@
}

/// The markup of a plot: heading, container with the quoted placeholder as
/// its id, and paragraphs.
pub open spec fn placeholder_text(p: PlotView) -> Seq<char> {
    heading_text(p) + container_text(debug_text(p.placeholder), p.bounds) + paragraphs_text(
        p.bounds.0,
        p.description,
    )
}

/// The JavaScript variable of a plot's series number `k`, counted from 1.
pub open spec fn series_variable(k: nat) -> Seq<char> {
    "plot_"@ + decimal_text(k)
}

/// The declaration of series number `k`: its variable holds its
/// configuration, given as JSON text.
pub open spec fn series_declaration_text(k: nat, json: Seq<char>) -> Seq<char> {
    "var "@ + series_variable(k) + " = "@ + json + ";\n"@
}

/// The declaration of a plot's options, given as JSON text.
pub open spec fn options_declaration_text(json: Seq<char>) -> Seq<char> {
    "var plot_options = "@ + json + ";\n"@
}

/// The declarations of a plot's series, in the order of their creation.
pub open spec fn series_declarations(series: Seq<SeriesView>) -> Seq<char>
    decreases series.len(),
{
    if series.len() == 0 {
        Seq::empty()
    } else {
        series_declarations(series.drop_last()) + series_declaration_text(
            series.len(),
            json_text(series.last().data),
        )
    }
}

/// The variables of the first `n` series, separated by commas.
pub open spec fn series_names(n: nat) -> Seq<char>
    decreases n,
{
    if n == 0 {
        Seq::empty()
    } else {
        series_names((n - 1) as nat) + (if n == 1 {
            Seq::empty()
        } else {
            ","@
        }) + series_variable(n)
    }
}

/// The call that draws the series of the given names, with the declared
/// options, into the element of the given id. The names stand between
/// brackets: a plot without series has the empty list.
pub open spec fn draw_call_text(placeholder: Seq<char>, names: Seq<char>) -> Seq<char> {
    "$.plot($(\"#"@ + placeholder + "\"),["@ + names + "],plot_options);\n"@
}

/// One assignment to the declared options.
pub open spec fn option_function_text(assignment: Seq<char>) -> Seq<char> {
    "plot_options."@ + assignment + ";\n"@
}

/// The assignments to the declared options, in order.
pub open spec fn option_functions_text(assignments: Seq<Seq<char>>) -> Seq<char>
    decreases assignments.len(),
{
    if assignments.len() == 0 {
        Seq::empty()
    } else {
        option_functions_text(assignments.drop_last()) + option_function_text(assignments.last())
    }
}

/// The script of a plot: one variable per series, the option tree, the
/// assignments to it, and the call that draws the series into the plot's
/// element.
pub open spec fn script_text(p: PlotView) -> Seq<char> {
    series_declarations(p.series) + options_declaration_text(json_text(p.options))
        + option_functions_text(p.option_functions) + draw_call_text(
        p.placeholder,
        series_names(p.series.len()),
    )
}

/// The declaration of series number `k`, counted from 1, whose
/// configuration is written as `json`.
pub fn series_declaration(k: usize, json: &str) -> (out: String)
    ensures
        out@ == series_declaration_text(k as nat, json@),
{
    let mut out = String::from_str("var ");
    out.append("plot_");
    push_decimal(&mut out, k as u64);
    out.append(" = ");
    out.append(json);
    out.append(";\n");
    proof {
        assert(out@ =~= series_declaration_text(k as nat, json@));
    }
    out
}

/// The declaration of a plot's options, which are written as `json`.
pub fn options_declaration(json: &str) -> (out: String)
    ensures
        out@ == options_declaration_text(json@),
{
    let mut out = String::from_str("var plot_options = ");
    out.append(json);
    out.append(";\n");
    out
}

/// The element a plot is drawn in. `quoted_id` is the id as it stands in
/// the markup, quotes included.
pub fn container(quoted_id: &str, width: u32, height: u32) -> (out: String)
    ensures
        out@ == container_text(quoted_id@, (width, height)),
{
    let mut out = String::from_str("<div id=");
    out.append(quoted_id);
    out.append(" style=\"width:");
    push_decimal(&mut out, width as u64);
    out.append("px;height:");
    push_decimal(&mut out, height as u64);
    out.append("px\"></div>\n");
    out
}

/// The call that draws the series named in `names`, a list separated by
/// commas, into the element with the id `placeholder`.
pub fn draw_call(placeholder: &str, names: &str) -> (out: String)
    ensures
        out@ == draw_call_text(placeholder@, names@),
{
    let mut out = String::from_str("$.plot($(\"#");
    out.append(placeholder);
    out.append("\"),[");
    out.append(names);
    out.append("],plot_options);\n");
    out
}

/// Represents a particular plot.
pub struct Plot {
    series: Arena<Series>,
    placeholder: String,
    options: JsonValue,
    time: bool,
    symbols: bool,
    bounds: (u32, u32),
    title: String,
    option_functions: Vec<String>,
    description: Vec<String>,
}

impl View for Plot {
    type V = PlotView;

    closed spec fn view(&self) -> PlotView {
        PlotView {
            series: series_views(series_held(self.series)),
            placeholder: self.placeholder@,
            options: json_tree(self.options),
            time: self.time,
            symbols: self.symbols,
            bounds: self.bounds,
            title: self.title@,
            option_functions: self.option_functions.deep_view(),
            description: self.description.deep_view(),
        }
    }
}

impl Plot {
    pub(crate) fn new(name: &str, title: &str, bounds: (u32, u32)) -> (p: Plot)
        ensures
            p@ == PlotView::fresh(name@, title@, bounds),
    {
        let p = Plot {
            series: new_series_arena(),
            placeholder: String::from_str(name),
            options: new_object(),
            time: false,
            symbols: false,
            bounds,
            title: String::from_str(title),
            option_functions: Vec::new(),
            description: Vec::new(),
        };
        proof {
            assert(series_views(Seq::<Series>::empty()) =~= Seq::empty());
            assert(p.description.deep_view() =~= Seq::empty());
        }
        p
    }

    /// The place of the option tree.
    pub(crate) fn options_mut(&mut self) -> (r: &mut JsonValue)
        ensures
            json_tree(*r) == old(self)@.options,
            final(self)@ == old(self)@.with_options(json_tree(*final(r))),
    {
        &mut self.options
    }

    /// Notes that an axis of this plot shows time.
    pub(crate) fn set_time(&mut self)
        ensures
            final(self)@ == (PlotView { time: true, ..old(self)@ }),
    {
        self.time = true;
    }

    /// Adds an assignment to be made to the options once they are declared.
    pub(crate) fn add_option_function(&mut self, assignment: String)
        ensures
            final(self)@ == old(self)@.with_option_function(assignment@),
    {
        self.option_functions.push(assignment);
        proof {
            assert(self.option_functions.deep_view() =~= old(self).option_functions.deep_view().push(
                assignment@,
            ));
        }
    }

    /// The option tree.
    pub fn options(&self) -> (r: &JsonValue)
        ensures
            json_tree(*r) == self@.options,
    {
        &self.options
    }

    /// Adds a paragraph of text below the plot; `<`, `>` and `&` are written
    /// as entities.
    pub fn text(&mut self, txt: &str) -> (r: &mut Self)
        ensures
            r@ == old(self)@.with_paragraph(escaped(txt@)),
            *final(self) == *final(r),
    {
        let paragraph = escape(txt);
        self.description.push(paragraph);
        proof {
            assert(self.description.deep_view() =~= old(self).description.deep_view().push(
                escaped(txt@),
            ));
        }
        self
    }

    /// Adds a paragraph of HTML below the plot, as it is.
    pub fn html(&mut self, txt: &str) -> (r: &mut Self)
        ensures
            r@ == old(self)@.with_paragraph(txt@),
            *final(self) == *final(r),
    {
        self.description.push(String::from_str(txt));
        proof {
            assert(self.description.deep_view() =~= old(self).description.deep_view().push(txt@));
        }
        self
    }

    /// Sets the size in pixels (width, height) of the plot area.
    pub fn size(&mut self, width: u32, height: u32) -> (r: &mut Self)
        ensures
            r@ == (PlotView { bounds: (width, height), ..old(self)@ }),
            *final(self) == *final(r),
    {
        self.bounds = (width, height);
        self
    }

    /// Adds a series of the given kind after the plot's other series.
    fn add(&mut self, kind: PlotKind, label: &str, data: Vec<(Decimal, Decimal)>) -> (r:
        &mut Series)
        ensures
            r@ == SeriesView::fresh(kind, label@, data@),
            final(self)@ == old(self)@.with_series(final(r)@),
    {
        let r = add_series(&mut self.series, Series::new(kind, label, data));
        proof {
            let f = |s: Series| s@;
            assert(series_held(old(self).series).push(*final(r)).map_values(f) =~= series_held(
                old(self).series,
            ).map_values(f).push(final(r)@));
        }
        r
    }

    /// Creates a data series drawn as individual points. A series with an
    /// empty label is not shown in the legend.
    pub fn points(&mut self, label: &str, data: Vec<(Decimal, Decimal)>) -> (r: &mut Series)
        ensures
            r@ == SeriesView::fresh(PlotKind::Points, label@, data@),
            final(self)@ == old(self)@.with_series(final(r)@),
    {
        self.add(PlotKind::Points, label, data)
    }

    /// Creates a data series drawn as points joined with lines.
    pub fn lines(&mut self, label: &str, data: Vec<(Decimal, Decimal)>) -> (r: &mut Series)
        ensures
            r@ == SeriesView::fresh(PlotKind::Lines, label@, data@),
            final(self)@ == old(self)@.with_series(final(r)@),
    {
        self.add(PlotKind::Lines, label, data)
    }

    /// Creates a data series drawn as bars.
    pub fn bars(&mut self, label: &str, data: Vec<(Decimal, Decimal)>) -> (r: &mut Series)
        ensures
            r@ == SeriesView::fresh(PlotKind::Bars, label@, data@),
            final(self)@ == old(self)@.with_series(final(r)@),
    {
        self.add(PlotKind::Bars, label, data)
    }

    /// The series that was created as number `index`, counted from 0, or
    /// nothing where the plot has no more than `index` series. Creating
    /// further series never changes which series an index stands for.
    pub fn series_at(&mut self, index: usize) -> (r: Option<&mut Series>)
        ensures
            r is Some <==> index < old(self)@.series.len(),
            r is Some ==> r->Some_0@ == old(self)@.series[index as int] && final(self)@ == (PlotView {
                series: old(self)@.series.update(index as int, final(r->Some_0)@),
                ..old(self)@
            }),
            r is None ==> *final(self) == *old(self),
    {
        let r = series_place(&mut self.series, index);
        proof {
            let f = |s: Series| s@;
            let held = series_held(old(self).series);
            if r is Some {
                assert(held.update(index as int, *final(r->Some_0)).map_values(f) =~= held.map_values(
                    f,
                ).update(index as int, final(r->Some_0)@));
            }
        }
        r
    }

    /// The first x axis. Its slot is created, empty, where the plot has no
    /// x axes yet.
    pub fn xaxis<'a>(&'a mut self) -> (axis: Axis<'a>)
        ensures
            axis.which@ == "xaxes"@,
            axis.idx == 0,
            axis.plot@ == old(self)@.with_options(with_axes(old(self)@.options, "xaxes"@, 1)),
            *final(axis.plot) == *final(self),
    {
        Axis::new("xaxes", self, 1)
    }

    /// The first y axis. Its slot is created, empty, where the plot has no
    /// y axes yet.
    pub fn yaxis<'a>(&'a mut self) -> (axis: Axis<'a>)
        ensures
            axis.which@ == "yaxes"@,
            axis.idx == 0,
            axis.plot@ == old(self)@.with_options(with_axes(old(self)@.options, "yaxes"@, 1)),
            *final(axis.plot) == *final(self),
    {
        Axis::new("yaxes", self, 1)
    }

    /// The second y axis. Its slot, and that of the first y axis, are
    /// created, empty, where the plot lacks them.
    pub fn yaxis2<'a>(&'a mut self) -> (axis: Axis<'a>)
        ensures
            axis.which@ == "yaxes"@,
            axis.idx == 1,
            axis.plot@ == old(self)@.with_options(with_axes(old(self)@.options, "yaxes"@, 2)),
            *final(axis.plot) == *final(self),
    {
        Axis::new("yaxes", self, 2)
    }

    /// Sets the position of the legend (`Corner::Hidden` to hide it).
    pub fn legend_pos(&mut self, pos: Corner) -> (r: &mut Self)
        ensures
            r@ == old(self)@.with_options(
                with_legend_pos(old(self)@.options.with_object_at("legend"@), pos),
            ),
            *final(self) == *final(r),
    {
        self.legend().pos(pos);
        self
    }

    /// The legend of the plot.
    pub fn legend<'a>(&'a mut self) -> (legend: Legend<'a>)
        ensures
            legend.plot@ == old(self)@.with_options(old(self)@.options.with_object_at("legend"@)),
            *final(legend.plot) == *final(self),
    {
        Legend::new(self)
    }

    /// The grid of the plot.
    pub fn grid<'a>(&'a mut self) -> (grid: Grid<'a>)
        ensures
            grid.plot@ == old(self)@.with_options(old(self)@.options.with_object_at("grid"@)),
            *final(grid.plot) == *final(self),
    {
        Grid::new(self)
    }

    /// The markings of the plot, started anew: markings added before are
    /// dropped.
    pub fn markings<'a>(&'a mut self) -> (markings: Markings<'a>)
        ensures
            markings.plot@ == old(self)@.with_options(
                with_markings(old(self)@.options, Tree::empty_array()),
            ),
            markings.wf(),
            *final(markings.plot) == *final(self),
    {
        Markings::new(self)
    }

    /// Asks for the script of the additional symbols to be loaded, whether
    /// or not a series of the plot has a symbol.
    pub fn extra_symbols(&mut self) -> (r: &mut Self)
        ensures
            r@ == (PlotView { symbols: true, ..old(self)@ }),
            *final(self) == *final(r),
    {
        self.symbols = true;
        self
    }

    /// Sets any option field, under a key of the options and a key below it.
    pub fn set_option(&mut self, key: &str, subkey: &str, val: JsonValue) -> (r: &mut Self)
        ensures
            r@ == old(self)@.with_options(
                old(self)@.options.with_nested(key@, subkey@, json_tree(val)),
            ),
            *final(self) == *final(r),
    {
        let place = member_mut(&mut self.options, key);
        if is_null(place) {
            *place = new_object();
        }
        *member_mut(place, subkey) = val;
        self
    }

    /// Whether an axis of this plot shows time.
    pub fn uses_time(&self) -> (b: bool)
        ensures
            b == self@.time,
    {
        self.time
    }

    /// Whether the plot needs the script of the additional symbols: it was
    /// asked for, or a symbol was chosen for one of the plot's series. The
    /// series are looked at in their arena, which gives them out only for
    /// writing; nothing is written.
    pub fn uses_symbols(&mut self) -> (b: bool)
        ensures
            b == old(self)@.uses_symbols(),
            final(self)@ == old(self)@,
    {
        if self.symbols {
            return true;
        }
        let ghost held = series_held(self.series);
        let n = series_count(&self.series);
        for i in 0..n
            invariant
                n == held.len(),
                self@ == old(self)@,
                held == series_held(self.series),
                !self@.symbols,
                forall|j: int| 0 <= j < i ==> !(#[trigger] series_views(held)[j]).symbols,
        {
            let found = match series_place(&mut self.series, i) {
                Some(series) => series.has_symbols(),
                None => false,
            };
            proof {
                assert(series_held(self.series) =~= held);
                assert(found == series_views(held)[i as int].symbols);
            }
            if found {
                return true;
            }
        }
        false
    }

    /// The markup of the plot.
    pub fn render_placeholder(&self) -> (out: String)
        ensures
            out@ == placeholder_text(self@),
    {
        let mut out = String::new();
        if !self.title.as_str().is_empty() {
            out.append("<h2 style='text-align: center;width:");
            push_decimal(&mut out, self.bounds.0 as u64);
            out.append("px'>");
            out.append(self.title.as_str());
            out.append("</h2>\n");
        }
        let id = quoted(self.placeholder.as_str());
        out.append(container(id.as_str(), self.bounds.0, self.bounds.1).as_str());
        let n = self.description.len();
        let ghost paragraphs = self.description.deep_view();
        let ghost top = out@;
        for i in 0..n
            invariant
                n == self.description.len(),
                paragraphs == self.description.deep_view(),
                paragraphs == self@.description,
                top == heading_text(self@) + container_text(
                    debug_text(self@.placeholder),
                    self@.bounds,
                ),
                out@ == top + paragraphs_text(self.bounds.0, paragraphs.take(i as int)),
        {
            proof {
                assert(paragraphs.take(i + 1).drop_last() == paragraphs.take(i as int));
            }
            out.append("<p style='width:");
            push_decimal(&mut out, self.bounds.0 as u64);
            out.append("px;margin-left:2em;margin-right:2em'>");
            out.append(self.description[i].as_str());
            out.append("</p>");
        }
        proof {
            assert(paragraphs.take(n as int) == paragraphs);
        }
        out
    }

    /// The script of the plot. The series leave their arena for this, so
    /// the plot is used up.
    pub(crate) fn render_script(self) -> (out: String)
        ensures
            out@ == script_text(self@),
    {
        let series = into_series(self.series);
        let ghost views = series_views(series@);
        let n = series.len();
        let mut out = String::new();
        let mut names = String::new();
        for i in 0..n
            invariant
                n == series.len(),
                views == series_views(series@),
                out@ == series_declarations(views.take(i as int)),
                names@ == series_names(i as nat),
        {
            proof {
                assert(views.take(i + 1).drop_last() == views.take(i as int));
            }
            let json = dump(series[i].data());
            out.append(series_declaration(i + 1, json.as_str()).as_str());
            if i > 0 {
                names.append(",");
            }
            names.append("plot_");
            push_decimal(&mut names, (i + 1) as u64);
            proof {
                assert(names@ =~= series_names(i as nat) + (if i + 1 == 1 {
                    Seq::<char>::empty()
                } else {
                    ","@
                }) + series_variable((i + 1) as nat));
            }
        }
        proof {
            assert(views.take(n as int) == views);
        }
        out.append(options_declaration(dump(&self.options).as_str()).as_str());
        let m = self.option_functions.len();
        let ghost assignments = self.option_functions.deep_view();
        let ghost head = out@;
        for j in 0..m
            invariant
                m == self.option_functions.len(),
                assignments == self.option_functions.deep_view(),
                out@ == head + option_functions_text(assignments.take(j as int)),
        {
            proof {
                assert(assignments.take(j + 1).drop_last() == assignments.take(j as int));
            }
            out.append("plot_options.");
            out.append(self.option_functions[j].as_str());
            out.append(";\n");
        }
        proof {
            assert(assignments.take(m as int) == assignments);
        }
        out.append(draw_call(self.placeholder.as_str(), names.as_str()).as_str());
        out
    }
}

} // verus!
