//! The page: the plots of one HTML document, and the document itself.

use vstd::prelude::*;
use vstd::string::*;
use typed_arena::Arena;
use crate::plot::{placeholder_text, script_text, Plot, PlotView};
use crate::arena::{add_plot, into_plots, new_plot_arena, plot_place, plots_held};
use crate::text::{decimal_text, push_decimal};

verus! {

/// What a page is: its plots in the order of their creation, the number of
/// plots created so far, its title, and the size that new plots get.
pub struct PageView {
    pub plots: Seq<PlotView>,
    pub count: nat,
    pub title: Seq<char>,
    pub bounds: (u32, u32),
}

impl PageView {
    /// A new page: no plots, and plots of 800 by 300 pixels to come.
    pub open spec fn fresh(title: Seq<char>) -> PageView {
        PageView { plots: Seq::empty(), count: 0, title, bounds: (800, 300) }
    }

    /// The page after a plot was created in it.
    pub open spec fn with_plot(self, plot: PlotView) -> PageView {
        PageView { plots: self.plots.push(plot), count: self.count + 1, ..self }
    }

    /// Whether the plots carry, in the order of their creation, the ids of
    /// the numbers from 1 on, and the page has counted each of them. A new
    /// page is so, and stays so as long as no plot is given another's id.
    pub open spec fn ids_in_order(self) -> bool {
        &&& self.count == self.plots.len()
        &&& forall|i: int|
            0 <= i < self.plots.len() ==> (#[trigger] self.plots[i]).placeholder == plot_id(
                (i + 1) as nat,
            )
    }

    /// The page with plot number `index` changed.
    pub open spec fn with_plot_at(self, index: int, plot: PlotView) -> PageView {
        PageView { plots: self.plots.update(index, plot), ..self }
    }
}

/// The views of the plots in an arena's order.
pub open spec fn plot_views(held: Seq<Plot>) -> Seq<PlotView> {
    held.map_values(|p: Plot| p@)
}

/// The id of the element that plot number `k` of a page, counted from 1, is
/// drawn in.
pub open spec fn plot_id(k: nat) -> Seq<char> {
    "plot"@ + decimal_text(k)
}

/// The element that loads the script `name` from `base`.
pub open spec fn script_tag(base: Seq<char>, name: Seq<char>) -> Seq<char> {
    "<script language=\"javascript\" type=\"text/javascript\" src=\""@ + base + "/"@ + name
        + "\"></script>"@
}

/// Where the jQuery library is loaded from: the local directory where one
/// is given, and else the public copy.
pub open spec fn jquery_base(local: Option<Seq<char>>) -> Seq<char> {
    match local {
        Some(dir) => "file://"@ + dir,
        None => "https://cdnjs.cloudflare.com/ajax/libs/jquery/3.2.1"@,
    }
}

/// Where the Flot library and its companions are loaded from: the local
/// directory where one is given, and else the public copy.
pub open spec fn flot_base(local: Option<Seq<char>>) -> Seq<char> {
    match local {
        Some(dir) => "file://"@ + dir,
        None => "https://cdnjs.cloudflare.com/ajax/libs/flot/0.8.3"@,
    }
}

/// Whether an axis of any of the plots shows time.
pub open spec fn any_time(plots: Seq<PlotView>) -> bool {
    exists|i: int| 0 <= i < plots.len() && (#[trigger] plots[i]).time
}

/// Whether any of the plots needs the additional symbols: it asked for
/// them, or a symbol was chosen for one of its series.
pub open spec fn any_symbols(plots: Seq<PlotView>) -> bool {
    exists|i: int| 0 <= i < plots.len() && (#[trigger] plots[i]).uses_symbols()
}

/// The title of the document: that of the page, and `Flot` for a page
/// without one.
pub open spec fn document_title(title: Seq<char>) -> Seq<char> {
    if title.len() == 0 {
        "Flot"@
    } else {
        title
    }
}

/// The head of a document with the given title, loading the scripts from
/// `local` or their public copies: the title, the two scripts that every
/// page loads, the script for time axes where `time` holds and the script
/// of the additional symbols where `symbols` holds. The body opens after it.
pub open spec fn head_text_with(
    title: Seq<char>,
    local: Option<Seq<char>>,
    time: bool,
    symbols: bool,
) -> Seq<char> {
    "\n<html>\n <head>\n    <meta http-equiv=\"Content-Type\" content=\"text/html; charset=utf-8\">\n    <title>"@
        + document_title(title) + "</title>\n"@ + script_tag(jquery_base(local), "jquery.min.js"@)
        + "\n"@ + script_tag(flot_base(local), "jquery.flot.min.js"@) + "\n"@ + (if time {
        script_tag(flot_base(local), "jquery.flot.time.min.js"@) + "\n"@
    } else {
        Seq::empty()
    }) + (if symbols {
        script_tag(flot_base(local), "jquery.flot.symbol.min.js"@) + "\n"@
    } else {
        Seq::empty()
    }) + "</head>\n<body>\n"@
}

/// The head of the document: the companions are loaded that its plots
/// need.
pub open spec fn head_text(page: PageView, local: Option<Seq<char>>) -> Seq<char> {
    head_text_with(page.title, local, any_time(page.plots), any_symbols(page.plots))
}

/// The heading of the document: none for a page without title.
pub open spec fn page_heading_text(title: Seq<char>) -> Seq<char> {
    if title.len() == 0 {
        Seq::empty()
    } else {
        "<h1>"@ + title + "</h1>\n"@
    }
}

/// The markup of the plots, in the order of their creation.
pub open spec fn placeholders_text(plots: Seq<PlotView>) -> Seq<char>
    decreases plots.len(),
{
    if plots.len() == 0 {
        Seq::empty()
    } else {
        placeholders_text(plots.drop_last()) + placeholder_text(plots.last())
    }
}

/// The scripts of the plots, in the order of their creation.
pub open spec fn scripts_text(plots: Seq<PlotView>) -> Seq<char>
    decreases plots.len(),
{
    if plots.len() == 0 {
        Seq::empty()
    } else {
        scripts_text(plots.drop_last()) + script_text(plots.last())
    }
}

/// A document made of its head, the heading for its title, the markup of
/// its plots, and their scripts inside the function that runs when the
/// document is loaded.
pub open spec fn document_text_with(
    head: Seq<char>,
    title: Seq<char>,
    placeholders: Seq<char>,
    scripts: Seq<char>,
) -> Seq<char> {
    head + page_heading_text(title) + placeholders
        + "<script type=\"text/javascript\">\n$(function () {\n"@ + scripts
        + "});\n</script>\n</body>\n</html>\n"@
}

/// The whole document of a page.
pub open spec fn document_text(page: PageView, local: Option<Seq<char>>) -> Seq<char> {
    document_text_with(
        head_text(page, local),
        page.title,
        placeholders_text(page.plots),
        scripts_text(page.plots),
    )
}

/// The directory of local copies of the scripts, if one is given.
pub open spec fn local_dir(local: Option<&str>) -> Option<Seq<char>> {
    match local {
        Some(dir) => Some(dir@),
        None => None,
    }
}

/// The flags of the first plots and one more are those of the first plots
/// or that of the one.
proof fn lemma_flags_step(plots: Seq<PlotView>, i: int)
    requires
        0 <= i < plots.len(),
    ensures
        any_time(plots.take(i + 1)) == (any_time(plots.take(i)) || plots[i].time),
        any_symbols(plots.take(i + 1)) == (any_symbols(plots.take(i)) || plots[i].uses_symbols()),
{
    let before = plots.take(i);
    let after = plots.take(i + 1);
    assert(after[i] == plots[i]);
    assert forall|j: int| 0 <= j < before.len() implies before[j] == after[j] by {}
    if any_time(before) {
        let j = choose|j: int| 0 <= j < before.len() && (#[trigger] before[j]).time;
        assert(after[j].time);
    }
    if any_symbols(before) {
        let j = choose|j: int| 0 <= j < before.len() && (#[trigger] before[j]).uses_symbols();
        assert(after[j].uses_symbols());
    }
    if any_time(after) && !plots[i].time {
        let j = choose|j: int| 0 <= j < after.len() && (#[trigger] after[j]).time;
        assert(before[j].time);
    }
    if any_symbols(after) && !plots[i].uses_symbols() {
        let j = choose|j: int| 0 <= j < after.len() && (#[trigger] after[j]).uses_symbols();
        assert(before[j].uses_symbols());
    }
}

/// The element that loads the script `name` from `base`.
pub fn script(base: &str, name: &str) -> (tag: String)
    ensures
        tag@ == script_tag(base@, name@),
{
    let mut tag = String::from_str("<script language=\"javascript\" type=\"text/javascript\" src=\"");
    tag.append(base);
    tag.append("/");
    tag.append(name);
    tag.append("\"></script>");
    tag
}

/// The head of a document with the given title: see `head_text_with`.
pub fn head(title: &str, local: Option<&str>, time: bool, symbols: bool) -> (out: String)
    ensures
        out@ == head_text_with(title@, local_dir(local), time, symbols),
{
    let (jquery, flot) = match local {
        Some(dir) => {
            let mut base = String::from_str("file://");
            base.append(dir);
            (base.clone(), base)
        },
        None => (
            String::from_str("https://cdnjs.cloudflare.com/ajax/libs/jquery/3.2.1"),
            String::from_str("https://cdnjs.cloudflare.com/ajax/libs/flot/0.8.3"),
        ),
    };
    let mut out = String::from_str(
        "\n<html>\n <head>\n    <meta http-equiv=\"Content-Type\" content=\"text/html; charset=utf-8\">\n    <title>",
    );
    if title.is_empty() {
        out.append("Flot");
    } else {
        out.append(title);
    }
    out.append("</title>\n");
    out.append(script(jquery.as_str(), "jquery.min.js").as_str());
    out.append("\n");
    out.append(script(flot.as_str(), "jquery.flot.min.js").as_str());
    out.append("\n");
    if time {
        out.append(script(flot.as_str(), "jquery.flot.time.min.js").as_str());
        out.append("\n");
    }
    if symbols {
        out.append(script(flot.as_str(), "jquery.flot.symbol.min.js").as_str());
        out.append("\n");
    }
    out.append("</head>\n<body>\n");
    proof {
        assert(out@ =~= head_text_with(title@, local_dir(local), time, symbols));
    }
    out
}

/// A document made of its parts: see `document_text_with`.
pub fn document(head: &str, title: &str, placeholders: &str, scripts: &str) -> (html: String)
    ensures
        html@ == document_text_with(head@, title@, placeholders@, scripts@),
{
    let mut html = String::from_str(head);
    if !title.is_empty() {
        html.append("<h1>");
        html.append(title);
        html.append("</h1>\n");
    }
    html.append(placeholders);
    html.append("<script type=\"text/javascript\">\n$(function () {\n");
    html.append(scripts);
    html.append("});\n</script>\n</body>\n</html>\n");
    proof {
        assert(html@ =~= document_text_with(head@, title@, placeholders@, scripts@));
    }
    html
}

/// Represents an HTML document containing plots.
pub struct Page {
    plots: Arena<Plot>,
    count: usize,
    title: String,
    bounds: (u32, u32),
}

impl View for Page {
    type V = PageView;

    closed spec fn view(&self) -> PageView {
        PageView {
            plots: plot_views(plots_held(self.plots)),
            count: self.count as nat,
            title: self.title@,
            bounds: self.bounds,
        }
    }
}

impl Page {
    /// Creates the page. A title that is not empty becomes the title of the
    /// document and its heading.
    pub fn new(title: &str) -> (page: Page)
        ensures
            page@ == PageView::fresh(title@),
            page@.ids_in_order(),
    {
        let page = Page {
            plots: new_plot_arena(),
            count: 0,
            title: String::from_str(title),
            bounds: (800, 300),
        };
        proof {
            assert(plot_views(Seq::<Plot>::empty()) =~= Seq::empty());
        }
        page
    }

    /// The number of plots created in this page so far.
    pub fn count(&self) -> (n: usize)
        ensures
            n == self@.count,
    {
        self.count
    }

    /// Creates a new plot after the page's other plots. A title that is not
    /// empty becomes the heading of the plot. The plots that the page
    /// already has stay as they are, each at its place.
    pub fn plot(&mut self, title: &str) -> (p: &mut Plot)
        requires
            old(self)@.count < usize::MAX,
        ensures
            p@ == PlotView::fresh(plot_id(old(self)@.count + 1), title@, old(self)@.bounds),
            final(self)@ == old(self)@.with_plot(final(p)@),
            old(self)@.ids_in_order() && final(p)@.placeholder == p@.placeholder
                ==> final(self)@.ids_in_order(),
    {
        self.count = self.count + 1;
        let mut name = String::from_str("plot");
        push_decimal(&mut name, self.count as u64);
        let p = add_plot(&mut self.plots, Plot::new(name.as_str(), title, self.bounds));
        proof {
            let f = |p: Plot| p@;
            assert(plots_held(old(self).plots).push(*final(p)).map_values(f) =~= plots_held(
                old(self).plots,
            ).map_values(f).push(final(p)@));
        }
        p
    }

    /// The plot that was created as number `index`, counted from 0, or
    /// nothing where the page has no more than `index` plots. Creating
    /// further plots never changes which plot an index stands for.
    pub fn plot_at(&mut self, index: usize) -> (r: Option<&mut Plot>)
        ensures
            r is Some <==> index < old(self)@.plots.len(),
            r is Some ==> r->Some_0@ == old(self)@.plots[index as int] && final(self)@ == old(
                self,
            )@.with_plot_at(index as int, final(r->Some_0)@),
            r is Some && old(self)@.ids_in_order() && final(r->Some_0)@.placeholder
                == r->Some_0@.placeholder ==> final(self)@.ids_in_order(),
            r is None ==> *final(self) == *old(self),
    {
        let r = plot_place(&mut self.plots, index);
        proof {
            let f = |p: Plot| p@;
            let held = plots_held(old(self).plots);
            if r is Some {
                assert(held.update(index as int, *final(r->Some_0)).map_values(f) =~= held.map_values(
                    f,
                ).update(index as int, final(r->Some_0)@));
            }
        }
        r
    }

    /// Sets the size in pixels (width, height) of the plots created from
    /// now on. A plot's own `size` overrides it.
    pub fn size(&mut self, width: u32, height: u32) -> (r: &mut Self)
        ensures
            r@ == (PageView { bounds: (width, height), ..old(self)@ }),
            *final(self) == *final(r),
    {
        self.bounds = (width, height);
        self
    }

    /// Renders the page as an HTML document. The scripts are loaded from
    /// the directory `local` where one is given, and from their public
    /// copies otherwise. The page is used up: nothing can be added to it or
    /// changed in it afterwards.
    pub fn render(self, local: Option<&str>) -> (html: String)
        ensures
            html@ == document_text(self@, local_dir(local)),
    {
        let ghost page = self@;
        let plots = into_plots(self.plots);
        let ghost all = plots@;
        let ghost views = plot_views(all);
        let mut time = false;
        let mut symbols = false;
        let mut placeholders = String::new();
        let mut scripts = String::new();
        for plot in it: plots
            invariant
                it.seq() == all,
                views == plot_views(all),
                time == any_time(views.take(it.index() as int)),
                symbols == any_symbols(views.take(it.index() as int)),
                placeholders@ == placeholders_text(views.take(it.index() as int)),
                scripts@ == scripts_text(views.take(it.index() as int)),
        {
            proof {
                let k = it.index() as int;
                lemma_flags_step(views, k);
                assert(views.take(k + 1).drop_last() == views.take(k));
                assert(views.take(k + 1).last() == plot@);
            }
            let mut plot = plot;
            time = time || plot.uses_time();
            symbols = symbols || plot.uses_symbols();
            placeholders.append(plot.render_placeholder().as_str());
            scripts.append(plot.render_script().as_str());
        }
        proof {
            assert(views.take(all.len() as int) == views);
            assert(views == page.plots);
        }
        let top = head(self.title.as_str(), local, time, symbols);
        document(top.as_str(), self.title.as_str(), placeholders.as_str(), scripts.as_str())
    }
}

} // verus!
