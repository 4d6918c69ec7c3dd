//! What holds of the library as a whole, stated over the views that the
//! functions' contracts use, and proved.

use vstd::prelude::*;
use crate::axis::{with_axes, with_axis_option};
use crate::markings::{markings_of, with_marking, with_marking_color};
use crate::number::Decimal;
use crate::page::{
    any_symbols, any_time, document_text, document_title, flot_base, head_text, head_text_with,
    jquery_base, local_dir, placeholders_text, plot_id, script_tag, scripts_text, Page, PageView,
};
use crate::plot::{
    draw_call_text, option_functions_text, options_declaration_text, placeholder_text,
    script_text, series_declaration_text, series_declarations, PlotView,
};
use crate::series::{series_tree, PlotKind, SeriesView};
use crate::text::{decimal_text, digit_char, escape_char, escaped};
use crate::value::json_text;
use crate::tree::{
    empty_objects, key_index, lemma_key_index, lemma_key_index_is, lemma_member_of_with_member,
    lemma_nested_of_with_nested, Tree,
};

verus! {

/// Whether no two of the entries have the same key.
pub open spec fn keys_differ(entries: Seq<(Seq<char>, Tree)>) -> bool {
    forall|i: int, j: int|
        0 <= i < j < entries.len() ==> (#[trigger] entries[i]).0 != (#[trigger] entries[j]).0
}

/// Reading where nothing was written gives null, whatever the tree is; a
/// write under a key makes an object of whatever was there and is read back
/// under that key.
pub proof fn lemma_missing_reads_null(t: Tree, key: Seq<char>, value: Tree)
    ensures
        !t.has_member(key) ==> t.member(key) is Null,
        t.with_member(key, value) is Object,
        t.with_member(key, value).member(key) == value,
{
    lemma_member_of_with_member(t, key, value);
}

/// A write under two keys creates what is missing on the way and is read
/// back under the two keys.
pub proof fn lemma_write_creates_path(t: Tree, outer: Seq<char>, inner: Seq<char>, value: Tree)
    ensures
        t.with_nested(outer, inner, value).member(outer) is Object,
        t.with_nested(outer, inner, value).nested(outer, inner) == value,
{
    lemma_member_of_with_member(t.member(outer), inner, value);
    lemma_member_of_with_member(t, outer, t.member(outer).with_member(inner, value));
}

/// A write under one key leaves what is read under every other key.
pub proof fn lemma_write_leaves_other_keys(t: Tree, key: Seq<char>, value: Tree, other: Seq<char>)
    requires
        other != key,
    ensures
        t.with_member(key, value).member(other) == t.member(other),
        t.with_member(key, value).has_member(other) == t.has_member(other),
{
    match t {
        Tree::Object(entries) => {
            lemma_key_index(entries, key);
            lemma_key_index(entries, other);
            let i = key_index(entries, key);
            let j = key_index(entries, other);
            if i < entries.len() {
                lemma_key_index_is(entries.update(i, (key, value)), other, j);
            } else if j < entries.len() {
                lemma_key_index_is(entries.push((key, value)), other, j);
            } else {
                lemma_key_index_is(entries.push((key, value)), other, j + 1);
            }
        },
        _ => {
            lemma_key_index_is(seq![(key, value)], other, 1);
        },
    }
}

/// Writing back what is read under a key of an object that has the key
/// changes nothing.
pub proof fn lemma_write_back_changes_nothing(t: Tree, key: Seq<char>)
    requires
        t.has_member(key),
    ensures
        t.with_member(key, t.member(key)) == t,
{
    let entries = t->Object_0;
    lemma_key_index(entries, key);
    let i = key_index(entries, key);
    assert(entries.update(i, (key, entries[i].1)) =~= entries);
}

/// A write under a key keeps the keys of an object different from each
/// other, and keeps every entry that the object had at its position, so
/// that the entries are written out in the order in which their keys were
/// first written.
pub proof fn lemma_write_keeps_keys_and_order(
    entries: Seq<(Seq<char>, Tree)>,
    key: Seq<char>,
    value: Tree,
    index: int,
)
    requires
        keys_differ(entries),
        0 <= index < entries.len(),
    ensures
        Tree::Object(entries).with_member(key, value) is Object,
        keys_differ(Tree::Object(entries).with_member(key, value)->Object_0),
        Tree::Object(entries).with_member(key, value)->Object_0.len() >= entries.len(),
        Tree::Object(entries).with_member(key, value)->Object_0[index].0 == entries[index].0,
        entries[index].0 != key ==> Tree::Object(entries).with_member(key, value)->Object_0[index]
            == entries[index],
{
    lemma_key_index(entries, key);
}

/// Normalizing changes nothing once the exponent is not negative or the
/// mantissa does not end in zero, so normalizing twice is normalizing once.
pub proof fn lemma_normalized_is_stable(d: Decimal)
    ensures
        d.normalized().normalized() == d.normalized(),
        d.normalized().positive == d.positive,
        d.exponent >= 0 || d.mantissa % 10 != 0 ==> d.normalized() == d,
    decreases (if d.exponent < 0 { -(d.exponent as int) } else { 0 }),
{
    if d.exponent < 0 && d.mantissa % 10 == 0 {
        lemma_normalized_is_stable(
            Decimal {
                positive: d.positive,
                mantissa: d.mantissa / 10,
                exponent: (d.exponent + 1) as i16,
            },
        );
    }
}

/// A symbol chosen for any series of any plot, like a plot that asks for
/// the additional symbols, has the document load their script.
pub proof fn lemma_symbols_anywhere_load_the_script(
    page: PageView,
    local: Option<Seq<char>>,
    plot: int,
    series: int,
)
    requires
        0 <= plot < page.plots.len(),
        page.plots[plot].symbols || (0 <= series < page.plots[plot].series.len()
            && page.plots[plot].series[series].symbols),
    ensures
        page.plots[plot].uses_symbols(),
        any_symbols(page.plots),
        head_text(page, local) == head_text_with(page.title, local, any_time(page.plots), true),
{
}

/// Where no plot asks for the additional symbols and no series has a
/// symbol, the document does not load their script.
pub proof fn lemma_no_symbols_no_script(page: PageView, local: Option<Seq<char>>)
    requires
        forall|i: int| 0 <= i < page.plots.len() ==> !(#[trigger] page.plots[i]).symbols,
        forall|i: int, j: int|
            0 <= i < page.plots.len() && 0 <= j < page.plots[i].series.len() ==> !(
            #[trigger] page.plots[i].series[j]).symbols,
    ensures
        !any_symbols(page.plots),
        head_text(page, local) == head_text_with(page.title, local, any_time(page.plots), false),
{
}

/// A plot without series is drawn with the empty list of series.
pub proof fn lemma_no_series_empty_list(p: PlotView)
    requires
        p.series.len() == 0,
    ensures
        script_text(p) == options_declaration_text(json_text(p.options))
            + option_functions_text(p.option_functions) + draw_call_text(
            p.placeholder,
            Seq::empty(),
        ),
        draw_call_text(p.placeholder, Seq::empty()) == "$.plot($(\"#"@ + p.placeholder
            + "\"),[],plot_options);\n"@,
{
    reveal_strlit("\"),[");
    reveal_strlit("],plot_options);\n");
    reveal_strlit("\"),[],plot_options);\n");
    assert("\"),["@ + Seq::<char>::empty() + "],plot_options);\n"@ =~= "\"),[],plot_options);\n"@);
    assert(draw_call_text(p.placeholder, Seq::empty()) =~= "$.plot($(\"#"@ + p.placeholder + (
    "\"),["@ + Seq::<char>::empty() + "],plot_options);\n"@));
    assert(script_text(p) =~= options_declaration_text(json_text(p.options))
        + option_functions_text(p.option_functions) + draw_call_text(
        p.placeholder,
        Seq::empty(),
    ));
}

/// Escaped text holds neither `<` nor `>`: it cannot open or close markup.
pub proof fn lemma_escaped_has_no_markup(s: Seq<char>, i: int)
    requires
        0 <= i < escaped(s).len(),
    ensures
        escaped(s)[i] != '<',
        escaped(s)[i] != '>',
    decreases s.len(),
{
    reveal_strlit("&lt;");
    reveal_strlit("&gt;");
    reveal_strlit("&amp;");
    let front = escaped(s.drop_last());
    let last = escape_char(s.last());
    if i < front.len() {
        lemma_escaped_has_no_markup(s.drop_last(), i);
    } else {
        assert(escaped(s)[i] == last[i - front.len()]);
    }
}

/// The text that escaped text stands for: each of the three entities read
/// as its character, every other character as itself.
pub open spec fn unescaped(t: Seq<char>) -> Seq<char>
    decreases t.len(),
{
    if t.len() == 0 {
        Seq::empty()
    } else if t.len() >= 4 && t[0] == '&' && t[1] == 'l' && t[2] == 't' && t[3] == ';' {
        seq!['<'] + unescaped(t.skip(4))
    } else if t.len() >= 4 && t[0] == '&' && t[1] == 'g' && t[2] == 't' && t[3] == ';' {
        seq!['>'] + unescaped(t.skip(4))
    } else if t.len() >= 5 && t[0] == '&' && t[1] == 'a' && t[2] == 'm' && t[3] == 'p' && t[4]
        == ';' {
        seq!['&'] + unescaped(t.skip(5))
    } else {
        seq![t[0]] + unescaped(t.skip(1))
    }
}

/// Escaped text begins with what stands for the first character and goes on
/// with the escaped rest.
pub proof fn lemma_escaped_from_the_front(s: Seq<char>)
    requires
        s.len() > 0,
    ensures
        escaped(s) == escape_char(s[0]) + escaped(s.drop_first()),
    decreases s.len(),
{
    if s.len() == 1 {
        assert(s.drop_last() =~= s.drop_first());
        assert(escaped(s) =~= escape_char(s[0]) + escaped(s.drop_first()));
    } else {
        lemma_escaped_from_the_front(s.drop_last());
        assert(s.drop_first().drop_last() =~= s.drop_last().drop_first());
        assert(s.drop_first().last() == s.last());
        assert(escaped(s) =~= escape_char(s[0]) + escaped(s.drop_first()));
    }
}

/// What stands for a character, followed by any text, is read back as the
/// character followed by what the text is read back as.
pub proof fn lemma_unescaped_one(c: char, rest: Seq<char>)
    ensures
        unescaped(escape_char(c) + rest) == seq![c] + unescaped(rest),
{
    reveal_strlit("&lt;");
    reveal_strlit("&gt;");
    reveal_strlit("&amp;");
    let t = escape_char(c) + rest;
    if c == '<' || c == '>' {
        assert(t.skip(4) =~= rest);
    } else if c == '&' {
        assert(t.skip(5) =~= rest);
    } else {
        assert(t[0] == c);
        assert(t.skip(1) =~= rest);
    }
}

/// Escaped text can be read back: it stands for the text that was escaped
/// and for no other.
pub proof fn lemma_escaped_reads_back(s: Seq<char>, other: Seq<char>)
    ensures
        unescaped(escaped(s)) == s,
        escaped(s) == escaped(other) ==> s == other,
{
    lemma_escaped_reads_back_one(s);
    lemma_escaped_reads_back_one(other);
}

proof fn lemma_escaped_reads_back_one(s: Seq<char>)
    ensures
        unescaped(escaped(s)) == s,
    decreases s.len(),
{
    if s.len() > 0 {
        lemma_escaped_from_the_front(s);
        lemma_unescaped_one(s[0], escaped(s.drop_first()));
        lemma_escaped_reads_back_one(s.drop_first());
        assert(seq![s[0]] + s.drop_first() =~= s);
    }
}

/// Creating a plot never disturbs the plots that a page already has: each
/// stays at its index, unchanged, and the new plot follows them.
pub proof fn lemma_creation_keeps_plots(page: PageView, created: PlotView, index: int)
    requires
        0 <= index < page.plots.len(),
    ensures
        page.with_plot(created).plots.len() == page.plots.len() + 1,
        page.with_plot(created).plots[index] == page.plots[index],
        page.with_plot(created).plots[page.plots.len() as int] == created,
{
}

/// Changing a plot through its index changes that plot and no other.
pub proof fn lemma_change_stays_in_its_plot(page: PageView, index: int, changed: PlotView, other: int)
    requires
        0 <= index < page.plots.len(),
        0 <= other < page.plots.len(),
    ensures
        page.with_plot_at(index, changed).plots.len() == page.plots.len(),
        page.with_plot_at(index, changed).plots[index] == changed,
        other != index ==> page.with_plot_at(index, changed).plots[other] == page.plots[other],
{
}

/// Creating a series never disturbs the series that a plot already has, and
/// changing a series through its index changes that series and no other.
pub proof fn lemma_series_keep_their_places(
    plot: PlotView,
    created: SeriesView,
    changed: SeriesView,
    index: int,
    other: int,
)
    requires
        0 <= index < plot.series.len(),
        0 <= other < plot.series.len(),
    ensures
        plot.with_series(created).series[index] == plot.series[index],
        plot.with_series(created).series[plot.series.len() as int] == created,
        plot.series.update(index, changed)[index] == changed,
        other != index ==> plot.series.update(index, changed)[other] == plot.series[other],
{
}

/// The scripts of a page are those of its first plots followed by those of
/// the rest.
pub proof fn lemma_scripts_split(plots: Seq<PlotView>, at: int)
    requires
        0 <= at <= plots.len(),
    ensures
        scripts_text(plots) == scripts_text(plots.take(at)) + scripts_text(plots.skip(at)),
    decreases plots.len() - at,
{
    if at == plots.len() {
        assert(plots.take(at) == plots);
    } else {
        let front = plots.drop_last();
        lemma_scripts_split(front, at);
        assert(front.take(at) == plots.take(at));
        assert(plots.skip(at).drop_last() == front.skip(at));
    }
}

/// The markup of a page is that of its first plots followed by that of the
/// rest.
pub proof fn lemma_placeholders_split(plots: Seq<PlotView>, at: int)
    requires
        0 <= at <= plots.len(),
    ensures
        placeholders_text(plots) == placeholders_text(plots.take(at)) + placeholders_text(
            plots.skip(at),
        ),
    decreases plots.len() - at,
{
    if at == plots.len() {
        assert(plots.take(at) == plots);
    } else {
        let front = plots.drop_last();
        lemma_placeholders_split(front, at);
        assert(front.take(at) == plots.take(at));
        assert(plots.skip(at).drop_last() == front.skip(at));
    }
}

/// Whatever a plot was changed into is what the document shows for it, at
/// the plot's place among the others: after the markup and the scripts of
/// the plots created before it, and before those of the plots created after
/// it.
pub proof fn lemma_document_shows_each_plot(page: PageView, index: int)
    requires
        0 <= index < page.plots.len(),
    ensures
        placeholders_text(page.plots) == placeholders_text(page.plots.take(index))
            + placeholder_text(page.plots[index]) + placeholders_text(page.plots.skip(index + 1)),
        scripts_text(page.plots) == scripts_text(page.plots.take(index)) + script_text(
            page.plots[index],
        ) + scripts_text(page.plots.skip(index + 1)),
{
    let plots = page.plots;
    let upto = plots.take(index + 1);
    lemma_scripts_split(plots, index + 1);
    lemma_placeholders_split(plots, index + 1);
    assert(upto.drop_last() == plots.take(index));
}

/// Whatever a series was changed into is what its plot declares for it,
/// under the variable of its number, after the declarations of the series
/// created before it.
pub proof fn lemma_script_shows_each_series(series: Seq<SeriesView>, index: int)
    requires
        0 <= index < series.len(),
    ensures
        series_declarations(series.take(index + 1)) == series_declarations(series.take(index))
            + series_declaration_text((index + 1) as nat, json_text(series[index].data)),
        series_declarations(series.take(index + 1)).is_prefix_of(series_declarations(series)),
    decreases series.len() - index,
{
    let upto = series.take(index + 1);
    assert(upto.drop_last() == series.take(index));
    if index + 1 < series.len() {
        lemma_script_shows_each_series(series, index + 1);
    }
}

/// Two pages that were built alike give the same document, byte for byte,
/// under the same source of the scripts.
pub proof fn lemma_same_page_same_document(a: Page, b: Page, local: Option<&str>)
    requires
        a@ == b@,
    ensures
        document_text(a@, local_dir(local)) == document_text(b@, local_dir(local)),
{
}

/// A new series with an empty label has null for its label, and a series
/// with any other label has that label.
pub proof fn lemma_empty_label_is_null(kind: PlotKind, label: Seq<char>, points: Seq<(Decimal, Decimal)>)
    ensures
        label.len() == 0 ==> series_tree(kind, label, points).member("label"@) is Null,
        label.len() > 0 ==> series_tree(kind, label, points).member("label"@) == Tree::Text(label),
{
}

/// Asking for the second axis of a plot that has no axes of that kind yet
/// makes exactly two slots, both empty. An option then set on the second
/// axis is written to the slot at index 1, and the first slot stays empty.
pub proof fn lemma_second_axis_first(options: Tree, which: Seq<char>, key: Seq<char>, value: Tree)
    requires
        options.member(which) is Null,
    ensures
        with_axes(options, which, 2).member(which) == Tree::Array(
            seq![Tree::empty_object(), Tree::empty_object()],
        ),
        with_axis_option(with_axes(options, which, 2), which, 1, key, value).member(which)
            == Tree::Array(seq![Tree::empty_object(), Tree::Object(seq![(key, value)])]),
{
    let two = seq![Tree::empty_object(), Tree::empty_object()];
    assert(empty_objects(2) =~= two);
    lemma_member_of_with_member(options, which, Tree::Array(two));
    let ready = with_axes(options, which, 2);
    let written = Tree::empty_object().with_member(key, value);
    assert(two.update(1, written) =~= seq![Tree::empty_object(), written]);
    lemma_member_of_with_member(ready, which, Tree::Array(two).with_slot(1, written));
}

/// Asking again for an axis that a plot has adds no slot and changes none.
pub proof fn lemma_axis_asked_again(options: Tree, which: Seq<char>, n: nat, m: nat)
    requires
        m <= n,
    ensures
        with_axes(with_axes(options, which, n), which, m).member(which) == with_axes(
            options,
            which,
            n,
        ).member(which),
{
    let slots = options.member(which).with_slots(n);
    lemma_member_of_with_member(options, which, slots);
    let ready = with_axes(options, which, n);
    lemma_member_of_with_member(ready, which, slots);
}

/// A colour goes to the marking that was added last: that marking gets the
/// colour, and every marking before it stays as it is.
pub proof fn lemma_color_marks_last_only(options: Tree, color: Seq<char>, index: int)
    requires
        markings_of(options) is Array,
        0 <= index < markings_of(options).count(),
    ensures
        markings_of(with_marking_color(options, color)) is Array,
        markings_of(with_marking_color(options, color)).count() == markings_of(options).count(),
        index < markings_of(options).count() - 1 ==> markings_of(
            with_marking_color(options, color),
        ).items()[index] == markings_of(options).items()[index],
        index == markings_of(options).count() - 1 ==> markings_of(
            with_marking_color(options, color),
        ).items()[index] == markings_of(options).items()[index].with_member(
            "color"@,
            Tree::Text(color),
        ),
{
    let markings = markings_of(options);
    let last = markings.count() - 1;
    lemma_nested_of_with_nested(
        options,
        "grid"@,
        "markings"@,
        markings.with_slot(last, markings.slot(last).with_member("color"@, Tree::Text(color))),
    );
}

/// A marking is added after the markings that a plot has, and these stay
/// as they are.
pub proof fn lemma_marking_is_added_last(options: Tree, marking: Tree, index: int)
    requires
        markings_of(options) is Array,
        0 <= index < markings_of(options).count(),
    ensures
        markings_of(with_marking(options, marking)) is Array,
        markings_of(with_marking(options, marking)).count() == markings_of(options).count() + 1,
        markings_of(with_marking(options, marking)).items()[index] == markings_of(
            options,
        ).items()[index],
        markings_of(with_marking(options, marking)).items().last() == marking,
{
    lemma_nested_of_with_nested(
        options,
        "grid"@,
        "markings"@,
        markings_of(options).pushed(marking),
    );
}

/// With a local directory given, both libraries are loaded from that
/// directory, whatever the page holds: the head names the two scripts under
/// `file://` and the directory.
pub proof fn lemma_local_directory_serves_both(page: PageView, dir: Seq<char>)
    ensures
        jquery_base(Some(dir)) == "file://"@ + dir,
        flot_base(Some(dir)) == "file://"@ + dir,
        exists|before: Seq<char>, after: Seq<char>|
            head_text(page, Some(dir)) == before + script_tag(
                "file://"@ + dir,
                "jquery.min.js"@,
            ) + "\n"@ + script_tag("file://"@ + dir, "jquery.flot.min.js"@) + after,
{
    let before =
        "\n<html>\n <head>\n    <meta http-equiv=\"Content-Type\" content=\"text/html; charset=utf-8\">\n    <title>"@
        + document_title(page.title) + "</title>\n"@;
    let after = "\n"@ + (if any_time(page.plots) {
        script_tag(flot_base(Some(dir)), "jquery.flot.time.min.js"@) + "\n"@
    } else {
        Seq::empty()
    }) + (if any_symbols(page.plots) {
        script_tag(flot_base(Some(dir)), "jquery.flot.symbol.min.js"@) + "\n"@
    } else {
        Seq::empty()
    }) + "</head>\n<body>\n"@;
    assert(head_text(page, Some(dir)) =~= before + script_tag("file://"@ + dir, "jquery.min.js"@)
        + "\n"@ + script_tag("file://"@ + dir, "jquery.flot.min.js"@) + after);
}

/// A number has at least one digit.
pub proof fn lemma_decimal_text_len(n: nat)
    ensures
        decimal_text(n).len() >= 1,
        n >= 10 ==> decimal_text(n).len() >= 2,
    decreases n,
{
    if n >= 10 {
        lemma_decimal_text_len(n / 10);
    }
}

/// Different numbers have different digits.
pub proof fn lemma_decimal_text_differs(a: nat, b: nat)
    requires
        a != b,
    ensures
        decimal_text(a) != decimal_text(b),
    decreases a + b,
{
    lemma_decimal_text_len(a);
    lemma_decimal_text_len(b);
    let x = decimal_text(a);
    let y = decimal_text(b);
    if a < 10 && b < 10 {
        assert(x[0] == digit_char(a as int) && y[0] == digit_char(b as int));
    } else if a >= 10 && b >= 10 {
        if a % 10 != b % 10 {
            assert(x.last() == digit_char((a % 10) as int));
            assert(y.last() == digit_char((b % 10) as int));
        } else {
            lemma_decimal_text_differs(a / 10, b / 10);
            assert(x.drop_last() =~= decimal_text(a / 10));
            assert(y.drop_last() =~= decimal_text(b / 10));
        }
    }
}

/// The plots of a page have different ids: the id is made from the plot's
/// number, and no two plots of a page have the same number.
pub proof fn lemma_plot_ids_differ(i: nat, j: nat)
    requires
        i != j,
    ensures
        plot_id(i) != plot_id(j),
{
    lemma_decimal_text_differs(i, j);
    let n = "plot"@.len() as int;
    assert(plot_id(i).subrange(n, plot_id(i).len() as int) =~= decimal_text(i));
    assert(plot_id(j).subrange(n, plot_id(j).len() as int) =~= decimal_text(j));
}

/// A new page has its ids in order, and so has a page after a plot was
/// created in it or one of its plots was changed in anything but its id.
pub proof fn lemma_ids_stay_in_order(
    page: PageView,
    title: Seq<char>,
    created: PlotView,
    index: int,
    changed: PlotView,
)
    requires
        page.ids_in_order(),
        created.placeholder == plot_id(page.count + 1),
        0 <= index < page.plots.len() ==> changed.placeholder == page.plots[index].placeholder,
    ensures
        PageView::fresh(title).ids_in_order(),
        page.with_plot(created).ids_in_order(),
        0 <= index < page.plots.len() ==> page.with_plot_at(index, changed).ids_in_order(),
{
}

/// On a page with its ids in order no two plots have the same id.
pub proof fn lemma_ids_are_unique(page: PageView, i: int, j: int)
    requires
        page.ids_in_order(),
        0 <= i < j < page.plots.len(),
    ensures
        page.plots[i].placeholder != page.plots[j].placeholder,
{
    lemma_plot_ids_differ((i + 1) as nat, (j + 1) as nat);
}

} // verus!
