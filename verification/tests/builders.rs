use flot::axis::{label_post_function, label_pre_function};
use flot::{BuildError, Corner, Decimal, Operation, Page, PlotKind, Side};
use json::JsonValue;

fn dec(x: f64) -> Decimal {
    let (positive, mantissa, exponent) = json::number::Number::from(x).as_parts();
    Decimal::new(positive, mantissa, exponent)
}

fn points(data: &[(f64, f64)]) -> Vec<(Decimal, Decimal)> {
    data.iter().map(|&(x, y)| (dec(x), dec(y))).collect()
}

#[test]
fn kind_names() {
    assert_eq!(PlotKind::Lines.to_str(), "lines");
    assert_eq!(PlotKind::Points.to_str(), "points");
    assert_eq!(PlotKind::Bars.to_str(), "bars");
}

#[test]
fn corner_names() {
    assert_eq!(Corner::Hidden.to_str(), "none");
    assert_eq!(Corner::TopRight.to_str(), "ne");
    assert_eq!(Corner::TopLeft.to_str(), "nw");
    assert_eq!(Corner::BottomRight.to_str(), "se");
    assert_eq!(Corner::BottomLeft.to_str(), "sw");
}

#[test]
fn side_names() {
    assert_eq!(Side::Right.to_str(), "right");
    assert_eq!(Side::Left.to_str(), "left");
    assert_eq!(Side::Bottom.to_str(), "bottom");
    assert_eq!(Side::Top.to_str(), "top");
}

#[test]
fn series_data_is_array_of_pairs_in_order() {
    let mut page = Page::new("");
    let p = page.plot("");
    let s = p.lines("l", points(&[(0.0, 1.0), (1.0, 4.5)]));
    assert_eq!(s.data()["data"].dump(), "[[0,1],[1,4.5]]");
    assert_eq!(s.data()["data"].len(), 2);
    assert_eq!(s.data()["data"][1][0], 1);
    assert_eq!(s.data()["data"][1][1], 4.5);
    assert_eq!(s.data().dump(), "{\"label\":\"l\",\"data\":[[0,1],[1,4.5]],\"lines\":{\"show\":true}}");
    assert_eq!(s.kind(), PlotKind::Lines);
    assert!(!s.has_symbols());
}

#[test]
fn negative_and_small_numbers_keep_their_digits() {
    let mut page = Page::new("");
    let p = page.plot("");
    let s = p.bars("b", points(&[(-2.5, 0.001), (1e21, -0.0)]));
    assert_eq!(s.data()["data"].dump(), "[[-2.5,0.001],[1e21,-0]]");
}

#[test]
fn trailing_zeros_of_a_fraction_are_stripped() {
    let mut page = Page::new("");
    let p = page.plot("");
    let data = vec![
        (Decimal::new(true, 1000, -3), Decimal::new(false, 4500, -3)),
        (Decimal::new(true, 0, -5), Decimal::new(true, 120, 0)),
    ];
    let s = p.points("p", data);
    assert_eq!(s.data()["data"].dump(), "[[1,-4.5],[0,120]]");
}

#[test]
fn whole_numbers_from_integers() {
    assert_eq!(Decimal::from_u32(0), Decimal::new(true, 0, 0));
    assert_eq!(Decimal::from_u32(4294967295), Decimal::new(true, 4294967295, 0));
}

#[test]
fn empty_label_is_null() {
    let mut page = Page::new("");
    let p = page.plot("");
    let s = p.points("", points(&[(1.0, 2.0)]));
    assert!(s.data()["label"].is_null());
    assert_eq!(s.data().dump(), "{\"label\":null,\"data\":[[1,2]],\"points\":{\"show\":true}}");
    let t = p.points("x", Vec::new());
    assert_eq!(t.data()["label"], "x");
    assert_eq!(t.data().dump(), "{\"label\":\"x\",\"data\":[],\"points\":{\"show\":true}}");
}

#[test]
fn each_kind_has_its_own_options_object() {
    let mut page = Page::new("");
    let p = page.plot("");
    assert_eq!(p.lines("a", Vec::new()).data()["lines"].dump(), "{\"show\":true}");
    assert_eq!(p.points("a", Vec::new()).data()["points"].dump(), "{\"show\":true}");
    assert_eq!(p.bars("a", Vec::new()).data()["bars"].dump(), "{\"show\":true}");
    assert_eq!(p.bars("a", Vec::new()).kind(), PlotKind::Bars);
}

#[test]
fn series_attributes_and_styles() {
    let mut page = Page::new("");
    let p = page.plot("");
    let s = p.lines("a", Vec::new());
    s.xaxis(1).yaxis(2).fill(dec(0.3)).fill_color("#fff").color("red").line_width(0);
    assert_eq!(
        s.data().dump(),
        "{\"label\":\"a\",\"data\":[],\"lines\":{\"show\":true,\"fill\":0.3,\"fillColor\":\"#fff\",\"lineWidth\":0},\"xaxis\":1,\"yaxis\":2,\"color\":\"red\"}"
    );
    s.color("blue").fill(dec(1.0));
    assert_eq!(
        s.data().dump(),
        "{\"label\":\"a\",\"data\":[],\"lines\":{\"show\":true,\"fill\":1,\"fillColor\":\"#fff\",\"lineWidth\":0},\"xaxis\":1,\"yaxis\":2,\"color\":\"blue\"}"
    );
}

#[test]
fn options_of_the_right_kind_are_set() {
    let mut page = Page::new("");
    let p = page.plot("");
    let s = p.points("p", Vec::new());
    assert_eq!(s.check(Operation::Radius), Ok(()));
    assert_eq!(s.check(Operation::Symbol), Ok(()));
    s.radius(3);
    assert!(!s.has_symbols());
    s.symbol("square");
    assert!(s.has_symbols());
    assert_eq!(s.data()["points"].dump(), "{\"show\":true,\"radius\":3,\"symbol\":\"square\"}");
    let l = p.lines("l", Vec::new());
    assert_eq!(l.check(Operation::Steps), Ok(()));
    l.steps();
    assert!(!l.has_symbols());
    assert_eq!(l.data()["lines"].dump(), "{\"show\":true,\"steps\":true}");
    let b = p.bars("b", Vec::new());
    assert_eq!(b.check(Operation::Width), Ok(()));
    b.width(dec(0.75));
    assert_eq!(b.data()["bars"].dump(), "{\"show\":true,\"barWidth\":0.75}");
}

#[test]
fn kind_options_chain_with_the_others() {
    let mut page = Page::new("");
    let p = page.plot("");
    let s = p.points("p", Vec::new());
    s.radius(2).symbol("cross").color("green").radius(4);
    assert_eq!(
        s.data().dump(),
        "{\"label\":\"p\",\"data\":[],\"points\":{\"show\":true,\"radius\":4,\"symbol\":\"cross\"},\"color\":\"green\"}"
    );
}

#[test]
fn options_of_another_kind_are_told_and_change_nothing() {
    let mut page = Page::new("");
    let p = page.plot("");
    let l = p.lines("l", points(&[(0.0, 1.0)]));
    let before = l.data().dump();
    assert_eq!(before, "{\"label\":\"l\",\"data\":[[0,1]],\"lines\":{\"show\":true}}");
    assert_eq!(
        l.check(Operation::Radius),
        Err(BuildError::KindMismatch { operation: Operation::Radius, kind: PlotKind::Lines })
    );
    assert_eq!(
        l.check(Operation::Symbol),
        Err(BuildError::KindMismatch { operation: Operation::Symbol, kind: PlotKind::Lines })
    );
    assert_eq!(
        l.check(Operation::Width),
        Err(BuildError::KindMismatch { operation: Operation::Width, kind: PlotKind::Lines })
    );
    assert_eq!(l.check(Operation::Steps), Ok(()));
    assert_eq!(l.data().dump(), before);
    assert!(!l.has_symbols());
    let b = p.bars("b", points(&[(0.0, 1.0)]));
    let before = b.data().dump();
    assert_eq!(
        b.check(Operation::Radius),
        Err(BuildError::KindMismatch { operation: Operation::Radius, kind: PlotKind::Bars })
    );
    assert_eq!(
        b.check(Operation::Steps),
        Err(BuildError::KindMismatch { operation: Operation::Steps, kind: PlotKind::Bars })
    );
    assert_eq!(
        b.check(Operation::Symbol),
        Err(BuildError::KindMismatch { operation: Operation::Symbol, kind: PlotKind::Bars })
    );
    assert_eq!(b.check(Operation::Width), Ok(()));
    assert_eq!(b.data().dump(), before);
    let q = p.points("q", points(&[(0.0, 1.0)]));
    let before = q.data().dump();
    assert_eq!(
        q.check(Operation::Steps),
        Err(BuildError::KindMismatch { operation: Operation::Steps, kind: PlotKind::Points })
    );
    assert_eq!(
        q.check(Operation::Width),
        Err(BuildError::KindMismatch { operation: Operation::Width, kind: PlotKind::Points })
    );
    assert_eq!(q.check(Operation::Radius), Ok(()));
    assert_eq!(q.check(Operation::Symbol), Ok(()));
    assert_eq!(q.data().dump(), before);
}

#[test]
fn refusals_in_words() {
    let radius = BuildError::KindMismatch { operation: Operation::Radius, kind: PlotKind::Lines };
    let symbol = BuildError::KindMismatch { operation: Operation::Symbol, kind: PlotKind::Bars };
    let steps = BuildError::KindMismatch { operation: Operation::Steps, kind: PlotKind::Points };
    let width = BuildError::KindMismatch { operation: Operation::Width, kind: PlotKind::Lines };
    assert_eq!(radius.message(), "radius() only applies to points, not lines");
    assert_eq!(symbol.message(), "symbol() only applies to points, not bars");
    assert_eq!(steps.message(), "steps() only applies to lines, not points");
    assert_eq!(width.message(), "width() only applies to bars, not lines");
    assert_eq!(BuildError::NoMarking.message(), "color() needs a marking to apply to");
    assert_eq!(Operation::Radius.kind(), PlotKind::Points);
    assert_eq!(Operation::Symbol.kind(), PlotKind::Points);
    assert_eq!(Operation::Steps.kind(), PlotKind::Lines);
    assert_eq!(Operation::Width.kind(), PlotKind::Bars);
    assert_eq!(Operation::Width.to_str(), "width()");
    assert_eq!(Operation::Radius.to_str(), "radius()");
}

#[test]
fn second_y_axis_first_makes_two_slots() {
    let mut page = Page::new("");
    let p = page.plot("");
    p.yaxis2().min(dec(-1.0));
    assert!(p.options()["yaxes"].is_array());
    assert_eq!(p.options()["yaxes"].len(), 2);
    assert_eq!(p.options()["yaxes"][0].dump(), "{}");
    assert_eq!(p.options()["yaxes"][1].dump(), "{\"min\":-1}");
    assert_eq!(p.options().dump(), "{\"yaxes\":[{},{\"min\":-1}]}");
    p.yaxis().max(dec(9.0));
    assert_eq!(p.options().dump(), "{\"yaxes\":[{\"max\":9},{\"min\":-1}]}");
}

#[test]
fn asking_again_for_an_axis_adds_no_slot() {
    let mut page = Page::new("");
    let p = page.plot("");
    p.yaxis();
    assert_eq!(p.options().dump(), "{\"yaxes\":[{}]}");
    p.yaxis2();
    assert_eq!(p.options().dump(), "{\"yaxes\":[{},{}]}");
    p.yaxis2().max(dec(2.0));
    p.yaxis2();
    p.yaxis();
    assert_eq!(p.options().dump(), "{\"yaxes\":[{},{\"max\":2}]}");
    p.xaxis();
    p.xaxis();
    assert_eq!(p.options().dump(), "{\"yaxes\":[{},{\"max\":2}],\"xaxes\":[{}]}");
}

#[test]
fn axes_replace_what_is_no_array() {
    let mut page = Page::new("");
    let p = page.plot("");
    p.set_option("yaxes", "junk", JsonValue::from(1));
    assert_eq!(p.options().dump(), "{\"yaxes\":{\"junk\":1}}");
    p.yaxis2();
    assert_eq!(p.options().dump(), "{\"yaxes\":[{},{}]}");
}

#[test]
fn axis_options() {
    let mut page = Page::new("");
    let p = page.plot("");
    p.xaxis()
        .set_option("font", JsonValue::from("serif"))
        .min(dec(0.5))
        .max(dec(10.0))
        .position(Side::Bottom)
        .tick_values(&[dec(0.0), dec(2.5), dec(5.0)]);
    assert_eq!(
        p.options().dump(),
        "{\"xaxes\":[{\"font\":\"serif\",\"min\":0.5,\"max\":10,\"position\":\"bottom\",\"ticks\":[0,2.5,5]}]}"
    );
    p.yaxis().tick_values_and_labels(&[(dec(1.0), "one"), (dec(2.0), "two")]);
    assert_eq!(p.options()["yaxes"].dump(), "[{\"ticks\":[[1,\"one\"],[2,\"two\"]]}]");
    p.yaxis().tick_values(&[]).position(Side::Left);
    assert_eq!(p.options()["yaxes"].dump(), "[{\"ticks\":[],\"position\":\"left\"}]");
}

#[test]
fn right_side_aligns_ticks() {
    let mut page = Page::new("");
    let p = page.plot("");
    p.yaxis2().position(Side::Right);
    assert_eq!(
        p.options()["yaxes"][1].dump(),
        "{\"alignTicksWithAxis\":1,\"position\":\"right\"}"
    );
    p.yaxis().position(Side::Left);
    assert_eq!(p.options()["yaxes"][0].dump(), "{\"position\":\"left\"}");
}

#[test]
fn time_axis_sets_mode_and_flag() {
    let mut page = Page::new("");
    let p = page.plot("");
    assert!(!p.uses_time());
    p.xaxis().time();
    assert!(p.uses_time());
    assert!(!p.uses_symbols());
    assert_eq!(p.options().dump(), "{\"xaxes\":[{\"mode\":\"time\"}]}");
    p.extra_symbols();
    assert!(p.uses_symbols());
}

#[test]
fn colour_goes_to_the_last_marking_only() {
    let mut page = Page::new("");
    let p = page.plot("");
    {
        let mut m = p.markings();
        m.vertical_line(dec(1.0)).horizontal_area(dec(2.0), dec(3.0));
        assert_eq!(m.check(), Ok(()));
        m.color("#f00");
    }
    let markings = &p.options()["grid"]["markings"];
    assert_eq!(markings.len(), 2);
    assert_eq!(markings[0].dump(), "{\"xaxis\":{\"from\":1,\"to\":1}}");
    assert!(markings[0]["color"].is_null());
    assert_eq!(markings[1].dump(), "{\"yaxis\":{\"from\":2,\"to\":3},\"color\":\"#f00\"}");
}

#[test]
fn colour_after_each_marking() {
    let mut page = Page::new("");
    let p = page.plot("");
    {
        let mut m = p.markings();
        m.vertical_area(dec(0.0), dec(1.0)).color("a").horizontal_line(dec(5.0)).color("b").color("c");
        m.area(dec(1.0), dec(2.0), dec(3.0), dec(4.0));
        m.add_marking(JsonValue::from(7)).color("d");
    }
    assert_eq!(
        p.options().dump(),
        "{\"grid\":{\"markings\":[{\"xaxis\":{\"from\":0,\"to\":1},\"color\":\"a\"},{\"yaxis\":{\"from\":5,\"to\":5},\"color\":\"c\"},{\"xaxis\":{\"from\":1,\"to\":2},\"yaxis\":{\"from\":3,\"to\":4}},{\"color\":\"d\"}]}}"
    );
}

#[test]
fn colour_without_marking_is_told() {
    let mut page = Page::new("");
    let p = page.plot("");
    p.grid().color("black");
    {
        let mut m = p.markings();
        assert_eq!(m.check(), Err(BuildError::NoMarking));
        m.vertical_line(dec(1.0));
        assert_eq!(m.check(), Ok(()));
    }
    {
        let m = p.markings();
        assert_eq!(m.check(), Err(BuildError::NoMarking));
    }
    assert_eq!(p.options().dump(), "{\"grid\":{\"color\":\"black\",\"markings\":[]}}");
}

#[test]
fn markings_start_anew() {
    let mut page = Page::new("");
    let p = page.plot("");
    p.markings().vertical_line(dec(1.0));
    assert_eq!(p.options()["grid"]["markings"].len(), 1);
    p.markings();
    assert_eq!(p.options()["grid"]["markings"].len(), 0);
}

#[test]
fn grid_options() {
    let mut page = Page::new("");
    let p = page.plot("");
    p.grid();
    assert_eq!(p.options().dump(), "{\"grid\":{}}");
    p.grid().hide_grid().color("#111").background_color("#222").set_option("borderWidth", JsonValue::from(2));
    assert_eq!(
        p.options().dump(),
        "{\"grid\":{\"show\":false,\"color\":\"#111\",\"backgroundColor\":\"#222\",\"borderWidth\":2}}"
    );
    p.grid().background_gradient("#000", "#fff");
    assert_eq!(
        p.options()["grid"]["backgroundColor"].dump(),
        "{\"colors\":[\"#000\",\"#fff\"]}"
    );
    assert_eq!(p.options()["grid"].len(), 4);
}

#[test]
fn legend_options() {
    let mut page = Page::new("");
    let p = page.plot("");
    p.legend();
    assert_eq!(p.options().dump(), "{\"legend\":{}}");
    p.legend().pos(Corner::BottomRight).set_option("margin", JsonValue::from(3));
    assert_eq!(p.options().dump(), "{\"legend\":{\"position\":\"se\",\"margin\":3}}");
    p.legend_pos(Corner::Hidden);
    assert_eq!(p.options().dump(), "{\"legend\":{\"position\":\"se\",\"margin\":3,\"show\":false}}");
    p.legend_pos(Corner::TopRight).legend_pos(Corner::BottomLeft);
    assert_eq!(p.options()["legend"]["position"], "sw");
}

#[test]
fn plot_option_under_two_keys() {
    let mut page = Page::new("");
    let p = page.plot("");
    p.set_option("series", "stack", JsonValue::from(true)).set_option("series", "stack", JsonValue::from(false));
    p.set_option("zoom", "interactive", JsonValue::from("yes"));
    assert_eq!(p.options().dump(), "{\"series\":{\"stack\":false},\"zoom\":{\"interactive\":\"yes\"}}");
    p.yaxis();
    p.set_option("yaxes", "k", JsonValue::Null);
    assert_eq!(p.options()["yaxes"].dump(), "{\"k\":null}");
}

#[test]
fn formatters_from_given_literals() {
    assert_eq!(
        label_post_function("\"s\""),
        "function(v,a) { return v.toFixed(a.tickDecimals) + \"s\"; }"
    );
    assert_eq!(
        label_pre_function("\"$ \""),
        "function(v,a) { return \"$ \" + v.toFixed(a.tickDecimals); }"
    );
    assert_eq!(label_post_function(""), "function(v,a) { return v.toFixed(a.tickDecimals) + ; }");
}

#[test]
fn plot_flag_and_series_flags_both_count() {
    let mut page = Page::new("");
    let p = page.plot("");
    assert!(!p.uses_symbols());
    p.lines("a", Vec::new());
    p.points("b", Vec::new());
    assert!(!p.uses_symbols());
    p.points("c", Vec::new()).symbol("triangle");
    p.bars("d", Vec::new());
    assert!(p.uses_symbols());
    assert_eq!(p.series_at(2).unwrap().data()["points"]["symbol"], "triangle");
    assert_eq!(p.series_at(3).unwrap().kind(), PlotKind::Bars);
    let q = page.plot("");
    q.extra_symbols();
    assert!(q.uses_symbols());
}
