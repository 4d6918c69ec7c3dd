use flot::page::{document, head};
use flot::plot::{container, draw_call, options_declaration, series_declaration};
use flot::{script, Corner, Decimal, Page, Side};

fn dec(x: f64) -> Decimal {
    let (positive, mantissa, exponent) = json::number::Number::from(x).as_parts();
    Decimal::new(positive, mantissa, exponent)
}

fn points(data: &[(f64, f64)]) -> Vec<(Decimal, Decimal)> {
    data.iter().map(|&(x, y)| (dec(x), dec(y))).collect()
}

const HEAD: &str = "\n<html>\n <head>\n    <meta http-equiv=\"Content-Type\" content=\"text/html; charset=utf-8\">\n    <title>";
const JQUERY: &str = "<script language=\"javascript\" type=\"text/javascript\" src=\"https://cdnjs.cloudflare.com/ajax/libs/jquery/3.2.1/jquery.min.js\"></script>\n";
const FLOT: &str = "<script language=\"javascript\" type=\"text/javascript\" src=\"https://cdnjs.cloudflare.com/ajax/libs/flot/0.8.3/jquery.flot.min.js\"></script>\n";
const TIME: &str = "<script language=\"javascript\" type=\"text/javascript\" src=\"https://cdnjs.cloudflare.com/ajax/libs/flot/0.8.3/jquery.flot.time.min.js\"></script>\n";
const SYMBOL: &str = "<script language=\"javascript\" type=\"text/javascript\" src=\"https://cdnjs.cloudflare.com/ajax/libs/flot/0.8.3/jquery.flot.symbol.min.js\"></script>\n";
const OPEN: &str = "<script type=\"text/javascript\">\n$(function () {\n";
const CLOSE: &str = "});\n</script>\n</body>\n</html>\n";

fn simple_page() -> Page {
    let mut page = Page::new("");
    let p = page.plot("");
    p.lines("lines", points(&[(0.0, 1.0), (1.0, 4.5)]));
    p.points("points", points(&[(0.5, 1.2), (0.8, 4.0)]));
    page
}

#[test]
fn script_tag_names_base_and_file() {
    assert_eq!(
        script("https://example.org/js", "a.js"),
        "<script language=\"javascript\" type=\"text/javascript\" src=\"https://example.org/js/a.js\"></script>"
    );
    assert_eq!(
        script("", ""),
        "<script language=\"javascript\" type=\"text/javascript\" src=\"/\"></script>"
    );
}

#[test]
fn lines_and_points_document() {
    let html = simple_page().render(None);
    let expected = format!(
        "{}Flot</title>\n{}{}</head>\n<body>\n{}{}{}{}{}{}{}",
        HEAD,
        JQUERY,
        FLOT,
        "<div id=\"plot1\" style=\"width:800px;height:300px\"></div>\n",
        OPEN,
        "var plot_1 = {\"label\":\"lines\",\"data\":[[0,1],[1,4.5]],\"lines\":{\"show\":true}};\n",
        "var plot_2 = {\"label\":\"points\",\"data\":[[0.5,1.2],[0.8,4]],\"points\":{\"show\":true}};\n",
        "var plot_options = {};\n",
        "$.plot($(\"#plot1\"),[plot_1,plot_2],plot_options);\n",
        CLOSE
    );
    assert_eq!(html, expected);
    assert!(!html.contains("<h1>"));
    assert!(!html.contains("<h2"));
    assert_eq!(html.matches("<div id=").count(), 1);
    assert_eq!(html.matches("$.plot(").count(), 1);
    assert!(html.find("var plot_1").unwrap() < html.find("var plot_2").unwrap());
}

#[test]
fn rendering_twice_built_pages_is_identical() {
    let first = simple_page().render(None);
    let second = simple_page().render(None);
    assert_eq!(first, second);
    let local_first = simple_page().render(Some("/srv/js"));
    let local_second = simple_page().render(Some("/srv/js"));
    assert_eq!(local_first, local_second);
    assert_ne!(first, local_first);
}

#[test]
fn local_directory_redirects_both_libraries() {
    let mut page = Page::new("t");
    page.plot("a");
    page.plot("b");
    let html = page.render(Some("/opt/flot"));
    assert!(html.contains("src=\"file:///opt/flot/jquery.min.js\""));
    assert!(html.contains("src=\"file:///opt/flot/jquery.flot.min.js\""));
    assert!(!html.contains("cdnjs.cloudflare.com"));
    assert_eq!(html.matches("<script language=").count(), 2);
}

#[test]
fn local_directory_redirects_companion_scripts() {
    let mut page = Page::new("");
    let p = page.plot("");
    p.extra_symbols();
    p.xaxis().time();
    let html = page.render(Some("/opt/flot"));
    assert!(html.contains("src=\"file:///opt/flot/jquery.flot.time.min.js\""));
    assert!(html.contains("src=\"file:///opt/flot/jquery.flot.symbol.min.js\""));
    assert!(!html.contains("cdnjs.cloudflare.com"));
}

#[test]
fn titles_become_headings() {
    let mut page = Page::new("Report");
    page.plot("First");
    let html = page.render(None);
    let expected = format!(
        "{}Report</title>\n{}{}</head>\n<body>\n<h1>Report</h1>\n{}{}{}{}{}{}",
        HEAD,
        JQUERY,
        FLOT,
        "<h2 style='text-align: center;width:800px'>First</h2>\n",
        "<div id=\"plot1\" style=\"width:800px;height:300px\"></div>\n",
        OPEN,
        "var plot_options = {};\n",
        "$.plot($(\"#plot1\"),[],plot_options);\n",
        CLOSE
    );
    assert_eq!(html, expected);
}

#[test]
fn empty_page_has_head_and_empty_script() {
    let html = Page::new("").render(None);
    let expected = format!("{}Flot</title>\n{}{}</head>\n<body>\n{}{}", HEAD, JQUERY, FLOT, OPEN, CLOSE);
    assert_eq!(html, expected);
}

#[test]
fn time_axis_loads_time_script() {
    let mut page = Page::new("");
    page.plot("");
    page.plot("").yaxis().time();
    let html = page.render(None);
    assert!(html.contains(&format!("{}{}{}</head>", JQUERY, FLOT, TIME)));
    assert!(!html.contains("jquery.flot.symbol.min.js"));
    assert!(html.contains("var plot_options = {\"yaxes\":[{\"mode\":\"time\"}]};\n"));
}

#[test]
fn extra_symbols_loads_symbol_script() {
    let mut page = Page::new("");
    page.plot("").extra_symbols();
    page.plot("");
    let html = page.render(None);
    assert!(html.contains(&format!("{}{}{}</head>", JQUERY, FLOT, SYMBOL)));
    assert!(!html.contains("jquery.flot.time.min.js"));
}

#[test]
fn both_companions_in_order() {
    let mut page = Page::new("");
    page.plot("").extra_symbols();
    page.plot("").xaxis().time();
    let html = page.render(None);
    assert!(html.contains(&format!("{}{}{}{}</head>", JQUERY, FLOT, TIME, SYMBOL)));
}

#[test]
fn symbol_of_a_series_loads_symbol_script_once() {
    let mut page = Page::new("");
    let p = page.plot("");
    p.points("pts", points(&[(0.0, 1.0)])).symbol("cross");
    p.points("more", points(&[(1.0, 1.0)])).symbol("square");
    assert!(p.uses_symbols());
    let q = page.plot("");
    q.lines("l", points(&[(0.0, 1.0)]));
    assert!(!q.uses_symbols());
    let html = page.render(None);
    assert_eq!(html.matches("jquery.flot.symbol.min.js").count(), 1);
    assert!(html.contains(&format!("{}{}{}</head>", JQUERY, FLOT, SYMBOL)));
}

#[test]
fn series_without_symbol_load_no_symbol_script() {
    let mut page = Page::new("");
    let p = page.plot("");
    p.points("pts", points(&[(0.0, 1.0)])).radius(2);
    p.lines("l", Vec::new());
    assert!(!p.uses_symbols());
    let html = page.render(None);
    assert!(!html.contains("jquery.flot.symbol.min.js"));
}

#[test]
fn plots_are_numbered_from_one_in_creation_order() {
    let mut page = Page::new("");
    page.plot("a");
    page.plot("b");
    page.plot("c");
    let html = page.render(None);
    let a = html.find("<div id=\"plot1\"").unwrap();
    let b = html.find("<div id=\"plot2\"").unwrap();
    let c = html.find("<div id=\"plot3\"").unwrap();
    assert!(a < b && b < c);
    let sa = html.find("$.plot($(\"#plot1\")").unwrap();
    let sb = html.find("$.plot($(\"#plot2\")").unwrap();
    let sc = html.find("$.plot($(\"#plot3\")").unwrap();
    assert!(c < sa && sa < sb && sb < sc);
}

#[test]
fn tenth_plot_and_tenth_series_use_two_digits() {
    let mut page = Page::new("");
    for _ in 0..9 {
        page.plot("");
    }
    let p = page.plot("");
    for _ in 0..10 {
        p.lines("", Vec::new());
    }
    let html = page.render(None);
    assert!(html.contains("<div id=\"plot10\" "));
    assert!(html.contains("var plot_10 = {\"label\":null,\"data\":[],\"lines\":{\"show\":true}};\n"));
    assert!(html.contains(
        "$.plot($(\"#plot10\"),[plot_1,plot_2,plot_3,plot_4,plot_5,plot_6,plot_7,plot_8,plot_9,plot_10],plot_options);\n"
    ));
}

#[test]
fn page_size_applies_to_later_plots_only() {
    let mut page = Page::new("");
    page.plot("");
    page.size(500, 200);
    page.plot("");
    page.plot("").size(40, 30);
    let html = page.render(None);
    assert!(html.contains("<div id=\"plot1\" style=\"width:800px;height:300px\"></div>\n"));
    assert!(html.contains("<div id=\"plot2\" style=\"width:500px;height:200px\"></div>\n"));
    assert!(html.contains("<div id=\"plot3\" style=\"width:40px;height:30px\"></div>\n"));
}

#[test]
fn largest_size_is_written_in_full() {
    let mut page = Page::new("");
    page.plot("").size(4294967295, 0);
    let html = page.render(None);
    assert!(html.contains("<div id=\"plot1\" style=\"width:4294967295px;height:0px\"></div>\n"));
}

#[test]
fn paragraphs_follow_the_container() {
    let mut page = Page::new("");
    page.plot("").text("a < b & c > d").html("<b>bold</b>");
    let html = page.render(None);
    let expected = [
        "<div id=\"plot1\" style=\"width:800px;height:300px\"></div>\n",
        "<p style='width:800px;margin-left:2em;margin-right:2em'>a &lt; b &amp; c &gt; d</p>",
        "<p style='width:800px;margin-left:2em;margin-right:2em'><b>bold</b></p>",
        "<script type=\"text/javascript\">\n"
    ].concat();
    assert!(html.contains(&expected));
}

#[test]
fn mutation_through_earlier_handles_reaches_the_document() {
    let mut page = Page::new("");
    page.plot("first").lines("a", points(&[(1.0, 2.0)]));
    page.plot("second").bars("b", points(&[(3.0, 4.0)]));
    {
        let first = page.plot_at(0).unwrap();
        first.lines("c", points(&[(5.0, 6.0)]));
        first.series_at(0).unwrap().color("red");
        first.size(10, 20);
    }
    page.plot("third");
    page.plot_at(1).unwrap().series_at(0).unwrap().fill_color("blue");
    assert!(page.plot_at(3).is_none());
    assert!(page.plot_at(0).unwrap().series_at(2).is_none());
    let html = page.render(None);
    let expected_scripts = [
        "var plot_1 = {\"label\":\"a\",\"data\":[[1,2]],\"lines\":{\"show\":true},\"color\":\"red\"};\n",
        "var plot_2 = {\"label\":\"c\",\"data\":[[5,6]],\"lines\":{\"show\":true}};\n",
        "var plot_options = {};\n",
        "$.plot($(\"#plot1\"),[plot_1,plot_2],plot_options);\n",
        "var plot_1 = {\"label\":\"b\",\"data\":[[3,4]],\"bars\":{\"show\":true,\"fillColor\":\"blue\"}};\n",
        "var plot_options = {};\n",
        "$.plot($(\"#plot2\"),[plot_1],plot_options);\n",
        "var plot_options = {};\n",
        "$.plot($(\"#plot3\"),[],plot_options);\n",
    ].concat();
    assert!(html.contains(&expected_scripts));
    assert!(html.contains("<h2 style='text-align: center;width:10px'>first</h2>\n<div id=\"plot1\" style=\"width:10px;height:20px\"></div>\n"));
}

#[test]
fn option_functions_follow_the_options() {
    let mut page = Page::new("");
    let p = page.plot("");
    p.xaxis().transform("Math.log(v)").label_post("s");
    p.yaxis2().transform("function (v) { return -v; }").label_pre("$ ");
    p.yaxis().label_formatter("fmt");
    let html = page.render(None);
    let expected = [
        "var plot_options = {\"xaxes\":[{}],\"yaxes\":[{},{}]};\n",
        "plot_options.xaxes[0].transform = function (v) { return Math.log(v); };\n",
        "plot_options.xaxes[0].tickFormatter = function(v,a) { return v.toFixed(a.tickDecimals) + \"s\"; };\n",
        "plot_options.yaxes[1].transform = function (v) { return -v; };\n",
        "plot_options.yaxes[1].tickFormatter = function(v,a) { return \"$ \" + v.toFixed(a.tickDecimals); };\n",
        "plot_options.yaxes[0].tickFormatter = fmt;\n",
        "$.plot($(\"#plot1\"),[],plot_options);\n",
    ].concat();
    assert!(html.contains(&expected));
}

#[test]
fn label_strings_are_quoted_and_escaped() {
    let mut page = Page::new("");
    page.plot("").xaxis().label_post("a\"b\\c\n");
    let html = page.render(None);
    assert!(html.contains(
        "plot_options.xaxes[0].tickFormatter = function(v,a) { return v.toFixed(a.tickDecimals) + \"a\\\"b\\\\c\\n\"; };\n"
    ));
}

#[test]
fn legend_and_axis_position_in_options() {
    let mut page = Page::new("");
    let p = page.plot("");
    p.legend_pos(Corner::TopLeft);
    p.yaxis2().position(Side::Right);
    p.xaxis().position(Side::Top);
    let html = page.render(None);
    assert!(html.contains(
        "var plot_options = {\"legend\":{\"position\":\"nw\"},\"yaxes\":[{},{\"alignTicksWithAxis\":1,\"position\":\"right\"}],\"xaxes\":[{\"position\":\"top\"}]};\n"
    ));
}

#[test]
fn filled_lines_and_circles() {
    let mut page = Page::new("");
    let p = page.plot("Lines and Points");
    p.lines("lines", points(&[(0.0, 1.0), (1.0, 4.5)])).fill(dec(0.3)).line_width(0);
    p.points("points", points(&[(0.5, 1.2), (0.8, 4.0)])).symbol("circle");
    let html = page.render(None);
    let expected = [
        "<h2 style='text-align: center;width:800px'>Lines and Points</h2>\n",
        "<div id=\"plot1\" style=\"width:800px;height:300px\"></div>\n",
        "<script type=\"text/javascript\">\n$(function () {\n",
        "var plot_1 = {\"label\":\"lines\",\"data\":[[0,1],[1,4.5]],\"lines\":{\"show\":true,\"fill\":0.3,\"lineWidth\":0}};\n",
        "var plot_2 = {\"label\":\"points\",\"data\":[[0.5,1.2],[0.8,4]],\"points\":{\"show\":true,\"symbol\":\"circle\"}};\n",
        "var plot_options = {};\n",
        "$.plot($(\"#plot1\"),[plot_1,plot_2],plot_options);\n",
        "});\n</script>\n</body>\n</html>\n",
    ].concat();
    assert!(html.ends_with(&expected));
}

#[test]
fn two_y_axes_over_time() {
    let mut page = Page::new("");
    let p = page.plot("Oil Price vs Euro exchange rate");
    p.legend_pos(Corner::BottomRight).size(900, 400);
    p.xaxis().time();
    p.yaxis().min(dec(0.0));
    p.yaxis2().position(Side::Right).label_post("\u{20ac}");
    p.lines("dollar/euro exchange", points(&[(1167692400000.0, 0.7580)])).yaxis(2);
    p.lines("oil price", points(&[(1167692400000.0, 61.05)]));
    let html = page.render(None);
    let expected = [
        "<h2 style='text-align: center;width:900px'>Oil Price vs Euro exchange rate</h2>\n",
        "<div id=\"plot1\" style=\"width:900px;height:400px\"></div>\n",
        "<script type=\"text/javascript\">\n$(function () {\n",
        "var plot_1 = {\"label\":\"dollar/euro exchange\",\"data\":[[1167692400000,0.758]],\"lines\":{\"show\":true},\"yaxis\":2};\n",
        "var plot_2 = {\"label\":\"oil price\",\"data\":[[1167692400000,61.05]],\"lines\":{\"show\":true}};\n",
        "var plot_options = {\"legend\":{\"position\":\"se\"},\"xaxes\":[{\"mode\":\"time\"}],\"yaxes\":[{\"min\":0},{\"alignTicksWithAxis\":1,\"position\":\"right\"}]};\n",
        "plot_options.yaxes[1].tickFormatter = function(v,a) { return v.toFixed(a.tickDecimals) + \"\u{20ac}\"; };\n",
        "$.plot($(\"#plot1\"),[plot_1,plot_2],plot_options);\n",
        "});\n</script>\n</body>\n</html>\n",
    ].concat();
    assert!(html.ends_with(&expected));
    assert!(html.contains("jquery.flot.time.min.js"));
}

#[test]
fn bars_of_squares() {
    let mut page = Page::new("Histogram");
    let p = page.plot("Squares of Integers up to 9");
    p.legend_pos(Corner::TopLeft);
    let squares: Vec<(f64, f64)> = (0..10).map(|x| (x as f64, (x * x) as f64)).collect();
    p.bars("squares", points(&squares)).width(dec(0.75));
    let html = page.render(None);
    assert!(html.contains("<title>Histogram</title>"));
    assert!(html.contains("<h1>Histogram</h1>\n<h2 style='text-align: center;width:800px'>Squares of Integers up to 9</h2>\n"));
    assert!(html.contains(
        "var plot_1 = {\"label\":\"squares\",\"data\":[[0,0],[1,1],[2,4],[3,9],[4,16],[5,25],[6,36],[7,49],[8,64],[9,81]],\"bars\":{\"show\":true,\"barWidth\":0.75}};\n"
    ));
    assert!(html.contains("var plot_options = {\"legend\":{\"position\":\"nw\"}};\n"));
}

#[test]
fn places_hold_across_many_items() {
    let mut page = Page::new("");
    for _ in 0..40 {
        page.plot("");
    }
    {
        let p = page.plot_at(17).unwrap();
        for i in 0..60 {
            p.lines("", vec![(Decimal::from_u32(i), Decimal::from_u32(i))]);
        }
        p.series_at(41).unwrap().color("red");
        p.series_at(0).unwrap().color("green");
        p.series_at(59).unwrap().color("blue");
        assert!(p.series_at(60).is_none());
    }
    for _ in 0..40 {
        page.plot("");
    }
    page.plot_at(79).unwrap().text("last");
    page.plot_at(0).unwrap().text("first");
    assert!(page.plot_at(80).is_none());
    let html = page.render(None);
    assert!(html.contains("<div id=\"plot1\" style=\"width:800px;height:300px\"></div>\n<p style='width:800px;margin-left:2em;margin-right:2em'>first</p><div id=\"plot2\""));
    assert!(html.contains("<div id=\"plot80\" style=\"width:800px;height:300px\"></div>\n<p style='width:800px;margin-left:2em;margin-right:2em'>last</p><script type"));
    let block = [
        "$.plot($(\"#plot17\"),[],plot_options);\n",
        "var plot_1 = {\"label\":null,\"data\":[[0,0]],\"lines\":{\"show\":true},\"color\":\"green\"};\n",
        "var plot_2 = {\"label\":null,\"data\":[[1,1]],\"lines\":{\"show\":true}};\n",
    ].concat();
    assert!(html.contains(&block));
    assert!(html.contains("var plot_41 = {\"label\":null,\"data\":[[40,40]],\"lines\":{\"show\":true}};\nvar plot_42 = {\"label\":null,\"data\":[[41,41]],\"lines\":{\"show\":true},\"color\":\"red\"};\nvar plot_43 = "));
    assert!(html.contains("var plot_60 = {\"label\":null,\"data\":[[59,59]],\"lines\":{\"show\":true},\"color\":\"blue\"};\nvar plot_options = {};\n"));
    assert_eq!(html.matches("\"color\"").count(), 3);
    assert_eq!(html.matches("$.plot(").count(), 80);
}

#[test]
fn markup_of_one_plot() {
    let mut page = Page::new("");
    page.size(120, 80);
    let p = page.plot("A & B");
    p.text("x").text("y");
    assert_eq!(
        p.render_placeholder(),
        [
            "<h2 style='text-align: center;width:120px'>A & B</h2>\n",
            "<div id=\"plot1\" style=\"width:120px;height:80px\"></div>\n",
            "<p style='width:120px;margin-left:2em;margin-right:2em'>x</p>",
            "<p style='width:120px;margin-left:2em;margin-right:2em'>y</p>",
        ]
        .concat()
    );
    let q = page.plot("");
    assert_eq!(q.render_placeholder(), "<div id=\"plot2\" style=\"width:120px;height:80px\"></div>\n");
    assert_eq!(q.render_placeholder(), q.render_placeholder());
}

#[test]
fn declarations_from_given_json() {
    assert_eq!(series_declaration(1, "{\"data\":[]}"), "var plot_1 = {\"data\":[]};\n");
    assert_eq!(series_declaration(12, "null"), "var plot_12 = null;\n");
    assert_eq!(series_declaration(0, ""), "var plot_0 = ;\n");
    assert_eq!(options_declaration("{}"), "var plot_options = {};\n");
    assert_eq!(options_declaration("{\"grid\":{}}"), "var plot_options = {\"grid\":{}};\n");
}

#[test]
fn container_from_given_id() {
    assert_eq!(
        container("\"plot1\"", 800, 300),
        "<div id=\"plot1\" style=\"width:800px;height:300px\"></div>\n"
    );
    assert_eq!(container("x", 0, 7), "<div id=x style=\"width:0px;height:7px\"></div>\n");
}

#[test]
fn draw_call_lists_the_series() {
    assert_eq!(draw_call("plot1", ""), "$.plot($(\"#plot1\"),[],plot_options);\n");
    assert_eq!(draw_call("plot2", "plot_1"), "$.plot($(\"#plot2\"),[plot_1],plot_options);\n");
    assert_eq!(
        draw_call("plot3", "plot_1,plot_2"),
        "$.plot($(\"#plot3\"),[plot_1,plot_2],plot_options);\n"
    );
}

#[test]
fn plot_without_series_has_the_empty_list() {
    let mut page = Page::new("");
    page.plot("");
    let html = page.render(None);
    assert!(html.contains("var plot_options = {};\n$.plot($(\"#plot1\"),[],plot_options);\n"));
    assert!(!html.contains(",],"));
}

#[test]
fn head_from_given_flags() {
    assert_eq!(
        head("", None, false, false),
        format!("{}Flot</title>\n{}{}</head>\n<body>\n", HEAD, JQUERY, FLOT)
    );
    assert_eq!(
        head("T", None, true, true),
        format!("{}T</title>\n{}{}{}{}</head>\n<body>\n", HEAD, JQUERY, FLOT, TIME, SYMBOL)
    );
    assert_eq!(
        head("T", None, false, true),
        format!("{}T</title>\n{}{}{}</head>\n<body>\n", HEAD, JQUERY, FLOT, SYMBOL)
    );
    let local = head("", Some("/d"), true, false);
    assert!(local.contains("src=\"file:///d/jquery.min.js\""));
    assert!(local.contains("src=\"file:///d/jquery.flot.min.js\""));
    assert!(local.contains("src=\"file:///d/jquery.flot.time.min.js\""));
    assert_eq!(local.matches("<script ").count(), 3);
}

#[test]
fn document_from_given_parts() {
    assert_eq!(
        document("H", "", "P", "S"),
        "HP<script type=\"text/javascript\">\n$(function () {\nS});\n</script>\n</body>\n</html>\n"
    );
    assert_eq!(
        document("H", "T", "", ""),
        "H<h1>T</h1>\n<script type=\"text/javascript\">\n$(function () {\n});\n</script>\n</body>\n</html>\n"
    );
}

#[test]
fn body_opens_once_and_closes_once() {
    let html = simple_page().render(None);
    assert_eq!(html.matches("<body>").count(), 1);
    assert_eq!(html.matches("</body>").count(), 1);
    assert!(html.find("</head>").unwrap() < html.find("<body>").unwrap());
    assert!(html.find("<body>").unwrap() < html.find("</body>").unwrap());
}

#[test]
fn page_counts_its_plots() {
    let mut page = Page::new("");
    assert_eq!(page.count(), 0);
    page.plot("");
    page.plot("");
    assert_eq!(page.count(), 2);
    page.plot_at(0).unwrap().text("x");
    assert_eq!(page.count(), 2);
}
