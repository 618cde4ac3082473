use webmonitor_core::error::FilterError;
use webmonitor_core::filters::{CSSFilter, FilterApply, Html2TextFilter, XPathFilter};
use webmonitor_core::model::{CSSFilterOptions, Filter, XPathFilterOptions};
use webmonitor_core::monitoring::WebsiteMonitor;

#[test]
fn empty_filter_list_returns_input_unchanged() {
    let monitor = WebsiteMonitor::new();
    let raw = String::from("<html><body>anything at all</body></html>");
    let out = monitor.apply_filters(raw.clone(), &Vec::new()).unwrap();
    assert_eq!(out, raw);
}

#[test]
fn css_filter_without_matches_yields_empty_string() {
    let filter = CSSFilter::with_options(CSSFilterOptions {
        selector: String::from("div.missing"),
    });
    let out = filter.apply(String::from("<p>A</p><span>B</span>")).unwrap();
    assert_eq!(out, "");
}

#[test]
fn css_filter_concatenates_matches_in_document_order() {
    let filter = CSSFilter::with_options(CSSFilterOptions {
        selector: String::from("div"),
    });
    let out = filter
        .apply(String::from("<div>1</div><span>x</span><div>2</div>"))
        .unwrap();
    assert_eq!(out, "<div>1</div><div>2</div>");
}

#[test]
fn css_filter_rejects_invalid_selector() {
    let filter = CSSFilter::with_options(CSSFilterOptions {
        selector: String::from(":::"),
    });
    let out = filter.apply(String::from("<p>A</p>"));
    assert_eq!(out, Err(FilterError::SelectorParse));
}

#[test]
fn html2text_strips_tags_and_concatenates_text() {
    let out = Html2TextFilter.apply(String::from("<p>A</p><b>B</b>")).unwrap();
    assert_eq!(out, "AB");
}

#[test]
fn xpath_filter_passes_input_through() {
    let filter = XPathFilter::with_options(XPathFilterOptions {
        selector: String::from("//div"),
    });
    let out = filter.apply(String::from("<p>A</p>")).unwrap();
    assert_eq!(out, "<p>A</p>");
}

#[test]
fn filter_chain_applies_steps_in_order() {
    let monitor = WebsiteMonitor::new();
    let filters = vec![
        Filter::CSSFilter(CSSFilterOptions {
            selector: String::from("div"),
        }),
        Filter::Html2TextFilter,
    ];
    let out = monitor
        .apply_filters(
            String::from("<div>keep</div><span>drop</span><div>me</div>"),
            &filters,
        )
        .unwrap();
    assert_eq!(out, "keepme");
}

#[test]
fn filter_chain_fails_whole_pipeline_on_invalid_selector() {
    let monitor = WebsiteMonitor::new();
    let filters = vec![
        Filter::Html2TextFilter,
        Filter::CSSFilter(CSSFilterOptions {
            selector: String::from("!!bad"),
        }),
    ];
    let out = monitor.apply_filters(String::from("<p>A</p>"), &filters);
    assert_eq!(out, Err(FilterError::SelectorParse));
}

#[test]
fn xpath_step_in_chain_changes_nothing() {
    let monitor = WebsiteMonitor::new();
    let filters = vec![Filter::XPathFilter(XPathFilterOptions {
        selector: String::from("//p"),
    })];
    let raw = String::from("<p>A</p>");
    let out = monitor.apply_filters(raw.clone(), &filters).unwrap();
    assert_eq!(out, raw);
}
