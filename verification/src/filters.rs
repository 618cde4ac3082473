//! The filter pipeline: the ordered transformations that reduce a fetched
//! page to the text the change detector compares.
//!
//! The selector matching and the markup parsing themselves are done by the
//! `scraper` crate; what those calls return is named by uninterpreted spec
//! functions, and everything around them — the chaining, the error rule, the
//! order — is verified against those names.

use vstd::prelude::*;

use crate::error::FilterError;
use crate::model::{CSSFilterOptions, Filter, XPathFilterOptions};

verus! {

/// Whether `selector` is syntactically valid CSS, as `scraper::Selector::parse`
/// decides it.
pub uninterp spec fn css_selector_ok(selector: Seq<char>) -> bool;

/// The serialized outer markup of every node of `dom` matching `selector`,
/// concatenated in document order; empty when nothing matches.
pub uninterp spec fn css_selection(dom: Seq<char>, selector: Seq<char>) -> Seq<char>;

/// The text content of `dom` with all markup removed, in document order.
pub uninterp spec fn text_content(dom: Seq<char>) -> Seq<char>;

/// Relies on scraper's `Selector::parse`, `Html::parse_fragment`,
/// `Html::select` and `ElementRef::html`: `None` exactly when the selector is
/// not valid selector syntax; otherwise the matched nodes' serialized markup,
/// concatenated in document order. All of it depends on the two arguments
/// alone.
#[verifier::external_body]
pub(crate) fn select_markup(dom: &str, selector: &str) -> (r: Option<String>)
    ensures
        r is Some <==> css_selector_ok(selector@),
        r matches Some(out) ==> out@ == css_selection(dom@, selector@),
{
    let fragment = scraper::Html::parse_fragment(dom);
    match scraper::Selector::parse(selector) {
        Ok(sel) => {
            let mut acc = String::new();
            for elem in fragment.select(&sel) {
                acc.push_str(elem.html().as_str());
            }
            Some(acc)
        }
        Err(_) => None,
    }
}

/// Relies on scraper's `Html::parse_fragment`, `Html::root_element` and
/// `ElementRef::text`: the fragment's text content in document order, all
/// markup dropped. A function of the argument alone.
#[verifier::external_body]
pub(crate) fn fragment_text(dom: &str) -> (r: String)
    ensures
        r@ == text_content(dom@),
{
    let fragment = scraper::Html::parse_fragment(dom);
    let mut acc = String::new();
    for piece in fragment.root_element().text() {
        acc.push_str(piece);
    }
    acc
}

/// A filter result with the text lifted to its view, so that contracts can
/// state what a filter returns in one equation.
pub open spec fn filter_result_view(r: Result<String, FilterError>) -> Result<
    Seq<char>,
    FilterError,
> {
    match r {
        Ok(s) => Ok(s@),
        Err(e) => Err(e),
    }
}

/// What the CSS filter returns: the matched markup when the selector is
/// valid, and `SelectorParse` — failing the whole chain — when it is not.
pub open spec fn css_filter_spec(dom: Seq<char>, selector: Seq<char>) -> Result<
    Seq<char>,
    FilterError,
> {
    if css_selector_ok(selector) {
        Ok(css_selection(dom, selector))
    } else {
        Err(FilterError::SelectorParse)
    }
}

/// What one step of the chain returns for each filter variant.
pub open spec fn filter_step_spec(dom: Seq<char>, f: Filter) -> Result<Seq<char>, FilterError> {
    match f {
        Filter::CSSFilter(opts) => css_filter_spec(dom, opts.selector@),
        Filter::XPathFilter(_) => Ok(dom),
        Filter::Html2TextFilter => Ok(text_content(dom)),
    }
}

/// What the whole chain returns: each filter applied in order, each consuming
/// the previous step's output; the first failing step fails the chain; an
/// empty chain returns its input unchanged.
pub open spec fn filter_chain_spec(dom: Seq<char>, fs: Seq<Filter>) -> Result<
    Seq<char>,
    FilterError,
>
    decreases fs.len(),
{
    if fs.len() == 0 {
        Ok(dom)
    } else {
        match filter_step_spec(dom, fs[0]) {
            Ok(next) => filter_chain_spec(next, fs.drop_first()),
            Err(e) => Err(e),
        }
    }
}

/// An empty filter list changes nothing: the chain's output is the raw
/// fetched text itself.
pub proof fn lemma_empty_chain_is_identity(dom: Seq<char>)
    ensures
        filter_chain_spec(dom, Seq::<Filter>::empty()) == Ok::<Seq<char>, FilterError>(dom),
{
}

/// One text transformation, applicable as a step of a job's filter chain.
pub trait FilterApply {
    /// What this filter returns, stated over views.
    spec fn apply_spec(&self, dom: Seq<char>) -> Result<Seq<char>, FilterError>;

    /// Applies the filter to one text.
    fn apply(&self, dom: String) -> (r: Result<String, FilterError>)
        ensures
            filter_result_view(r) == self.apply_spec(dom@),
    ;
}

/// Keeps the nodes matching a CSS selector, serialized back to markup.
pub struct CSSFilter {
    pub options: CSSFilterOptions,
}

impl CSSFilter {
    pub fn with_options(options: CSSFilterOptions) -> (s: Self)
        ensures
            s.options == options,
    {
        Self { options }
    }
}

impl FilterApply for CSSFilter {
    open spec fn apply_spec(&self, dom: Seq<char>) -> Result<Seq<char>, FilterError> {
        css_filter_spec(dom, self.options.selector@)
    }

    fn apply(&self, dom: String) -> (r: Result<String, FilterError>) {
        match select_markup(dom.as_str(), self.options.selector.as_str()) {
            Some(out) => Ok(out),
            None => Err(FilterError::SelectorParse),
        }
    }
}

/// Reserved: no selector engine is wired up for XPath, so this step returns
/// its input unchanged.
pub struct XPathFilter {
    pub options: XPathFilterOptions,
}

impl XPathFilter {
    pub fn with_options(options: XPathFilterOptions) -> (s: Self)
        ensures
            s.options == options,
    {
        Self { options }
    }
}

impl FilterApply for XPathFilter {
    open spec fn apply_spec(&self, dom: Seq<char>) -> Result<Seq<char>, FilterError> {
        Ok(dom)
    }

    fn apply(&self, dom: String) -> (r: Result<String, FilterError>) {
        Ok(dom)
    }
}

/// Strips all markup, keeping the text content in document order.
pub struct Html2TextFilter;

impl FilterApply for Html2TextFilter {
    open spec fn apply_spec(&self, dom: Seq<char>) -> Result<Seq<char>, FilterError> {
        Ok(text_content(dom))
    }

    fn apply(&self, dom: String) -> (r: Result<String, FilterError>) {
        Ok(fragment_text(dom.as_str()))
    }
}

} // verus!
