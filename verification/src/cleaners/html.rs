//! Extraction of the text of an HTML document with `kuchiki`.
use kuchiki::traits::TendrilSink;
use vstd::prelude::*;

use crate::normalizers::character::{clean_control, LINE_SEPARATOR};

verus! {

/// The elements removed from a document unless told otherwise.
pub const DEFAULT_DELETE_SELECTOR: &'static str =
    "script, style, pre, svg, math, noscript, ref, table, tr, td, ol, ul, li, time, [aria-hidden], img, figure";

/// The elements after which a line break is inserted unless told otherwise.
pub const DEFAULT_NL_APPEND_SELECTOR: &'static str = "div, p, hr, br, h1, h2, h3, h4, h5, h6";

/// Options of the HTML cleaning step.
#[derive(Debug, Clone)]
pub struct HtmlCleaning {
    /// Whether the step runs at all.
    pub enabled: bool,
    /// A CSS selector of the element that holds the main content; the whole
    /// document where there is none.
    pub content_selector: Option<String>,
    /// A CSS selector of the elements to remove.
    pub delete_selector: String,
    /// A CSS selector of the elements after which a line break is inserted.
    pub nl_append_selector: String,
}

impl Default for HtmlCleaning {
    fn default() -> (r: HtmlCleaning)
        ensures
            r.enabled,
            r.content_selector is None,
            r.delete_selector@ == DEFAULT_DELETE_SELECTOR@,
            r.nl_append_selector@ == DEFAULT_NL_APPEND_SELECTOR@,
    {
        HtmlCleaning {
            enabled: true,
            content_selector: None,
            delete_selector: DEFAULT_DELETE_SELECTOR.to_owned(),
            nl_append_selector: DEFAULT_NL_APPEND_SELECTOR.to_owned(),
        }
    }
}

/// Why the HTML cleaning step gave up.
#[derive(Debug, Clone, Copy, PartialEq, Eq)]
pub enum HtmlCleaningError {
    /// No element matched the content selector (or it does not parse).
    ContentSelectorHadNoMatches,
    /// The delete selector or the line-break selector does not parse.
    InvalidSelector,
}

#[verifier::external_type_specification]
#[verifier::external_body]
pub struct ExNodeRef(kuchiki::NodeRef);

/// Whether `kuchiki` parses the text as a list of CSS selectors.
pub uninterp spec fn spec_selectors_compile(selectors: Seq<char>) -> bool;

/// One step taken on an HTML document, as plain values: the history of a
/// document determines its tree.
pub enum DocStep {
    /// The document was parsed from this text.
    Parsed(Seq<char>),
    /// The document was narrowed to the first element the selectors match.
    Narrowed(Seq<char>),
    /// The elements the selectors match were selected, in document order.
    Selected(Seq<char>),
    /// The selected element of this index was detached with its subtree.
    Detached(int),
    /// A text node holding this character was inserted after the selected
    /// element of this index.
    InsertedAfter(int, char),
}

/// Whether `NodeRef::select_first` finds an element for the selectors in the
/// document that the steps made (never where the selectors do not parse).
pub uninterp spec fn spec_content_found(steps: Seq<DocStep>, selectors: Seq<char>) -> bool;

/// How many elements `NodeRef::select` finds in the document that the steps
/// made, for the selectors of the last `Selected` step.
pub uninterp spec fn spec_selection_len(steps: Seq<DocStep>) -> nat;

/// What `NodeRef::text_contents` returns for the document that the steps made.
pub uninterp spec fn spec_text_contents(steps: Seq<DocStep>) -> Seq<char>;

/// A document of `kuchiki`: the whole tree, the node that stands for it (the
/// root, or the content element it was narrowed to), the current selection,
/// and the steps taken on it. Its tree changes only through its own methods,
/// each of which records its step, so the steps determine the tree.
struct HtmlDocument {
    document: kuchiki::NodeRef,
    root: kuchiki::NodeRef,
    selected: Vec<kuchiki::NodeRef>,
    steps: Ghost<Seq<DocStep>>,
}

impl HtmlDocument {
    /// The steps taken on the document.
    closed spec fn steps(&self) -> Seq<DocStep> {
        self.steps@
    }

    /// The number of selected elements.
    closed spec fn selection_len(&self) -> nat {
        self.selected@.len()
    }

    /// `kuchiki::parse_html().one(..)`: the document tree of the text, with
    /// nothing selected. html5ever may panic on control characters, which
    /// `requires` leaves out.
    #[verifier::external_body]
    fn parse(text: String) -> (d: HtmlDocument)
        requires
            forall|i: int| 0 <= i < text@.len() ==> !crate::ucd::spec_control(#[trigger] text@[i]),
        ensures
            d.steps() == seq![DocStep::Parsed(text@)],
            d.selection_len() == 0,
    {
        let steps = Ghost(seq![DocStep::Parsed(text@)]);
        let document = kuchiki::parse_html().one(text);
        HtmlDocument { root: document.clone(), document, selected: Vec::new(), steps }
    }

    /// `NodeRef::select_first`: where the selectors find an element, the
    /// document is narrowed to it; `false` where they find none or do not parse.
    #[verifier::external_body]
    fn narrow(&mut self, selectors: &str) -> (found: bool)
        ensures
            found == spec_content_found(old(self).steps(), selectors@),
            found ==> spec_selectors_compile(selectors@),
            final(self).steps() == if found {
                old(self).steps().push(DocStep::Narrowed(selectors@))
            } else {
                old(self).steps()
            },
            final(self).selection_len() == old(self).selection_len(),
    {
        match self.root.select_first(selectors) {
            Ok(element) => {
                self.root = element.as_node().clone();
                self.steps = Ghost(self.steps@.push(DocStep::Narrowed(selectors@)));
                true
            },
            Err(_) => false,
        }
    }

    /// `NodeRef::select`, collected: selects the elements the selectors match
    /// and returns how many; `None`, with nothing changed, exactly where the
    /// selectors do not parse.
    #[verifier::external_body]
    fn select(&mut self, selectors: &str) -> (r: Option<usize>)
        ensures
            r is Some <==> spec_selectors_compile(selectors@),
            r matches Some(n) ==> final(self).steps() == old(self).steps().push(
                DocStep::Selected(selectors@),
            ) && n == spec_selection_len(final(self).steps()) && n == final(self).selection_len(),
            r is None ==> final(self).steps() == old(self).steps() && final(self).selection_len()
                == old(self).selection_len(),
    {
        match self.root.select(selectors) {
            Ok(elements) => {
                self.selected = elements.map(|element| element.as_node().clone()).collect();
                self.steps = Ghost(self.steps@.push(DocStep::Selected(selectors@)));
                Some(self.selected.len())
            },
            Err(_) => None,
        }
    }

    /// `NodeRef::detach` of the selected element of index `i`.
    #[verifier::external_body]
    fn detach_selected(&mut self, i: usize)
        requires
            i < old(self).selection_len(),
        ensures
            final(self).steps() == old(self).steps().push(DocStep::Detached(i as int)),
            final(self).selection_len() == old(self).selection_len(),
    {
        self.selected[i].detach();
        self.steps = Ghost(self.steps@.push(DocStep::Detached(i as int)));
    }

    /// `NodeRef::insert_after` of a new text node (`NodeRef::new_text`) that
    /// holds the one character, after the selected element of index `i`.
    #[verifier::external_body]
    fn insert_after_selected(&mut self, i: usize, c: char)
        requires
            i < old(self).selection_len(),
        ensures
            final(self).steps() == old(self).steps().push(DocStep::InsertedAfter(i as int, c)),
            final(self).selection_len() == old(self).selection_len(),
    {
        self.selected[i].insert_after(kuchiki::NodeRef::new_text(c));
        self.steps = Ghost(self.steps@.push(DocStep::InsertedAfter(i as int, c)));
    }

    /// `NodeRef::text_contents` of the node that stands for the document.
    #[verifier::external_body]
    fn text_contents(&self) -> (r: String)
        ensures
            r@ == spec_text_contents(self.steps()),
    {
        self.root.text_contents()
    }
}

/// The steps that detach each of the `n` selected elements, in order.
pub open spec fn spec_detach_steps(n: nat) -> Seq<DocStep> {
    Seq::new(n, |i: int| DocStep::Detached(i))
}

/// The steps that insert the character after each of the `n` selected
/// elements, in order.
pub open spec fn spec_insert_steps(n: nat, c: char) -> Seq<DocStep> {
    Seq::new(n, |i: int| DocStep::InsertedAfter(i, c))
}

/// The steps of the HTML cleaning once the document stands (parsed, and
/// narrowed if asked): select and detach what the delete selector matches,
/// then select what the line-break selector matches and insert a line break
/// after each.
pub open spec fn spec_cleaning_steps(start: Seq<DocStep>, opts: HtmlCleaning) -> Seq<DocStep> {
    let selected = start.push(DocStep::Selected(opts.delete_selector@));
    let deleted = selected + spec_detach_steps(spec_selection_len(selected));
    let marked = deleted.push(DocStep::Selected(opts.nl_append_selector@));
    marked + spec_insert_steps(spec_selection_len(marked), LINE_SEPARATOR)
}

/// The cleaning steps, one by one: after the steps the document started
/// with, the delete selector's selection; then every selected element
/// detached, in order, each exactly once; then the line-break selector's
/// selection; then a line break inserted after every selected element, in
/// order, each exactly once; nothing else.
pub proof fn lemma_cleaning_steps_shape(start: Seq<DocStep>, opts: HtmlCleaning)
    ensures
        ({
            let steps = spec_cleaning_steps(start, opts);
            let b = start.len() as int;
            let n = spec_selection_len(start.push(DocStep::Selected(opts.delete_selector@))) as int;
            let m = spec_selection_len(steps.take(b + n + 2)) as int;
            &&& steps.len() == b + n + 2 + m
            &&& steps.take(b) == start
            &&& steps[b] == DocStep::Selected(opts.delete_selector@)
            &&& forall|i: int| 0 <= i < n ==> #[trigger] steps[b + 1 + i] == DocStep::Detached(i)
            &&& steps[b + 1 + n] == DocStep::Selected(opts.nl_append_selector@)
            &&& forall|j: int|
                0 <= j < m ==> #[trigger] steps[b + n + 2 + j] == DocStep::InsertedAfter(
                    j,
                    LINE_SEPARATOR,
                )
        }),
{
    let steps = spec_cleaning_steps(start, opts);
    let b = start.len() as int;
    let selected = start.push(DocStep::Selected(opts.delete_selector@));
    let n = spec_selection_len(selected);
    let deleted = selected + spec_detach_steps(n);
    let marked = deleted.push(DocStep::Selected(opts.nl_append_selector@));
    assert(steps.take(b + n + 2) == marked);
    assert(steps.take(b) == start);
    assert forall|i: int| 0 <= i < n implies #[trigger] steps[b + 1 + i] == DocStep::Detached(i) by {
        assert(steps[b + 1 + i] == deleted[b + 1 + i]);
    }
}

/// What the HTML cleaning gives for a text: the control characters are
/// removed and the text parsed; with a content selector, the document is
/// narrowed to the first element it matches, and the step fails where there
/// is none; the step fails where the delete or the line-break selector does
/// not parse; otherwise its result is the text contents of the document after
/// the cleaning steps.
pub open spec fn spec_html_result(text: Seq<char>, opts: HtmlCleaning) -> Result<
    Seq<char>,
    HtmlCleaningError,
> {
    let parsed = seq![DocStep::Parsed(crate::normalizers::character::spec_clean_control(text))];
    let start = match opts.content_selector {
        Some(s) => if spec_content_found(parsed, s@) {
            Some(parsed.push(DocStep::Narrowed(s@)))
        } else {
            None
        },
        None => Some(parsed),
    };
    match start {
        None => Err(HtmlCleaningError::ContentSelectorHadNoMatches),
        Some(start) => if !spec_selectors_compile(opts.delete_selector@) || !spec_selectors_compile(
            opts.nl_append_selector@,
        ) {
            Err(HtmlCleaningError::InvalidSelector)
        } else {
            Ok(spec_text_contents(spec_cleaning_steps(start, opts)))
        },
    }
}

/// The HTML cleaning's text is the text contents of the document parsed
/// from the text without its control characters (narrowed to the first match
/// of the content selector, if there is one) after the cleaning steps; it
/// fails for a content selector exactly where no element is found, and
/// otherwise exactly where the delete or the line-break selector does not parse.
pub proof fn lemma_html_result(text: Seq<char>, opts: HtmlCleaning)
    ensures
        ({
            let parsed = seq![
                DocStep::Parsed(crate::normalizers::character::spec_clean_control(text)),
            ];
            let selectors_parse = spec_selectors_compile(opts.delete_selector@)
                && spec_selectors_compile(opts.nl_append_selector@);
            match opts.content_selector {
                None => {
                    &&& selectors_parse ==> spec_html_result(text, opts) == Ok::<
                        Seq<char>,
                        HtmlCleaningError,
                    >(spec_text_contents(spec_cleaning_steps(parsed, opts)))
                    &&& !selectors_parse ==> spec_html_result(text, opts) == Err::<
                        Seq<char>,
                        HtmlCleaningError,
                    >(HtmlCleaningError::InvalidSelector)
                },
                Some(s) => {
                    &&& !spec_content_found(parsed, s@) ==> spec_html_result(text, opts) == Err::<
                        Seq<char>,
                        HtmlCleaningError,
                    >(HtmlCleaningError::ContentSelectorHadNoMatches)
                    &&& spec_content_found(parsed, s@) && selectors_parse ==> spec_html_result(
                        text,
                        opts,
                    ) == Ok::<Seq<char>, HtmlCleaningError>(
                        spec_text_contents(
                            spec_cleaning_steps(parsed.push(DocStep::Narrowed(s@)), opts),
                        ),
                    )
                    &&& spec_content_found(parsed, s@) && !selectors_parse ==> spec_html_result(
                        text,
                        opts,
                    ) == Err::<Seq<char>, HtmlCleaningError>(HtmlCleaningError::InvalidSelector)
                },
            }
        }),
{
}

/// The text of a result, taken by its view.
pub open spec fn spec_html_view(r: Result<String, HtmlCleaningError>) -> Result<
    Seq<char>,
    HtmlCleaningError,
> {
    match r {
        Ok(s) => Ok(s@),
        Err(e) => Err(e),
    }
}

/// Extracts the text of an HTML document: control characters removed, the
/// document narrowed to the content element if a content selector is given,
/// the elements of the delete selector removed, a line break inserted after
/// each element of the line-break selector (see `spec_html_result`).
pub fn run(text: String, opts: HtmlCleaning) -> (r: Result<String, HtmlCleaningError>)
    ensures
        spec_html_view(r) == spec_html_result(text@, opts),
{
    let text = clean_control(text);
    proof {
        crate::normalizers::character::lemma_clean_control_has_no_control(text@);
    }
    let mut doc = HtmlDocument::parse(text);
    match &opts.content_selector {
        Some(content_selector) => {
            if !doc.narrow(content_selector.as_str()) {
                return Err(HtmlCleaningError::ContentSelectorHadNoMatches);
            }
        },
        None => {},
    }
    let ghost start = doc.steps();
    let n = match doc.select(opts.delete_selector.as_str()) {
        Some(n) => n,
        None => {
            return Err(HtmlCleaningError::InvalidSelector);
        },
    };
    let ghost selected = doc.steps();
    let mut i: usize = 0;
    while i < n
        invariant
            i <= n,
            n == doc.selection_len(),
            doc.steps() == selected + spec_detach_steps(i as nat),
        decreases n - i,
    {
        doc.detach_selected(i);
        proof {
            assert(selected + spec_detach_steps((i + 1) as nat) == (selected + spec_detach_steps(
                i as nat,
            )).push(DocStep::Detached(i as int)));
        }
        i = i + 1;
    }
    let m = match doc.select(opts.nl_append_selector.as_str()) {
        Some(m) => m,
        None => {
            return Err(HtmlCleaningError::InvalidSelector);
        },
    };
    let ghost marked = doc.steps();
    let mut j: usize = 0;
    while j < m
        invariant
            j <= m,
            m == doc.selection_len(),
            doc.steps() == marked + spec_insert_steps(j as nat, LINE_SEPARATOR),
        decreases m - j,
    {
        doc.insert_after_selected(j, LINE_SEPARATOR);
        proof {
            assert(marked + spec_insert_steps((j + 1) as nat, LINE_SEPARATOR) == (marked
                + spec_insert_steps(j as nat, LINE_SEPARATOR)).push(
                DocStep::InsertedAfter(j as int, LINE_SEPARATOR),
            ));
        }
        j = j + 1;
    }
    proof {
        assert(doc.steps() == spec_cleaning_steps(start, opts));
    }
    Ok(doc.text_contents())
}

} // verus!
