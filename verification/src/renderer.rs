//! Rendering of source code to HTML: one fragment per source line, with a
//! `span` for each highlighted scope and the stylesheet that colours them.

use crate::css::{class_attribute, class_attribute_of, stylesheet, stylesheet_of};
use crate::error::{Error, HighlightError};
use crate::events::{
    check_events, lemma_well_formed_in_bounds, texts_in_bounds, well_formed, HighlightEvent,
};
use crate::lang::Lang;
use crate::lines::{is_line_split, lemma_lines_of_terminated_text, line_texts, split_lines};
use crate::scope::{scope_name_list, SCOPE_COUNT};
use crate::theme::{Theme, ThemeView};
use std::collections::HashMap;
use tree_sitter_highlight::HighlightEvent as Outside;
use tree_sitter_highlight::{Highlight, HighlightConfiguration, Highlighter, HtmlRenderer};
use vstd::prelude::*;

verus! {

broadcast use vstd::std_specs::hash::group_hash_axioms;

/// The HTML that `tree_sitter_highlight::HtmlRenderer` writes for the stream
/// `events` over `source`, where the span of a scope carries the attribute
/// that `attributes` holds for it, and none where it holds none.
pub uninterp spec fn rendered_html(
    events: Seq<HighlightEvent>,
    source: Seq<u8>,
    attributes: Map<usize, Seq<char>>,
) -> Seq<char>;

/// The attribute texts of a table of attributes.
pub open spec fn attribute_texts(attributes: Map<usize, String>) -> Map<usize, Seq<char>> {
    attributes.map_values(|attribute: String| attribute@)
}

/// The `class` attributes of the scopes that `theme` styles.
pub open spec fn class_attributes(theme: ThemeView) -> Map<usize, Seq<char>> {
    Map::new(
        |index: usize| theme.styles.contains_key(index as int),
        |index: usize| class_attribute(index as int),
    )
}

/// Whether `lines` are the rendering of the stream `events` over `source`
/// with the classes of `theme`: the lines of the HTML, at least one, each
/// ending in a line feed.
pub open spec fn are_rendered_lines(
    theme: ThemeView,
    events: Seq<HighlightEvent>,
    source: Seq<u8>,
    lines: Seq<String>,
) -> bool {
    &&& is_line_split(rendered_html(events, source, class_attributes(theme)), line_texts(lines))
    &&& lines.len() > 0
    &&& forall|k: int| 0 <= k < lines.len() ==> (#[trigger] lines[k])@.last() == '\n'
}

/// The attribute of the scope at `index`: its entry in `attributes`, and the
/// empty text where it has none.
pub fn attribute_of<'a>(attributes: &'a HashMap<usize, String>, index: usize) -> (attribute: &'a str)
    ensures
        attribute@ == if attributes@.contains_key(index) {
            attributes@[index]@
        } else {
            Seq::empty()
        },
{
    match attributes.get(&index) {
        Some(attribute) => attribute.as_str(),
        None => {
            proof {
                reveal_strlit("");
            }
            ""
        },
    }
}

/// Runs a fresh `HtmlRenderer` over `events` and hands back its `html`
/// buffer as text. The attribute callback is [`attribute_of`].
///
/// `HtmlRenderer::render` slices `source` by each text event, so the texts
/// must lie in the source. The buffer depends on the three arguments alone,
/// and `render` ends it with a line feed where it has none.
#[verifier::external_body]
fn render_html<'a>(
    events: &Vec<HighlightEvent>,
    source: &'a [u8],
    attributes: &'a HashMap<usize, String>,
) -> (html: String)
    requires
        texts_in_bounds(events@, source@.len() as int),
    ensures
        html@ == rendered_html(events@, source@, attribute_texts(attributes@)),
        html@.len() > 0,
        html@.last() == '\n',
{
    let mut renderer = HtmlRenderer::new();
    let stream = events.iter().map(|event| Ok(match *event {
        HighlightEvent::EnterScope(index) => Outside::HighlightStart(Highlight(index)),
        HighlightEvent::ExitScope => Outside::HighlightEnd,
        HighlightEvent::Text { start, end } => Outside::Source { start, end },
    }));
    let attribute = |scope: Highlight| attribute_of(attributes, scope.0).as_bytes();
    let _ = renderer.render(stream, source, &attribute);
    String::from_utf8_lossy(&renderer.html).into_owned()
}

/// Runs a `Highlighter` with `config` over `source` and collects the events
/// of `Highlighter::highlight`, or its first error. Injected languages are
/// not followed. Nothing is stated of the events: the verified caller checks
/// them.
#[verifier::external_body]
fn highlight_events(config: &HighlightConfiguration, source: &[u8]) -> (res: Result<
    Vec<HighlightEvent>,
    HighlightError,
>) {
    let mut highlighter = Highlighter::new();
    let stream = highlighter.highlight(config, source, None, |_| None);
    let events = stream.and_then(|events| events.map(|event| event.map(|event| match event {
        Outside::HighlightStart(scope) => HighlightEvent::EnterScope(scope.0),
        Outside::HighlightEnd => HighlightEvent::ExitScope,
        Outside::Source { start, end } => HighlightEvent::Text { start, end },
    })).collect());
    events.map_err(|error| match error {
        tree_sitter_highlight::Error::Cancelled => HighlightError::Cancelled,
        tree_sitter_highlight::Error::InvalidLanguage => HighlightError::InvalidLanguage,
        tree_sitter_highlight::Error::Unknown => HighlightError::Unknown,
    })
}

/// Calls `HighlightConfiguration::configure`, which sets the highlight names
/// that the configuration reports scopes by: an event then names a scope by
/// its position in `names`.
#[verifier::external_body]
fn configure(config: &mut HighlightConfiguration, names: &Vec<&'static str>) {
    config.configure(names.as_slice())
}

/// A theme with the `class` attribute of each scope that it styles, made
/// once and read by every rendering.
struct ClassCache {
    theme: Theme,
    css_classes: HashMap<usize, String>,
}

impl ClassCache {
    #[verifier::type_invariant]
    spec fn inv(&self) -> bool {
        attribute_texts(self.css_classes@) == class_attributes(self.theme@)
    }

    fn new(theme: Theme) -> (cache: ClassCache)
        ensures
            cache.theme@ == theme@,
    {
        let mut css_classes: HashMap<usize, String> = HashMap::new();
        let mut index: usize = 0;
        while index < SCOPE_COUNT
            invariant
                index <= SCOPE_COUNT,
                forall|i: usize|
                    css_classes@.contains_key(i) <==> i < index && theme@.styles.contains_key(
                        i as int,
                    ),
                forall|i: usize|
                    css_classes@.contains_key(i) ==> (#[trigger] css_classes@[i])@
                        == class_attribute(i as int),
            decreases SCOPE_COUNT - index,
        {
            if theme.style(index).is_some() {
                css_classes.insert(index, class_attribute_of(index));
            }
            index += 1;
        }
        proof {
            theme.lemma_wf();
            assert(attribute_texts(css_classes@) =~= class_attributes(theme@));
        }
        ClassCache { theme, css_classes }
    }
}

/// HTML syntax highlighting renderer.
pub struct Renderer {
    cache: ClassCache,
    configs: HashMap<usize, HighlightConfiguration>,
}

impl Renderer {
    /// The theme that the renderer was made with.
    pub closed spec fn theme(&self) -> ThemeView {
        self.cache.theme@
    }

    /// Whether the renderer holds a grammar configuration for `lang`: one
    /// that was installed, or one that it loaded for an earlier rendering.
    pub closed spec fn has_grammar(&self, lang: Lang) -> bool {
        self.configs@.contains_key(lang.spec_index() as usize)
    }

    /// Create a new renderer based on `theme`.
    pub fn new(theme: Theme) -> (renderer: Renderer)
        ensures
            renderer.theme() == theme@,
            forall|lang: Lang| !renderer.has_grammar(lang),
    {
        Renderer { cache: ClassCache::new(theme), configs: HashMap::new() }
    }

    /// Generate CSS block to be included in the `<style></style>` block or in
    /// an external CSS file.
    pub fn css(&self) -> (css: String)
        ensures
            css@ == stylesheet(self.theme()),
    {
        stylesheet_of(&self.cache.theme)
    }

    /// Render the annotation stream `events` over `source`: one HTML fragment
    /// per line, each with its line feed.
    ///
    /// The stream must be well-formed: one that does not fit the source,
    /// closes a scope that is not open or leaves one open is a defect of
    /// whoever made it. [`check_events`] tells.
    pub fn render_events(&self, events: &Vec<HighlightEvent>, source: &[u8]) -> (lines: Vec<String>)
        requires
            well_formed(events@, source@.len() as int),
        ensures
            are_rendered_lines(self.theme(), events@, source@, lines@),
    {
        proof {
            use_type_invariant(&self.cache);
            lemma_well_formed_in_bounds(events@, source@.len() as int);
        }
        let html = render_html(events, source, &self.cache.css_classes);
        let lines = split_lines(html.as_str());
        proof {
            lemma_lines_of_terminated_text(html@, line_texts(lines@));
            assert forall|k: int| 0 <= k < lines@.len() implies (#[trigger] lines@[k])@.last()
                == '\n' by {
                assert(line_texts(lines@)[k] == lines@[k]@);
            }
        }
        lines
    }

    /// What a rendering gives for the outcome of the highlighter: the lines
    /// of a well-formed stream, `Error::InvariantViolation` for a stream that
    /// is not well-formed, and `Error::Highlighting` with the highlighter's
    /// own cause where it failed. No line is given with an error.
    pub fn render_outcome(
        &self,
        outcome: Result<Vec<HighlightEvent>, HighlightError>,
        source: &[u8],
    ) -> (res: Result<Vec<String>, Error>)
        ensures
            match outcome {
                Err(cause) => res matches Err(Error::Highlighting(given)) && given == cause,
                Ok(events) => if well_formed(events@, source@.len() as int) {
                    res matches Ok(lines) && are_rendered_lines(
                        self.theme(),
                        events@,
                        source@,
                        lines@,
                    )
                } else {
                    res matches Err(Error::InvariantViolation)
                },
            },
    {
        match outcome {
            Err(cause) => Err(Error::Highlighting(cause)),
            Ok(events) => {
                if check_events(&events, source.len()) {
                    Ok(self.render_events(&events, source))
                } else {
                    Err(Error::InvariantViolation)
                }
            },
        }
    }

    /// Hands the renderer the grammar configuration to use for `lang` from
    /// now on, in place of the one that it would load itself. The renderer
    /// sets the scope names that the configuration reports.
    pub fn install(&mut self, lang: &Lang, config: HighlightConfiguration)
        ensures
            final(self).theme() == old(self).theme(),
            forall|other: Lang|
                final(self).has_grammar(other) == (other == *lang || old(self).has_grammar(other)),
    {
        let mut config = config;
        configure(&mut config, &scope_name_list());
        self.configs.insert(lang.index(), config);
    }

    /// Render `source` based on the `lang`.
    ///
    /// The result is that of [`Renderer::render_outcome`] for what the
    /// highlighter reports.
    ///
    /// The renderer keeps the grammar configuration that it loads for `lang`
    /// and uses it again for the next rendering. It holds one whenever the
    /// highlighter has run: after success and after an invariant violation.
    ///
    /// # Errors
    ///
    /// `Error::Highlighting` where no grammar is installed for `lang` and
    /// none can be loaded, or the highlighter fails;
    /// `Error::InvariantViolation` where its events are not well-formed.
    pub fn render(&mut self, lang: &Lang, source: &[u8]) -> (res: Result<Vec<String>, Error>)
        ensures
            final(self).theme() == old(self).theme(),
            forall|other: Lang| old(self).has_grammar(other) ==> final(self).has_grammar(other),
            res is Ok || (res matches Err(Error::InvariantViolation)) ==> final(self).has_grammar(
                *lang,
            ),
            !old(self).has_grammar(*lang) && !lang.is_built_in() ==> res matches Err(
                Error::Highlighting(HighlightError::InvalidLanguage),
            ),
            match res {
                Ok(lines) => exists|events: Seq<HighlightEvent>|
                    well_formed(events, source@.len() as int) && are_rendered_lines(
                        old(self).theme(),
                        events,
                        source@,
                        lines@,
                    ),
                Err(error) => error is Highlighting || error is InvariantViolation,
            },
    {
        let key = lang.index();
        if !self.configs.contains_key(&key) {
            match lang.config() {
                Some(config) => {
                    self.install(lang, config);
                },
                None => {
                    return Err(Error::Highlighting(HighlightError::InvalidLanguage));
                },
            }
        }
        let outcome = match self.configs.get(&key) {
            Some(config) => highlight_events(config, source),
            None => {
                return Err(Error::Highlighting(HighlightError::InvalidLanguage));
            },
        };
        self.render_outcome(outcome, source)
    }
}

} // verus!
