//! Themes: the colors and modifiers of each highlight scope, resolved from a
//! Helix-style theme document.

use crate::document::{lemma_array_view, toml_document, Item, Node};
use crate::error::{Error, ErrorView, Malformed, MalformedView};
use crate::scope::{scope_name, scope_names, SCOPE_COUNT};
use std::collections::HashMap;
use vstd::prelude::*;

verus! {

broadcast use vstd::std_specs::hash::group_hash_axioms;

/// Color and modifiers of one scope.
pub struct Style {
    pub color: String,
    pub is_bold: bool,
    pub is_italic: bool,
}

/// The content of a [`Style`].
pub struct StyleView {
    pub color: Seq<char>,
    pub is_bold: bool,
    pub is_italic: bool,
}

impl View for Style {
    type V = StyleView;

    open spec fn view(&self) -> StyleView {
        StyleView { color: self.color@, is_bold: self.is_bold, is_italic: self.is_italic }
    }
}

impl StyleView {
    /// The style of `color` without modifiers.
    pub open spec fn plain(color: Seq<char>) -> StyleView {
        StyleView { color, is_bold: false, is_italic: false }
    }
}

impl Style {
    /// The style of `color` without modifiers.
    pub fn from(color: &String) -> (style: Style)
        ensures
            style@ == StyleView::plain(color@),
    {
        Style { color: color.clone(), is_bold: false, is_italic: false }
    }
}

/// The content of a [`Theme`]: the styles of the scopes that have one, by
/// scope index, and the default foreground and background.
pub struct ThemeView {
    pub styles: Map<int, StyleView>,
    pub foreground: StyleView,
    pub background: StyleView,
}

impl ThemeView {
    /// Only indices of the scope table have a style.
    pub open spec fn wf(self) -> bool {
        forall|i: int| self.styles.contains_key(i) ==> 0 <= i < SCOPE_COUNT
    }
}

/// Color of the default foreground where the theme names none.
pub open spec fn default_foreground() -> Seq<char> {
    "#fff"@
}

/// Color of the background where the theme names none.
pub open spec fn default_background() -> Seq<char> {
    "#000"@
}

/// The color that `palette` defines under the name `reference`.
pub open spec fn palette_color(palette: Node, reference: Seq<char>) -> Option<Seq<char>> {
    match palette.get(reference) {
        Some(Node::String(color)) => Some(color),
        _ => None,
    }
}

/// The color that the field `field` of `table` refers to: the field holds a
/// name, and the palette defines that name.
pub open spec fn field_color(palette: Node, table: Node, field: Seq<char>) -> Option<Seq<char>> {
    match table.get(field) {
        Some(Node::String(reference)) => palette_color(palette, reference),
        _ => None,
    }
}

/// Whether the `modifiers` list of `table` holds the string `word`.
pub open spec fn has_modifier(table: Node, word: Seq<char>) -> bool {
    match table.get("modifiers"@) {
        Some(Node::Array(items)) => items.contains(Node::String(word)),
        _ => false,
    }
}

/// What a document assigns under one name.
pub enum Assignment {
    /// Nothing: the name has no entry, or one that assigns no style.
    Nothing,
    /// This style.
    Style(StyleView),
    /// A style by a reference that the palette does not define. Holds the
    /// name that the error reports: the scope or the field.
    Unresolved(Seq<char>),
}

/// What the entry `name` of `doc` assigns.
///
/// A string entry names a palette color. A table entry names one in its `fg`
/// field and may list the modifiers `bold` and `italic`; other modifiers are
/// ignored. An entry of any other kind assigns nothing.
///
/// A table entry without a resolvable `fg` is unresolved and reports `fg`. A
/// string entry that names no palette color is unresolved and reports `name`
/// if the entry is `strict`, and assigns nothing if it is not.
pub open spec fn entry_style(doc: Node, palette: Node, name: Seq<char>, strict: bool) -> Assignment {
    match doc.get(name) {
        Some(Node::String(reference)) => match palette_color(palette, reference) {
            Some(color) => Assignment::Style(StyleView::plain(color)),
            None => if strict {
                Assignment::Unresolved(name)
            } else {
                Assignment::Nothing
            },
        },
        Some(Node::Table(entries)) => match field_color(palette, Node::Table(entries), "fg"@) {
            Some(color) => Assignment::Style(
                StyleView {
                    color,
                    is_bold: has_modifier(Node::Table(entries), "bold"@),
                    is_italic: has_modifier(Node::Table(entries), "italic"@),
                },
            ),
            None => Assignment::Unresolved("fg"@),
        },
        _ => Assignment::Nothing,
    }
}

/// What `doc` assigns the scope at `index`. Scope entries are strict.
pub open spec fn scope_style(doc: Node, palette: Node, index: int) -> Assignment {
    entry_style(doc, palette, scope_names()[index], true)
}

/// The name reported for the first scope at or after `from` whose entry does
/// not resolve.
pub open spec fn scopes_error(doc: Node, palette: Node, from: int) -> Option<Seq<char>>
    decreases SCOPE_COUNT - from,
{
    if from < 0 || from >= SCOPE_COUNT {
        None
    } else {
        match scope_style(doc, palette, from) {
            Assignment::Unresolved(name) => Some(name),
            _ => scopes_error(doc, palette, from + 1),
        }
    }
}

/// The background style: the color that `bg` of the table `ui.background`
/// refers to, and the default where there is no such table or it has no `bg`.
pub open spec fn background_style(doc: Node, palette: Node) -> Result<StyleView, Seq<char>> {
    match doc.get("ui.background"@) {
        Some(Node::Table(entries)) => match Node::Table(entries).get("bg"@) {
            None => Ok(StyleView::plain(default_background())),
            Some(_) => match field_color(palette, Node::Table(entries), "bg"@) {
                Some(color) => Ok(StyleView::plain(color)),
                None => Err("bg"@),
            },
        },
        _ => Ok(StyleView::plain(default_background())),
    }
}

/// The foreground style: that of the entry `ui.text`, which is not strict,
/// and the default where the entry assigns nothing.
pub open spec fn foreground_style(doc: Node, palette: Node) -> Result<StyleView, Seq<char>> {
    match entry_style(doc, palette, "ui.text"@, false) {
        Assignment::Style(style) => Ok(style),
        Assignment::Nothing => Ok(StyleView::plain(default_foreground())),
        Assignment::Unresolved(name) => Err(name),
    }
}

/// The styles of all scopes that `doc` assigns one.
pub open spec fn scope_styles(doc: Node, palette: Node) -> Map<int, StyleView> {
    Map::new(
        |i: int| 0 <= i < SCOPE_COUNT && scope_style(doc, palette, i) is Style,
        |i: int| scope_style(doc, palette, i)->Style_0,
    )
}

/// The theme that the document `doc` describes.
///
/// A document whose top level is no table is no theme, and one without a
/// `palette` entry is malformed. Scopes are resolved in index order, then the
/// background, then the foreground; the first reference that does not resolve
/// fails the whole resolution.
pub open spec fn resolve(doc: Node) -> Result<ThemeView, ErrorView> {
    if !(doc is Table) {
        Err(ErrorView::InvalidTheme)
    } else {
        match doc.get("palette"@) {
            None => Err(ErrorView::Toml(MalformedView::MissingPalette)),
            Some(palette) => match scopes_error(doc, palette, 0) {
                Some(name) => Err(ErrorView::InvalidColorReference(name)),
                None => match background_style(doc, palette) {
                    Err(name) => Err(ErrorView::InvalidColorReference(name)),
                    Ok(background) => match foreground_style(doc, palette) {
                        Err(name) => Err(ErrorView::InvalidColorReference(name)),
                        Ok(foreground) => Ok(
                            ThemeView {
                                styles: scope_styles(doc, palette),
                                foreground,
                                background,
                            },
                        ),
                    },
                },
            },
        }
    }
}

/// The theme that the text `text` describes, a TOML document.
pub open spec fn resolve_text(text: Seq<char>) -> Result<ThemeView, ErrorView> {
    match toml_document(text) {
        None => Err(ErrorView::Toml(MalformedView::Syntax)),
        Some(doc) => resolve(doc),
    }
}

/// The content of the result of a resolution.
pub open spec fn outcome(res: Result<Theme, Error>) -> Result<ThemeView, ErrorView> {
    match res {
        Ok(theme) => Ok(theme@),
        Err(error) => Err(error@),
    }
}

/// The content of a resolved entry.
pub open spec fn assignment_of(res: Result<Option<Style>, String>) -> Assignment {
    match res {
        Ok(Some(style)) => Assignment::Style(style@),
        Ok(None) => Assignment::Nothing,
        Err(name) => Assignment::Unresolved(name@),
    }
}

/// The content of a resolved default style.
pub open spec fn style_outcome(res: Result<Style, String>) -> Result<StyleView, Seq<char>> {
    match res {
        Ok(style) => Ok(style@),
        Err(name) => Err(name@),
    }
}

/// The palette name that a string entry, or the `fg` field of a table entry,
/// refers to.
pub open spec fn entry_reference(entry: Node) -> Option<Seq<char>> {
    match entry {
        Node::String(reference) => Some(reference),
        Node::Table(_) => match entry.get("fg"@) {
            Some(Node::String(reference)) => Some(reference),
            _ => None,
        },
        _ => None,
    }
}

/// Whether some entry of `doc` is unresolved and reports `name`: a scope
/// entry, the background or the foreground.
pub open spec fn reports_unresolved(doc: Node, palette: Node, name: Seq<char>) -> bool {
    ||| exists|index: int|
        0 <= index < SCOPE_COUNT && #[trigger] scope_style(doc, palette, index)
            == Assignment::Unresolved(name)
    ||| background_style(doc, palette) matches Err(reported) && reported == name
    ||| foreground_style(doc, palette) matches Err(reported) && reported == name
}

/// Where no scope at or after `from` is unresolved, none is reported; where
/// one is reported, it is the first that is unresolved.
pub proof fn lemma_scopes_error(doc: Node, palette: Node, from: int)
    requires
        0 <= from <= SCOPE_COUNT,
    ensures
        match scopes_error(doc, palette, from) {
            None => forall|index: int|
                from <= index < SCOPE_COUNT ==> !(#[trigger] scope_style(doc, palette, index)
                    is Unresolved),
            Some(name) => exists|index: int|
                from <= index < SCOPE_COUNT && #[trigger] scope_style(doc, palette, index)
                    == Assignment::Unresolved(name) && forall|earlier: int|
                    from <= earlier < index ==> !(#[trigger] scope_style(doc, palette, earlier)
                        is Unresolved),
        },
    decreases SCOPE_COUNT - from,
{
    if from < SCOPE_COUNT {
        lemma_scopes_error(doc, palette, from + 1);
    }
}

/// Every scope entry that resolves is in the theme, with the color that its
/// reference names in the palette.
pub proof fn lemma_resolved_scope_is_styled(doc: Node, index: int)
    requires
        resolve(doc) is Ok,
        0 <= index < SCOPE_COUNT,
        doc.get(scope_names()[index]) is Some,
        entry_reference(doc.get(scope_names()[index])->0) is Some,
        palette_color(
            doc.get("palette"@)->0,
            entry_reference(doc.get(scope_names()[index])->0)->0,
        ) is Some,
    ensures
        resolve(doc)->Ok_0.styles.contains_key(index),
        Some(resolve(doc)->Ok_0.styles[index].color) == palette_color(
            doc.get("palette"@)->0,
            entry_reference(doc.get(scope_names()[index])->0)->0,
        ),
{
}

/// A theme holds a style for a scope only where the scope's entry resolves.
pub proof fn lemma_styled_scope_is_resolved(doc: Node, index: int)
    requires
        resolve(doc) is Ok,
        resolve(doc)->Ok_0.styles.contains_key(index),
    ensures
        0 <= index < SCOPE_COUNT,
        doc.get(scope_names()[index]) is Some,
        entry_reference(doc.get(scope_names()[index])->0) is Some,
        Some(resolve(doc)->Ok_0.styles[index].color) == palette_color(
            doc.get("palette"@)->0,
            entry_reference(doc.get(scope_names()[index])->0)->0,
        ),
{
}

/// A document without a palette is malformed, whatever else it holds, and
/// one whose top level is no table is no theme.
pub proof fn lemma_missing_palette_is_malformed(doc: Node)
    ensures
        doc is Table && doc.get("palette"@) is None ==> resolve(doc) matches Err(
            ErrorView::Toml(MalformedView::MissingPalette),
        ),
        !(doc is Table) ==> resolve(doc) matches Err(ErrorView::InvalidTheme),
        resolve(doc) matches Err(ErrorView::Toml(_)) ==> doc is Table && doc.get("palette"@)
            is None,
        resolve(doc) matches Err(ErrorView::InvalidTheme) ==> !(doc is Table),
{
}

/// A scope entry whose reference the palette does not define fails the
/// resolution. Where no earlier scope fails, the error names the entry: the
/// scope for a string entry, `fg` for a table entry.
pub proof fn lemma_unresolved_scope_fails(doc: Node, index: int)
    requires
        doc is Table,
        doc.get("palette"@) is Some,
        0 <= index < SCOPE_COUNT,
        doc.get(scope_names()[index]) is Some,
        doc.get(scope_names()[index])->0 is String || doc.get(scope_names()[index])->0 is Table,
        entry_reference(doc.get(scope_names()[index])->0) matches Some(reference)
            ==> palette_color(doc.get("palette"@)->0, reference) is None,
    ensures
        resolve(doc) matches Err(ErrorView::InvalidColorReference(_)),
        (forall|earlier: int|
            0 <= earlier < index ==> !(#[trigger] scope_style(
                doc,
                doc.get("palette"@)->0,
                earlier,
            ) is Unresolved)) ==> (resolve(doc) matches Err(
            ErrorView::InvalidColorReference(reported),
        ) && reported == if doc.get(scope_names()[index])->0 is String {
            scope_names()[index]
        } else {
            "fg"@
        }),
{
    let palette = doc.get("palette"@)->0;
    lemma_scopes_error(doc, palette, 0);
    assert(scope_style(doc, palette, index) is Unresolved);
}

/// A background whose `bg` the palette does not define fails the resolution.
/// Where every scope resolves, the error names `bg`.
pub proof fn lemma_unresolved_background_fails(doc: Node)
    requires
        doc is Table,
        doc.get("palette"@) is Some,
        doc.get("ui.background"@) matches Some(table) && table is Table && table.get("bg"@)
            is Some && field_color(doc.get("palette"@)->0, table, "bg"@) is None,
    ensures
        resolve(doc) matches Err(ErrorView::InvalidColorReference(_)),
        scopes_error(doc, doc.get("palette"@)->0, 0) is None ==> (resolve(doc) matches Err(
            ErrorView::InvalidColorReference(reported),
        ) && reported == "bg"@),
{
}

/// A default text style in table form whose `fg` the palette does not define
/// fails the resolution. Where every scope and the background resolve, the
/// error names `fg`.
pub proof fn lemma_unresolved_foreground_fails(doc: Node)
    requires
        doc is Table,
        doc.get("palette"@) is Some,
        doc.get("ui.text"@) matches Some(table) && table is Table && field_color(
            doc.get("palette"@)->0,
            table,
            "fg"@,
        ) is None,
    ensures
        resolve(doc) matches Err(ErrorView::InvalidColorReference(_)),
        scopes_error(doc, doc.get("palette"@)->0, 0) is None && background_style(
            doc,
            doc.get("palette"@)->0,
        ) is Ok ==> (resolve(doc) matches Err(ErrorView::InvalidColorReference(reported))
            && reported == "fg"@),
{
}

/// A document in which some reference does not resolve fails, and the error
/// names an entry or field whose reference does not resolve.
pub proof fn lemma_unresolved_reference_fails(doc: Node, name: Seq<char>)
    requires
        doc is Table,
        doc.get("palette"@) is Some,
        reports_unresolved(doc, doc.get("palette"@)->0, name),
    ensures
        resolve(doc) matches Err(ErrorView::InvalidColorReference(reported)) && reports_unresolved(
            doc,
            doc.get("palette"@)->0,
            reported,
        ),
{
    let palette = doc.get("palette"@)->0;
    lemma_scopes_error(doc, palette, 0);
}

/// A document resolves exactly when it is a table with a palette in which
/// every reference resolves.
pub proof fn lemma_resolve_succeeds(doc: Node)
    ensures
        resolve(doc) is Ok <==> doc is Table && doc.get("palette"@) is Some && !exists|
            name: Seq<char>,
        | reports_unresolved(doc, doc.get("palette"@)->0, name),
{
    if doc is Table && doc.get("palette"@) is Some {
        let palette = doc.get("palette"@)->0;
        lemma_scopes_error(doc, palette, 0);
        match resolve(doc) {
            Ok(_) => {
                assert forall|name: Seq<char>| !reports_unresolved(doc, palette, name) by {
                    if reports_unresolved(doc, palette, name) {
                        lemma_unresolved_reference_fails(doc, name);
                    }
                }
            },
            Err(ErrorView::InvalidColorReference(reported)) => {
                lemma_resolve_reports(doc);
            },
            Err(_) => {},
        }
    }
}

/// The name in an unresolved-reference error is that of an entry or field
/// whose reference does not resolve.
pub proof fn lemma_resolve_reports(doc: Node)
    requires
        resolve(doc) matches Err(ErrorView::InvalidColorReference(_)),
    ensures
        doc is Table,
        doc.get("palette"@) is Some,
        resolve(doc) matches Err(ErrorView::InvalidColorReference(reported)) && reports_unresolved(
            doc,
            doc.get("palette"@)->0,
            reported,
        ),
{
    let palette = doc.get("palette"@)->0;
    lemma_scopes_error(doc, palette, 0);
}

fn palette_color_of<'a>(palette: &'a Item, reference: &str) -> (res: Option<&'a String>)
    ensures
        match res {
            Some(color) => palette_color(palette@, reference@) == Some(color@),
            None => palette_color(palette@, reference@) is None,
        },
{
    match palette.get(reference) {
        Some(Item::String(color)) => Some(color),
        _ => None,
    }
}

fn field_color_of<'a>(palette: &'a Item, table: &Item, field: &str) -> (res: Option<&'a String>)
    ensures
        match res {
            Some(color) => field_color(palette@, table@, field@) == Some(color@),
            None => field_color(palette@, table@, field@) is None,
        },
{
    match table.get(field) {
        Some(Item::String(reference)) => palette_color_of(palette, reference.as_str()),
        _ => None,
    }
}

/// Whether the `modifiers` list of `table` holds `bold`, and whether it holds
/// `italic`.
fn modifiers_of(table: &Item) -> (flags: (bool, bool))
    ensures
        flags.0 == has_modifier(table@, "bold"@),
        flags.1 == has_modifier(table@, "italic"@),
{
    let mut is_bold = false;
    let mut is_italic = false;
    if let Some(Item::Array(items)) = table.get("modifiers") {
        let ghost all = Item::Array(*items)@->Array_0;
        proof {
            lemma_array_view(*items);
        }
        let mut i: usize = 0;
        while i < items.len()
            invariant
                i <= items.len(),
                all.len() == items.len(),
                forall|j: int| 0 <= j < all.len() ==> #[trigger] all[j] == items@[j]@,
                is_bold == all.take(i as int).contains(Node::String("bold"@)),
                is_italic == all.take(i as int).contains(Node::String("italic"@)),
            decreases items.len() - i,
        {
            proof {
                let seen = all.take(i as int);
                let next = all.take(i + 1);
                assert forall|word: Node|
                    next.contains(word) == (seen.contains(word) || all[i as int] == word) by {
                    if seen.contains(word) {
                        let k = choose|k: int| 0 <= k < i && seen[k] == word;
                        assert(next[k] == word);
                    }
                    if all[i as int] == word {
                        assert(next[i as int] == word);
                    }
                }
                reveal_strlit("italic");
                reveal_strlit("bold");
                assert("italic"@.len() == 6 && "bold"@.len() == 4);
            }
            if let Item::String(modifier) = &items[i] {
                if modifier.as_str().eq("italic") {
                    is_italic = true;
                } else if modifier.as_str().eq("bold") {
                    is_bold = true;
                }
            }
            i += 1;
        }
        assert(all.take(i as int) == all);
    }
    (is_bold, is_italic)
}

/// Resolves the entry `name` of `doc`.
fn entry_style_of(doc: &Item, palette: &Item, name: &str, strict: bool) -> (res: Result<
    Option<Style>,
    String,
>)
    ensures
        assignment_of(res) == entry_style(doc@, palette@, name@, strict),
{
    match doc.get(name) {
        Some(Item::String(reference)) => match palette_color_of(palette, reference.as_str()) {
            Some(color) => Ok(Some(Style::from(color))),
            None => if strict {
                Err(name.to_owned())
            } else {
                Ok(None)
            },
        },
        Some(table) => match table {
            Item::Table(_) => match field_color_of(palette, table, "fg") {
                Some(color) => {
                    let flags = modifiers_of(table);
                    Ok(Some(Style { color: color.clone(), is_bold: flags.0, is_italic: flags.1 }))
                },
                None => Err("fg".to_owned()),
            },
            _ => Ok(None),
        },
        None => Ok(None),
    }
}

/// Resolves the background of `doc`.
fn background_style_of(doc: &Item, palette: &Item) -> (res: Result<Style, String>)
    ensures
        style_outcome(res) == background_style(doc@, palette@),
{
    match doc.get("ui.background") {
        Some(table) => match table {
            Item::Table(_) => match table.get("bg") {
                None => Ok(Style::from(&"#000".to_owned())),
                Some(_) => match field_color_of(palette, table, "bg") {
                    Some(color) => Ok(Style::from(color)),
                    None => Err("bg".to_owned()),
                },
            },
            _ => Ok(Style::from(&"#000".to_owned())),
        },
        None => Ok(Style::from(&"#000".to_owned())),
    }
}

/// A theme defining colors and modifiers to be used for syntax highlighting.
pub struct Theme {
    style_map: HashMap<usize, Style>,
    foreground: Style,
    background: Style,
}

impl View for Theme {
    type V = ThemeView;

    closed spec fn view(&self) -> ThemeView {
        ThemeView {
            styles: Map::new(
                |i: int| 0 <= i < SCOPE_COUNT && self.style_map@.contains_key(i as usize),
                |i: int| self.style_map@[i as usize]@,
            ),
            foreground: self.foreground@,
            background: self.background@,
        }
    }
}

impl Theme {
    #[verifier::type_invariant]
    spec fn inv(&self) -> bool {
        forall|i: usize| self.style_map@.contains_key(i) ==> i < SCOPE_COUNT
    }

    /// Resolves the theme that the parsed document `doc` describes.
    pub fn from_document(doc: &Item) -> (res: Result<Theme, Error>)
        ensures
            outcome(res) == resolve(doc@),
            res matches Ok(theme) ==> theme@.wf(),
    {
        match doc {
            Item::Table(_) => {},
            _ => {
                return Err(Error::InvalidTheme);
            },
        }
        let palette = match doc.get("palette") {
            Some(palette) => palette,
            None => {
                return Err(Error::Toml(Malformed::MissingPalette));
            },
        };
        let mut style_map: HashMap<usize, Style> = HashMap::new();
        let mut index: usize = 0;
        while index < SCOPE_COUNT
            invariant
                index <= SCOPE_COUNT,
                doc@ is Table,
                doc@.get("palette"@) == Some(palette@),
                scopes_error(doc@, palette@, 0) == scopes_error(doc@, palette@, index as int),
                forall|i: usize|
                    style_map@.contains_key(i) <==> i < index && scope_style(
                        doc@,
                        palette@,
                        i as int,
                    ) is Style,
                forall|i: usize|
                    style_map@.contains_key(i) ==> scope_style(doc@, palette@, i as int)
                        == Assignment::Style(#[trigger] style_map@[i]@),
            decreases SCOPE_COUNT - index,
        {
            match entry_style_of(doc, palette, scope_name(index), true) {
                Err(name) => {
                    return Err(Error::InvalidColorReference(name));
                },
                Ok(Some(style)) => {
                    style_map.insert(index, style);
                },
                Ok(None) => {},
            }
            index += 1;
        }
        let background = match background_style_of(doc, palette) {
            Ok(style) => style,
            Err(name) => {
                return Err(Error::InvalidColorReference(name));
            },
        };
        let foreground = match entry_style_of(doc, palette, "ui.text", false) {
            Ok(Some(style)) => style,
            Ok(None) => Style::from(&"#fff".to_owned()),
            Err(name) => {
                return Err(Error::InvalidColorReference(name));
            },
        };
        let theme = Theme { style_map, foreground, background };
        assert(theme@.styles =~= scope_styles(doc@, palette@));
        Ok(theme)
    }

    /// Load theme from a Helix compatible theme description stored in `data`.
    ///
    /// # Errors
    ///
    /// `Error::Toml` where `data` is not valid TOML or has no palette, and
    /// `Error::InvalidColorReference` where an entry refers to a color that
    /// the palette does not define.
    pub fn from_helix(data: &str) -> (res: Result<Theme, Error>)
        ensures
            outcome(res) == resolve_text(data@),
            res matches Ok(theme) ==> theme@.wf(),
    {
        match Item::parse(data) {
            Ok(doc) => Theme::from_document(&doc),
            Err(error) => Err(Error::Toml(Malformed::Syntax(error))),
        }
    }

    /// The style of the scope at `index`, if the theme assigns one.
    pub fn style(&self, index: usize) -> (res: Option<&Style>)
        ensures
            match res {
                Some(style) => self@.styles.contains_key(index as int) && self@.styles[index as int]
                    == style@,
                None => !self@.styles.contains_key(index as int),
            },
    {
        proof {
            use_type_invariant(self);
        }
        self.style_map.get(&index)
    }

    /// The default text style.
    pub fn foreground(&self) -> (style: &Style)
        ensures
            style@ == self@.foreground,
    {
        &self.foreground
    }

    /// The background style.
    pub fn background(&self) -> (style: &Style)
        ensures
            style@ == self@.background,
    {
        &self.background
    }

    /// Only indices of the scope table have a style.
    pub proof fn lemma_wf(&self)
        ensures
            self@.wf(),
    {
    }
}

} // verus!
