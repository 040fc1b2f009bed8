//! The stylesheet of a theme: one rule per styled scope, in scope order,
//! between a rule for the default colors and one for line fragments.

use crate::scope::{scope_name, scope_names, SCOPE_COUNT};
use crate::theme::{Style, StyleView, Theme, ThemeView};
use vstd::prelude::*;
use vstd::string::StringSliceAdditionalSpecFns;

verus! {

/// CSS class of the scope at `index`: the prefix `tsc-` and the scope's name,
/// dots included.
pub open spec fn class_name(index: int) -> Seq<char> {
    "tsc-"@ + scope_names()[index]
}

/// The `class` attribute that marks a span of the scope at `index`.
pub open spec fn class_attribute(index: int) -> Seq<char> {
    "class=\""@ + class_name(index) + "\""@
}

/// The rule that defines the default foreground and background colors.
pub open spec fn root_rule(theme: ThemeView) -> Seq<char> {
    ":root { --tsc-main-fg-color: "@ + theme.foreground.color + "; --tsc-main-bg-color: "@
        + theme.background.color + "; }\n"@
}

/// The declarations for the modifiers of `style`.
pub open spec fn modifier_declarations(style: StyleView) -> Seq<char> {
    (if style.is_bold {
        " font-weight: bold;"@
    } else {
        Seq::empty()
    }) + (if style.is_italic {
        " font-style: italic;"@
    } else {
        Seq::empty()
    })
}

/// The rule that gives the scope at `index` its style.
pub open spec fn scope_rule(index: int, style: StyleView) -> Seq<char> {
    "."@ + class_name(index) + " { color: "@ + style.color + ";"@ + modifier_declarations(style)
        + " }\n"@
}

/// The rules of the styled scopes below `count`, in index order.
pub open spec fn scope_rules(theme: ThemeView, count: int) -> Seq<char>
    decreases count,
{
    if count <= 0 {
        Seq::empty()
    } else if theme.styles.contains_key(count - 1) {
        scope_rules(theme, count - 1) + scope_rule(count - 1, theme.styles[count - 1])
    } else {
        scope_rules(theme, count - 1)
    }
}

/// The rule that keeps a line fragment on one line.
pub open spec fn line_rule() -> Seq<char> {
    ".tsc-line { word-wrap: normal; white-space: pre; }\n"@
}

/// The stylesheet of `theme`.
pub open spec fn stylesheet(theme: ThemeView) -> Seq<char> {
    root_rule(theme) + scope_rules(theme, SCOPE_COUNT as int) + line_rule()
}

/// The indices below `count` that `theme` styles, in increasing order.
pub open spec fn styled_scopes(theme: ThemeView, count: int) -> Seq<int>
    decreases count,
{
    if count <= 0 {
        Seq::empty()
    } else if theme.styles.contains_key(count - 1) {
        styled_scopes(theme, count - 1).push(count - 1)
    } else {
        styled_scopes(theme, count - 1)
    }
}

/// The rules of the scopes `indices`, one after the other.
pub open spec fn rules_of(theme: ThemeView, indices: Seq<int>) -> Seq<char>
    decreases indices.len(),
{
    if indices.len() == 0 {
        Seq::empty()
    } else {
        rules_of(theme, indices.drop_last()) + scope_rule(
            indices.last(),
            theme.styles[indices.last()],
        )
    }
}

/// The stylesheet holds exactly one rule for each styled scope, in scope
/// order: its rules are those of `styled_scopes`, a strictly increasing list
/// of the indices below `count` that have a style.
pub proof fn lemma_one_rule_per_style(theme: ThemeView, count: int)
    ensures
        scope_rules(theme, count) == rules_of(theme, styled_scopes(theme, count)),
        forall|k: int|
            0 <= k < styled_scopes(theme, count).len() ==> {
                &&& 0 <= #[trigger] styled_scopes(theme, count)[k] < count
                &&& theme.styles.contains_key(styled_scopes(theme, count)[k])
            },
        forall|j: int, k: int|
            0 <= j < k < styled_scopes(theme, count).len() ==> styled_scopes(theme, count)[j]
                < styled_scopes(theme, count)[k],
        forall|i: int|
            0 <= i < count && theme.styles.contains_key(i) ==> styled_scopes(
                theme,
                count,
            ).contains(i),
    decreases count,
{
    if count > 0 {
        lemma_one_rule_per_style(theme, count - 1);
        let before = styled_scopes(theme, count - 1);
        let all = styled_scopes(theme, count);
        if theme.styles.contains_key(count - 1) {
            assert(all.drop_last() == before);
            assert forall|i: int| 0 <= i < count && theme.styles.contains_key(i) implies all.contains(
                i,
            ) by {
                if i < count - 1 {
                    let k = choose|k: int| 0 <= k < before.len() && before[k] == i;
                    assert(all[k] == i);
                } else {
                    assert(all[all.len() - 1] == i);
                }
            }
        }
    }
}

/// Two stylesheets generated for one theme are the same text, and so the
/// same bytes.
pub proof fn lemma_stylesheet_is_stable(theme: ThemeView, first: &str, second: &str)
    requires
        first@ == stylesheet(theme),
        second@ == stylesheet(theme),
    ensures
        first@ == second@,
        first.spec_bytes() == second.spec_bytes(),
{
}

/// Appends the rule of the scope at `index` to `css`.
fn push_scope_rule(css: &mut String, index: usize, style: &Style)
    requires
        index < SCOPE_COUNT,
    ensures
        final(css)@ == old(css)@ + scope_rule(index as int, style@),
{
    css.append(".");
    css.append("tsc-");
    css.append(scope_name(index));
    css.append(" { color: ");
    css.append(style.color.as_str());
    css.append(";");
    if style.is_bold {
        css.append(" font-weight: bold;");
    }
    if style.is_italic {
        css.append(" font-style: italic;");
    }
    css.append(" }\n");
}

/// Generates the stylesheet of `theme`: the block to be included in a
/// `<style>` element or an external CSS file.
pub fn stylesheet_of(theme: &Theme) -> (css: String)
    ensures
        css@ == stylesheet(theme@),
{
    let mut css = String::new();
    css.append(":root { --tsc-main-fg-color: ");
    css.append(theme.foreground().color.as_str());
    css.append("; --tsc-main-bg-color: ");
    css.append(theme.background().color.as_str());
    css.append("; }\n");
    let mut index: usize = 0;
    while index < SCOPE_COUNT
        invariant
            index <= SCOPE_COUNT,
            css@ == root_rule(theme@) + scope_rules(theme@, index as int),
        decreases SCOPE_COUNT - index,
    {
        if let Some(style) = theme.style(index) {
            push_scope_rule(&mut css, index, style);
        }
        index += 1;
    }
    css.append(".tsc-line { word-wrap: normal; white-space: pre; }\n");
    css
}

/// The `class` attribute that marks a span of the scope at `index`.
pub fn class_attribute_of(index: usize) -> (attribute: String)
    requires
        index < SCOPE_COUNT,
    ensures
        attribute@ == class_attribute(index as int),
{
    let mut attribute = String::new();
    attribute.append("class=\"");
    attribute.append("tsc-");
    attribute.append(scope_name(index));
    attribute.append("\"");
    attribute
}

} // verus!
