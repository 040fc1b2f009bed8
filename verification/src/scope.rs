//! The closed vocabulary of highlight scopes.
//!
//! A scope is identified by its position in [`scope_names`]. Theme entries,
//! CSS classes and highlight events all refer to scopes by that position.

use vstd::prelude::*;

verus! {

/// Number of highlight scopes.
pub const SCOPE_COUNT: usize = 27;

/// The scope names, in index order.
pub open spec fn scope_names() -> Seq<Seq<char>> {
    seq![
        "attribute"@,
        "comment"@,
        "constant"@,
        "constant.builtin"@,
        "constructor"@,
        "escape"@,
        "function"@,
        "function.builtin"@,
        "function.method"@,
        "function.macro"@,
        "include"@,
        "keyword"@,
        "label"@,
        "namespace"@,
        "number"@,
        "operator"@,
        "property"@,
        "punctuation"@,
        "punctuation.bracket"@,
        "punctuation.delimiter"@,
        "repeat"@,
        "string"@,
        "type"@,
        "type.builtin"@,
        "variable"@,
        "variable.builtin"@,
        "variable.parameter"@,
    ]
}

/// Name of the scope at `index`.
pub fn scope_name(index: usize) -> (name: &'static str)
    requires
        index < SCOPE_COUNT,
    ensures
        name@ == scope_names()[index as int],
{
    match index {
        0 => "attribute",
        1 => "comment",
        2 => "constant",
        3 => "constant.builtin",
        4 => "constructor",
        5 => "escape",
        6 => "function",
        7 => "function.builtin",
        8 => "function.method",
        9 => "function.macro",
        10 => "include",
        11 => "keyword",
        12 => "label",
        13 => "namespace",
        14 => "number",
        15 => "operator",
        16 => "property",
        17 => "punctuation",
        18 => "punctuation.bracket",
        19 => "punctuation.delimiter",
        20 => "repeat",
        21 => "string",
        22 => "type",
        23 => "type.builtin",
        24 => "variable",
        25 => "variable.builtin",
        _ => "variable.parameter",
    }
}

/// The scope names, in index order.
pub fn scope_name_list() -> (names: Vec<&'static str>)
    ensures
        names@.len() == SCOPE_COUNT,
        forall|i: int| 0 <= i < SCOPE_COUNT ==> (#[trigger] names@[i])@ == scope_names()[i],
{
    let mut names: Vec<&'static str> = Vec::new();
    let mut index: usize = 0;
    while index < SCOPE_COUNT
        invariant
            index <= SCOPE_COUNT,
            names@.len() == index,
            forall|i: int| 0 <= i < index ==> (#[trigger] names@[i])@ == scope_names()[i],
        decreases SCOPE_COUNT - index,
    {
        names.push(scope_name(index));
        index += 1;
    }
    names
}

/// Length and second character of a name. No two scope names agree in both.
spec fn mark(name: Seq<char>) -> (nat, char) {
    (name.len(), name[1])
}

/// No two scopes share a name.
pub proof fn lemma_scope_names_distinct(i: int, j: int)
    requires
        0 <= i < j < SCOPE_COUNT,
    ensures
        scope_names()[i] != scope_names()[j],
{
    reveal_strlit("attribute");
    reveal_strlit("comment");
    reveal_strlit("constant");
    reveal_strlit("constant.builtin");
    reveal_strlit("constructor");
    reveal_strlit("escape");
    reveal_strlit("function");
    reveal_strlit("function.builtin");
    reveal_strlit("function.method");
    reveal_strlit("function.macro");
    reveal_strlit("include");
    reveal_strlit("keyword");
    reveal_strlit("label");
    reveal_strlit("namespace");
    reveal_strlit("number");
    reveal_strlit("operator");
    reveal_strlit("property");
    reveal_strlit("punctuation");
    reveal_strlit("punctuation.bracket");
    reveal_strlit("punctuation.delimiter");
    reveal_strlit("repeat");
    reveal_strlit("string");
    reveal_strlit("type");
    reveal_strlit("type.builtin");
    reveal_strlit("variable");
    reveal_strlit("variable.builtin");
    reveal_strlit("variable.parameter");
    assert(mark(scope_names()[0]) == (9nat, 't'));
    assert(mark(scope_names()[1]) == (7nat, 'o'));
    assert(mark(scope_names()[2]) == (8nat, 'o'));
    assert(mark(scope_names()[3]) == (16nat, 'o'));
    assert(mark(scope_names()[4]) == (11nat, 'o'));
    assert(mark(scope_names()[5]) == (6nat, 's'));
    assert(mark(scope_names()[6]) == (8nat, 'u'));
    assert(mark(scope_names()[7]) == (16nat, 'u'));
    assert(mark(scope_names()[8]) == (15nat, 'u'));
    assert(mark(scope_names()[9]) == (14nat, 'u'));
    assert(mark(scope_names()[10]) == (7nat, 'n'));
    assert(mark(scope_names()[11]) == (7nat, 'e'));
    assert(mark(scope_names()[12]) == (5nat, 'a'));
    assert(mark(scope_names()[13]) == (9nat, 'a'));
    assert(mark(scope_names()[14]) == (6nat, 'u'));
    assert(mark(scope_names()[15]) == (8nat, 'p'));
    assert(mark(scope_names()[16]) == (8nat, 'r'));
    assert(mark(scope_names()[17]) == (11nat, 'u'));
    assert(mark(scope_names()[18]) == (19nat, 'u'));
    assert(mark(scope_names()[19]) == (21nat, 'u'));
    assert(mark(scope_names()[20]) == (6nat, 'e'));
    assert(mark(scope_names()[21]) == (6nat, 't'));
    assert(mark(scope_names()[22]) == (4nat, 'y'));
    assert(mark(scope_names()[23]) == (12nat, 'y'));
    assert(mark(scope_names()[24]) == (8nat, 'a'));
    assert(mark(scope_names()[25]) == (16nat, 'a'));
    assert(mark(scope_names()[26]) == (18nat, 'a'));
    assert(mark(scope_names()[i]) != mark(scope_names()[j]));
}

/// The scope table has exactly [`SCOPE_COUNT`] entries.
pub proof fn lemma_scope_count()
    ensures
        scope_names().len() == SCOPE_COUNT,
{
}

} // verus!
