//! The languages that can be highlighted, and the grammar of each.

use tree_sitter_highlight::HighlightConfiguration;
use vstd::prelude::*;

verus! {

/// A `tree_sitter_highlight::HighlightConfiguration`: a grammar with its
/// queries. Opaque to the verifier.
#[verifier::external_type_specification]
#[verifier::external_body]
pub struct ExHighlightConfiguration(HighlightConfiguration);

/// Number of supported languages.
pub const LANG_COUNT: usize = 20;

/// Languages supported for syntax highlighting.
#[derive(Eq, Hash, PartialEq, Clone, Copy, Debug, Structural)]
pub enum Lang {
    C,
    Cpp,
    CSharp,
    Css,
    Docker,
    Go,
    Haskell,
    Java,
    Js,
    Json,
    Kotlin,
    Latex,
    Lua,
    Markdown,
    Nix,
    Ocaml,
    Python,
    Rust,
    Ts,
    Zig,
}

/// The language that files with the extension `e` are written in.
pub open spec fn extension_lang(e: Seq<char>) -> Option<Lang> {
    if e == "c"@ {
        Some(Lang::C)
    } else if e == "cs"@ {
        Some(Lang::CSharp)
    } else if e == "cpp"@ || e == "cc"@ || e == "cxx"@ {
        Some(Lang::Cpp)
    } else if e == "docker"@ {
        Some(Lang::Docker)
    } else if e == "go"@ {
        Some(Lang::Go)
    } else if e == "hs"@ || e == "lhs"@ {
        Some(Lang::Haskell)
    } else if e == "java"@ {
        Some(Lang::Java)
    } else if e == "js"@ {
        Some(Lang::Js)
    } else if e == "json"@ {
        Some(Lang::Json)
    } else if e == "kt"@ {
        Some(Lang::Kotlin)
    } else if e == "tex"@ {
        Some(Lang::Latex)
    } else if e == "lua"@ {
        Some(Lang::Lua)
    } else if e == "md"@ {
        Some(Lang::Markdown)
    } else if e == "nix"@ {
        Some(Lang::Nix)
    } else if e == "ml"@ {
        Some(Lang::Ocaml)
    } else if e == "py"@ {
        Some(Lang::Python)
    } else if e == "rs"@ {
        Some(Lang::Rust)
    } else if e == "ts"@ {
        Some(Lang::Ts)
    } else if e == "zig"@ {
        Some(Lang::Zig)
    } else {
        None
    }
}

/// Calls `Path::extension`: the part of the file name after its last dot,
/// and nothing where the name has no dot or only a leading one. Which part of
/// a path is its file name depends on the platform, but a plain name is its
/// own file name on every one.
#[verifier::external_body]
fn path_extension(path: &str) -> (extension: Option<String>)
    ensures
        extension matches Some(e) ==> follows_dot(path@, e@),
        is_plain_name(path@) ==> match extension {
            Some(e) => name_extension(path@) == Some(e@),
            None => name_extension(path@) is None,
        },
{
    std::path::Path::new(path).extension().and_then(|e| e.to_str()).map(|e| e.to_owned())
}

/// `tree_sitter_c::language` with the crate's `HIGHLIGHT_QUERY`, given to
/// `HighlightConfiguration::new`; `None` where the query is refused.
#[verifier::external_body]
fn c_configuration() -> Option<HighlightConfiguration> {
    HighlightConfiguration::new(tree_sitter_c::language(), tree_sitter_c::HIGHLIGHT_QUERY, "", "")
        .ok()
}

/// `tree_sitter_cpp::language` with the crate's `HIGHLIGHT_QUERY`, given to
/// `HighlightConfiguration::new`; `None` where the query is refused.
#[verifier::external_body]
fn cpp_configuration() -> Option<HighlightConfiguration> {
    HighlightConfiguration::new(
        tree_sitter_cpp::language(),
        tree_sitter_cpp::HIGHLIGHT_QUERY,
        "",
        "",
    ).ok()
}

/// `tree_sitter_c_sharp::language` without queries, given to
/// `HighlightConfiguration::new`; `None` where the language is refused.
#[verifier::external_body]
fn c_sharp_configuration() -> Option<HighlightConfiguration> {
    HighlightConfiguration::new(tree_sitter_c_sharp::language(), "", "", "").ok()
}

/// `tree_sitter_css::language` with the crate's `HIGHLIGHTS_QUERY`, given to
/// `HighlightConfiguration::new`; `None` where the query is refused.
#[verifier::external_body]
fn css_configuration() -> Option<HighlightConfiguration> {
    HighlightConfiguration::new(
        tree_sitter_css::language(),
        tree_sitter_css::HIGHLIGHTS_QUERY,
        "",
        "",
    ).ok()
}

/// `tree_sitter_dockerfile::language` without queries, given to
/// `HighlightConfiguration::new`; `None` where the language is refused.
#[verifier::external_body]
fn dockerfile_configuration() -> Option<HighlightConfiguration> {
    HighlightConfiguration::new(tree_sitter_dockerfile::language(), "", "", "").ok()
}

/// `tree_sitter_go::language` with the crate's `HIGHLIGHT_QUERY`, given to
/// `HighlightConfiguration::new`; `None` where the query is refused.
#[verifier::external_body]
fn go_configuration() -> Option<HighlightConfiguration> {
    HighlightConfiguration::new(tree_sitter_go::language(), tree_sitter_go::HIGHLIGHT_QUERY, "", "")
        .ok()
}

/// `tree_sitter_haskell::language` with the crate's `HIGHLIGHTS_QUERY`, given
/// to `HighlightConfiguration::new`; `None` where the query is refused.
#[verifier::external_body]
fn haskell_configuration() -> Option<HighlightConfiguration> {
    HighlightConfiguration::new(
        tree_sitter_haskell::language(),
        tree_sitter_haskell::HIGHLIGHTS_QUERY,
        "",
        "",
    ).ok()
}

/// `tree_sitter_java::language` with the crate's `HIGHLIGHT_QUERY`, given to
/// `HighlightConfiguration::new`; `None` where the query is refused.
#[verifier::external_body]
fn java_configuration() -> Option<HighlightConfiguration> {
    HighlightConfiguration::new(
        tree_sitter_java::language(),
        tree_sitter_java::HIGHLIGHT_QUERY,
        "",
        "",
    ).ok()
}

/// `tree_sitter_javascript::language` with the crate's `HIGHLIGHT_QUERY`,
/// `INJECTION_QUERY` and `LOCALS_QUERY`, given to
/// `HighlightConfiguration::new`; `None` where a query is refused.
#[verifier::external_body]
fn javascript_configuration() -> Option<HighlightConfiguration> {
    HighlightConfiguration::new(
        tree_sitter_javascript::language(),
        tree_sitter_javascript::HIGHLIGHT_QUERY,
        tree_sitter_javascript::INJECTION_QUERY,
        tree_sitter_javascript::LOCALS_QUERY,
    ).ok()
}

/// `tree_sitter_json::language` with the crate's `HIGHLIGHT_QUERY`, given to
/// `HighlightConfiguration::new`; `None` where the query is refused.
#[verifier::external_body]
fn json_configuration() -> Option<HighlightConfiguration> {
    HighlightConfiguration::new(
        tree_sitter_json::language(),
        tree_sitter_json::HIGHLIGHT_QUERY,
        "",
        "",
    ).ok()
}

/// `tree_sitter_kotlin::language` without queries, given to
/// `HighlightConfiguration::new`; `None` where the language is refused.
#[verifier::external_body]
fn kotlin_configuration() -> Option<HighlightConfiguration> {
    HighlightConfiguration::new(tree_sitter_kotlin::language(), "", "", "").ok()
}

/// `tree_sitter_lua::language` without queries, given to
/// `HighlightConfiguration::new`; `None` where the language is refused.
#[verifier::external_body]
fn lua_configuration() -> Option<HighlightConfiguration> {
    HighlightConfiguration::new(tree_sitter_lua::language(), "", "", "").ok()
}

/// `tree_sitter_md::language` with the crate's `HIGHLIGHT_QUERY_BLOCK` and
/// `INJECTION_QUERY_BLOCK`, given to `HighlightConfiguration::new`; `None`
/// where a query is refused.
#[verifier::external_body]
fn markdown_configuration() -> Option<HighlightConfiguration> {
    HighlightConfiguration::new(
        tree_sitter_md::language(),
        tree_sitter_md::HIGHLIGHT_QUERY_BLOCK,
        tree_sitter_md::INJECTION_QUERY_BLOCK,
        "",
    ).ok()
}

/// `tree_sitter_nix::language` with the crate's `HIGHLIGHTS_QUERY`, given to
/// `HighlightConfiguration::new`; `None` where the query is refused.
#[verifier::external_body]
fn nix_configuration() -> Option<HighlightConfiguration> {
    HighlightConfiguration::new(
        tree_sitter_nix::language(),
        tree_sitter_nix::HIGHLIGHTS_QUERY,
        "",
        "",
    ).ok()
}

/// `tree_sitter_ocaml::language_ocaml` with the crate's `HIGHLIGHTS_QUERY`,
/// given to `HighlightConfiguration::new`; `None` where the query is refused.
#[verifier::external_body]
fn ocaml_configuration() -> Option<HighlightConfiguration> {
    HighlightConfiguration::new(
        tree_sitter_ocaml::language_ocaml(),
        tree_sitter_ocaml::HIGHLIGHTS_QUERY,
        "",
        "",
    ).ok()
}

/// `tree_sitter_python::language` with the crate's `HIGHLIGHT_QUERY`, given to
/// `HighlightConfiguration::new`; `None` where the query is refused.
#[verifier::external_body]
fn python_configuration() -> Option<HighlightConfiguration> {
    HighlightConfiguration::new(
        tree_sitter_python::language(),
        tree_sitter_python::HIGHLIGHT_QUERY,
        "",
        "",
    ).ok()
}

/// `tree_sitter_rust::language` with the crate's `HIGHLIGHT_QUERY`, given to
/// `HighlightConfiguration::new`; `None` where the query is refused.
#[verifier::external_body]
fn rust_configuration() -> Option<HighlightConfiguration> {
    HighlightConfiguration::new(
        tree_sitter_rust::language(),
        tree_sitter_rust::HIGHLIGHT_QUERY,
        "",
        "",
    ).ok()
}

/// `tree_sitter_typescript::language_typescript` with the crate's
/// `HIGHLIGHT_QUERY` and `LOCALS_QUERY`, given to
/// `HighlightConfiguration::new`; `None` where a query is refused.
#[verifier::external_body]
fn typescript_configuration() -> Option<HighlightConfiguration> {
    HighlightConfiguration::new(
        tree_sitter_typescript::language_typescript(),
        tree_sitter_typescript::HIGHLIGHT_QUERY,
        "",
        tree_sitter_typescript::LOCALS_QUERY,
    ).ok()
}

impl Lang {
    /// Position of the language in the list of languages.
    pub open spec fn spec_index(self) -> int {
        match self {
            Lang::C => 0,
            Lang::Cpp => 1,
            Lang::CSharp => 2,
            Lang::Css => 3,
            Lang::Docker => 4,
            Lang::Go => 5,
            Lang::Haskell => 6,
            Lang::Java => 7,
            Lang::Js => 8,
            Lang::Json => 9,
            Lang::Kotlin => 10,
            Lang::Latex => 11,
            Lang::Lua => 12,
            Lang::Markdown => 13,
            Lang::Nix => 14,
            Lang::Ocaml => 15,
            Lang::Python => 16,
            Lang::Rust => 17,
            Lang::Ts => 18,
            Lang::Zig => 19,
        }
    }

    /// Position of the language in the list of languages.
    pub fn index(&self) -> (index: usize)
        ensures
            index == self.spec_index(),
            index < LANG_COUNT,
    {
        match self {
            Lang::C => 0,
            Lang::Cpp => 1,
            Lang::CSharp => 2,
            Lang::Css => 3,
            Lang::Docker => 4,
            Lang::Go => 5,
            Lang::Haskell => 6,
            Lang::Java => 7,
            Lang::Js => 8,
            Lang::Json => 9,
            Lang::Kotlin => 10,
            Lang::Latex => 11,
            Lang::Lua => 12,
            Lang::Markdown => 13,
            Lang::Nix => 14,
            Lang::Ocaml => 15,
            Lang::Python => 16,
            Lang::Rust => 17,
            Lang::Ts => 18,
            Lang::Zig => 19,
        }
    }

    /// Try to guess the language from the file extension of `path`.
    ///
    /// For a plain file name that is the language of what follows its last
    /// dot. In a path of several components the platform tells which part is
    /// the extension: a part of `path` that follows a dot and holds none.
    pub fn from(path: &str) -> (lang: Option<Lang>)
        ensures
            is_plain_name(path@) ==> lang == match name_extension(path@) {
                Some(e) => extension_lang(e),
                None => None,
            },
            lang matches Some(found) ==> exists|e: Seq<char>|
                follows_dot(path@, e) && extension_lang(e) == Some(found),
            !path@.contains('.') ==> lang is None,
    {
        let extension = path_extension(path)?;
        Lang::from_extension(extension.as_str())
    }

    /// Guesses a language from a plain file extension.
    pub fn from_extension(e: &str) -> (lang: Option<Lang>)
        ensures
            lang == extension_lang(e@),
    {
        if e.eq("c") {
            Some(Lang::C)
        } else if e.eq("cs") {
            Some(Lang::CSharp)
        } else if e.eq("cpp") || e.eq("cc") || e.eq("cxx") {
            Some(Lang::Cpp)
        } else if e.eq("docker") {
            Some(Lang::Docker)
        } else if e.eq("go") {
            Some(Lang::Go)
        } else if e.eq("hs") || e.eq("lhs") {
            Some(Lang::Haskell)
        } else if e.eq("java") {
            Some(Lang::Java)
        } else if e.eq("js") {
            Some(Lang::Js)
        } else if e.eq("json") {
            Some(Lang::Json)
        } else if e.eq("kt") {
            Some(Lang::Kotlin)
        } else if e.eq("tex") {
            Some(Lang::Latex)
        } else if e.eq("lua") {
            Some(Lang::Lua)
        } else if e.eq("md") {
            Some(Lang::Markdown)
        } else if e.eq("nix") {
            Some(Lang::Nix)
        } else if e.eq("ml") {
            Some(Lang::Ocaml)
        } else if e.eq("py") {
            Some(Lang::Python)
        } else if e.eq("rs") {
            Some(Lang::Rust)
        } else if e.eq("ts") {
            Some(Lang::Ts)
        } else if e.eq("zig") {
            Some(Lang::Zig)
        } else {
            None
        }
    }

    /// Whether the grammar of the language is built in. Those of LaTeX and
    /// Zig are not: a renderer takes theirs through `Renderer::install`.
    pub open spec fn is_built_in(self) -> bool {
        !(self is Latex) && !(self is Zig)
    }

    /// Loads the grammar of the language with its highlighting queries.
    /// `None` where the grammar is not built in or refuses a query.
    pub(crate) fn config(&self) -> (config: Option<HighlightConfiguration>)
        ensures
            !self.is_built_in() ==> config is None,
    {
        match self {
            Lang::C => c_configuration(),
            Lang::Cpp => cpp_configuration(),
            Lang::CSharp => c_sharp_configuration(),
            Lang::Css => css_configuration(),
            Lang::Docker => dockerfile_configuration(),
            Lang::Go => go_configuration(),
            Lang::Haskell => haskell_configuration(),
            Lang::Java => java_configuration(),
            Lang::Js => javascript_configuration(),
            Lang::Json => json_configuration(),
            Lang::Kotlin => kotlin_configuration(),
            Lang::Latex => None,
            Lang::Lua => lua_configuration(),
            Lang::Markdown => markdown_configuration(),
            Lang::Nix => nix_configuration(),
            Lang::Ocaml => ocaml_configuration(),
            Lang::Python => python_configuration(),
            Lang::Rust => rust_configuration(),
            Lang::Ts => typescript_configuration(),
            Lang::Zig => None,
        }
    }
}

/// Whether `extension` stands in `path` right behind a dot and holds no dot
/// itself: what every file extension of a path does.
pub open spec fn follows_dot(path: Seq<char>, extension: Seq<char>) -> bool {
    &&& !extension.contains('.')
    &&& exists|dot: int|
        0 <= dot && dot + 1 + extension.len() <= path.len() && #[trigger] path[dot] == '.'
            && path.subrange(dot + 1, dot + 1 + extension.len()) == extension
}

/// Whether `path` is a single file name: it holds no separator and no colon,
/// and is neither `.` nor `..`.
pub open spec fn is_plain_name(path: Seq<char>) -> bool {
    &&& !path.contains('/')
    &&& !path.contains('\\')
    &&& !path.contains(':')
    &&& path != seq!['.']
    &&& path != seq!['.', '.']
}

/// Position of the last dot of `name`, and -1 where it has none.
pub open spec fn last_dot(name: Seq<char>) -> int
    decreases name.len(),
{
    if name.len() == 0 {
        -1
    } else if name.last() == '.' {
        name.len() - 1
    } else {
        last_dot(name.drop_last())
    }
}

/// The extension of the file name `name`: what follows its last dot, and
/// nothing where the name has no dot or only a leading one.
pub open spec fn name_extension(name: Seq<char>) -> Option<Seq<char>> {
    if last_dot(name) <= 0 {
        None
    } else {
        Some(name.skip(last_dot(name) + 1))
    }
}

/// Language info.
pub struct Info {
    /// Identifier matching the most common file extension.
    pub id: &'static str,
    /// Human-readable string.
    pub name: &'static str,
}

impl Info {
    /// The info with the identifier `id` and the readable name `name`.
    pub fn new(id: &'static str, name: &'static str) -> (info: Info)
        ensures
            info.id == id,
            info.name == name,
    {
        Info { id, name }
    }
}

/// Identifier and readable name of each language, in the order of
/// [`Lang::spec_index`].
pub open spec fn info_table() -> Seq<(Seq<char>, Seq<char>)> {
    seq![
        ("c"@, "C"@),
        ("cpp"@, "C++"@),
        ("cs"@, "C#"@),
        ("css"@, "CSS"@),
        ("dockerfile"@, "Dockerfile"@),
        ("go"@, "Go"@),
        ("hs"@, "Haskell"@),
        ("java"@, "Java"@),
        ("js"@, "JavaScript"@),
        ("json"@, "JSON"@),
        ("kt"@, "Kotlin"@),
        ("tex"@, "LaTeX"@),
        ("lua"@, "Lua"@),
        ("md"@, "Markdown"@),
        ("nix"@, "Nix"@),
        ("ml"@, "OCaml"@),
        ("py"@, "Python"@),
        ("rs"@, "Rust"@),
        ("ts"@, "TypeScript"@),
        ("zig"@, "Zig"@),
    ]
}

/// Language info mappings.
pub fn infos() -> (table: Vec<Info>)
    ensures
        table@.len() == LANG_COUNT,
        forall|i: int|
            0 <= i < LANG_COUNT ==> (#[trigger] table@[i]).id@ == info_table()[i].0 && table@[i].name@
                == info_table()[i].1,
{
    let mut table: Vec<Info> = Vec::new();
    table.push(Info::new("c", "C"));
    table.push(Info::new("cpp", "C++"));
    table.push(Info::new("cs", "C#"));
    table.push(Info::new("css", "CSS"));
    table.push(Info::new("dockerfile", "Dockerfile"));
    table.push(Info::new("go", "Go"));
    table.push(Info::new("hs", "Haskell"));
    table.push(Info::new("java", "Java"));
    table.push(Info::new("js", "JavaScript"));
    table.push(Info::new("json", "JSON"));
    table.push(Info::new("kt", "Kotlin"));
    table.push(Info::new("tex", "LaTeX"));
    table.push(Info::new("lua", "Lua"));
    table.push(Info::new("md", "Markdown"));
    table.push(Info::new("nix", "Nix"));
    table.push(Info::new("ml", "OCaml"));
    table.push(Info::new("py", "Python"));
    table.push(Info::new("rs", "Rust"));
    table.push(Info::new("ts", "TypeScript"));
    table.push(Info::new("zig", "Zig"));
    table
}

} // verus!
