//! Languages the code editor highlights, and their names.
use vstd::prelude::*;

use crate::text_offsets::str_equal;

verus! {

/// A language known to the editor's highlighter.
#[derive(Debug, Clone, Copy, PartialEq, Eq, Hash, Structural)]
pub enum Language {
    Agda,
    Json,
    Plain,
    Astro,
    Bash,
    C,
    CMake,
    CSharp,
    Cpp,
    Css,
    Diff,
    Ejs,
    Elixir,
    Erb,
    Go,
    GraphQL,
    Haskell,
    Html,
    Java,
    JavaScript,
    JsDoc,
    Julia,
    Kotlin,
    Lua,
    Make,
    Markdown,
    MarkdownInline,
    Ocaml,
    OcamlInterface,
    OcamlType,
    Php,
    Proto,
    Python,
    Ql,
    QlDbscheme,
    Razor,
    Regex,
    Ruby,
    Rust,
    Scala,
    Sql,
    Svelte,
    Swift,
    Toml,
    Tsx,
    TypeScript,
    Verilog,
    Yaml,
    Zig,
}

/// Canonical name of a language.
pub open spec fn language_name(l: Language) -> Seq<char> {
    match l {
        Language::Agda => "agda"@,
        Language::Plain => "text"@,
        Language::Astro => "astro"@,
        Language::Bash => "bash"@,
        Language::C => "c"@,
        Language::CMake => "cmake"@,
        Language::CSharp => "csharp"@,
        Language::Cpp => "cpp"@,
        Language::Css => "css"@,
        Language::Diff => "diff"@,
        Language::Ejs => "ejs"@,
        Language::Elixir => "elixir"@,
        Language::Erb => "erb"@,
        Language::Go => "go"@,
        Language::GraphQL => "graphql"@,
        Language::Haskell => "haskell"@,
        Language::Html => "html"@,
        Language::Java => "java"@,
        Language::JavaScript => "javascript"@,
        Language::JsDoc => "jsdoc"@,
        Language::Json => "json"@,
        Language::Julia => "julia"@,
        Language::Kotlin => "kotlin"@,
        Language::Lua => "lua"@,
        Language::Make => "make"@,
        Language::Markdown => "markdown"@,
        Language::MarkdownInline => "markdown_inline"@,
        Language::Ocaml => "ocaml"@,
        Language::OcamlInterface => "ocaml_interface"@,
        Language::OcamlType => "ocaml_type"@,
        Language::Php => "php"@,
        Language::Proto => "proto"@,
        Language::Python => "python"@,
        Language::Ql => "ql"@,
        Language::QlDbscheme => "ql_dbscheme"@,
        Language::Razor => "razor"@,
        Language::Regex => "regex"@,
        Language::Ruby => "ruby"@,
        Language::Rust => "rust"@,
        Language::Scala => "scala"@,
        Language::Sql => "sql"@,
        Language::Svelte => "svelte"@,
        Language::Swift => "swift"@,
        Language::Toml => "toml"@,
        Language::Tsx => "tsx"@,
        Language::TypeScript => "typescript"@,
        Language::Verilog => "verilog"@,
        Language::Yaml => "yaml"@,
        Language::Zig => "zig"@,
    }
}

/// The language a name or alias stands for; plain text for any other name.
pub open spec fn language_from_name(s: Seq<char>) -> Language {
    if s == "agda"@ {
        Language::Agda
    } else if s == "astro"@ {
        Language::Astro
    } else if s == "bash"@ || s == "sh"@ {
        Language::Bash
    } else if s == "c"@ {
        Language::C
    } else if s == "cmake"@ {
        Language::CMake
    } else if s == "cpp"@ || s == "c++"@ {
        Language::Cpp
    } else if s == "csharp"@ || s == "cs"@ {
        Language::CSharp
    } else if s == "css"@ || s == "scss"@ {
        Language::Css
    } else if s == "diff"@ {
        Language::Diff
    } else if s == "ejs"@ {
        Language::Ejs
    } else if s == "elixir"@ || s == "ex"@ {
        Language::Elixir
    } else if s == "erb"@ {
        Language::Erb
    } else if s == "go"@ {
        Language::Go
    } else if s == "graphql"@ {
        Language::GraphQL
    } else if s == "haskell"@ || s == "hs"@ || s == "lhs"@ || s == "haskell_persistent"@ {
        Language::Haskell
    } else if s == "html"@ {
        Language::Html
    } else if s == "java"@ {
        Language::Java
    } else if s == "javascript"@ || s == "js"@ {
        Language::JavaScript
    } else if s == "jsdoc"@ {
        Language::JsDoc
    } else if s == "json"@ || s == "jsonc"@ {
        Language::Json
    } else if s == "julia"@ || s == "jl"@ {
        Language::Julia
    } else if s == "kt"@ || s == "kts"@ || s == "ktm"@ {
        Language::Kotlin
    } else if s == "lua"@ {
        Language::Lua
    } else if s == "make"@ || s == "makefile"@ {
        Language::Make
    } else if s == "markdown"@ || s == "md"@ || s == "mdx"@ {
        Language::Markdown
    } else if s == "markdown_inline"@ || s == "markdown-inline"@ {
        Language::MarkdownInline
    } else if s == "ocaml"@ || s == "ml"@ {
        Language::Ocaml
    } else if s == "ocaml_interface"@ || s == "ocaml-interface"@ || s == "mli"@ {
        Language::OcamlInterface
    } else if s == "ocaml_type"@ || s == "ocaml-type"@ {
        Language::OcamlType
    } else if s == "php"@ || s == "php3"@ || s == "php4"@ || s == "php5"@ || s == "phtml"@ {
        Language::Php
    } else if s == "proto"@ || s == "protobuf"@ {
        Language::Proto
    } else if s == "python"@ || s == "py"@ {
        Language::Python
    } else if s == "ql"@ {
        Language::Ql
    } else if s == "ql_dbscheme"@ || s == "ql-dbscheme"@ || s == "dbscheme"@ {
        Language::QlDbscheme
    } else if s == "razor"@ || s == "cshtml"@ {
        Language::Razor
    } else if s == "regex"@ || s == "regexp"@ {
        Language::Regex
    } else if s == "ruby"@ || s == "rb"@ {
        Language::Ruby
    } else if s == "rust"@ || s == "rs"@ {
        Language::Rust
    } else if s == "scala"@ {
        Language::Scala
    } else if s == "sql"@ {
        Language::Sql
    } else if s == "svelte"@ {
        Language::Svelte
    } else if s == "swift"@ {
        Language::Swift
    } else if s == "toml"@ {
        Language::Toml
    } else if s == "tsx"@ {
        Language::Tsx
    } else if s == "typescript"@ || s == "ts"@ {
        Language::TypeScript
    } else if s == "systemverilog"@ || s == "verilog"@ || s == "sv"@ || s == "svh"@ || s == "v"@ || s == "vh"@ {
        Language::Verilog
    } else if s == "yaml"@ || s == "yml"@ {
        Language::Yaml
    } else if s == "zig"@ {
        Language::Zig
    } else {
        Language::Plain
    }
}

impl std::str::FromStr for Language {
    type Err = std::convert::Infallible;

    /// The language `from_name` gives; parsing never fails.
    fn from_str(s: &str) -> (r: Result<Language, std::convert::Infallible>) {
        Ok(Language::from_name(s))
    }
}

impl Language {
    /// Every language, in declaration order.
    pub fn all() -> (r: Vec<Language>)
        ensures
            r@.len() == 49,
            forall|l: Language| #[trigger] r@.contains(l),
    {
        let mut v: Vec<Language> = Vec::new();
        v.push(Language::Agda);
        v.push(Language::Json);
        v.push(Language::Plain);
        v.push(Language::Astro);
        v.push(Language::Bash);
        v.push(Language::C);
        v.push(Language::CMake);
        v.push(Language::CSharp);
        v.push(Language::Cpp);
        v.push(Language::Css);
        v.push(Language::Diff);
        v.push(Language::Ejs);
        v.push(Language::Elixir);
        v.push(Language::Erb);
        v.push(Language::Go);
        v.push(Language::GraphQL);
        v.push(Language::Haskell);
        v.push(Language::Html);
        v.push(Language::Java);
        v.push(Language::JavaScript);
        v.push(Language::JsDoc);
        v.push(Language::Julia);
        v.push(Language::Kotlin);
        v.push(Language::Lua);
        v.push(Language::Make);
        v.push(Language::Markdown);
        v.push(Language::MarkdownInline);
        v.push(Language::Ocaml);
        v.push(Language::OcamlInterface);
        v.push(Language::OcamlType);
        v.push(Language::Php);
        v.push(Language::Proto);
        v.push(Language::Python);
        v.push(Language::Ql);
        v.push(Language::QlDbscheme);
        v.push(Language::Razor);
        v.push(Language::Regex);
        v.push(Language::Ruby);
        v.push(Language::Rust);
        v.push(Language::Scala);
        v.push(Language::Sql);
        v.push(Language::Svelte);
        v.push(Language::Swift);
        v.push(Language::Toml);
        v.push(Language::Tsx);
        v.push(Language::TypeScript);
        v.push(Language::Verilog);
        v.push(Language::Yaml);
        v.push(Language::Zig);
        proof {
            assert forall|l: Language| #[trigger] v@.contains(l) by {
                match l {
                    Language::Agda => assert(v@[0] == l),
                    Language::Json => assert(v@[1] == l),
                    Language::Plain => assert(v@[2] == l),
                    Language::Astro => assert(v@[3] == l),
                    Language::Bash => assert(v@[4] == l),
                    Language::C => assert(v@[5] == l),
                    Language::CMake => assert(v@[6] == l),
                    Language::CSharp => assert(v@[7] == l),
                    Language::Cpp => assert(v@[8] == l),
                    Language::Css => assert(v@[9] == l),
                    Language::Diff => assert(v@[10] == l),
                    Language::Ejs => assert(v@[11] == l),
                    Language::Elixir => assert(v@[12] == l),
                    Language::Erb => assert(v@[13] == l),
                    Language::Go => assert(v@[14] == l),
                    Language::GraphQL => assert(v@[15] == l),
                    Language::Haskell => assert(v@[16] == l),
                    Language::Html => assert(v@[17] == l),
                    Language::Java => assert(v@[18] == l),
                    Language::JavaScript => assert(v@[19] == l),
                    Language::JsDoc => assert(v@[20] == l),
                    Language::Julia => assert(v@[21] == l),
                    Language::Kotlin => assert(v@[22] == l),
                    Language::Lua => assert(v@[23] == l),
                    Language::Make => assert(v@[24] == l),
                    Language::Markdown => assert(v@[25] == l),
                    Language::MarkdownInline => assert(v@[26] == l),
                    Language::Ocaml => assert(v@[27] == l),
                    Language::OcamlInterface => assert(v@[28] == l),
                    Language::OcamlType => assert(v@[29] == l),
                    Language::Php => assert(v@[30] == l),
                    Language::Proto => assert(v@[31] == l),
                    Language::Python => assert(v@[32] == l),
                    Language::Ql => assert(v@[33] == l),
                    Language::QlDbscheme => assert(v@[34] == l),
                    Language::Razor => assert(v@[35] == l),
                    Language::Regex => assert(v@[36] == l),
                    Language::Ruby => assert(v@[37] == l),
                    Language::Rust => assert(v@[38] == l),
                    Language::Scala => assert(v@[39] == l),
                    Language::Sql => assert(v@[40] == l),
                    Language::Svelte => assert(v@[41] == l),
                    Language::Swift => assert(v@[42] == l),
                    Language::Toml => assert(v@[43] == l),
                    Language::Tsx => assert(v@[44] == l),
                    Language::TypeScript => assert(v@[45] == l),
                    Language::Verilog => assert(v@[46] == l),
                    Language::Yaml => assert(v@[47] == l),
                    Language::Zig => assert(v@[48] == l),
                }
            }
        }
        v
    }

    /// Canonical name, used to look the language up.
    pub fn name(&self) -> (r: &'static str)
        ensures
            r@ == language_name(*self),
    {
        match self {
            Language::Agda => "agda",
            Language::Plain => "text",
            Language::Astro => "astro",
            Language::Bash => "bash",
            Language::C => "c",
            Language::CMake => "cmake",
            Language::CSharp => "csharp",
            Language::Cpp => "cpp",
            Language::Css => "css",
            Language::Diff => "diff",
            Language::Ejs => "ejs",
            Language::Elixir => "elixir",
            Language::Erb => "erb",
            Language::Go => "go",
            Language::GraphQL => "graphql",
            Language::Haskell => "haskell",
            Language::Html => "html",
            Language::Java => "java",
            Language::JavaScript => "javascript",
            Language::JsDoc => "jsdoc",
            Language::Json => "json",
            Language::Julia => "julia",
            Language::Kotlin => "kotlin",
            Language::Lua => "lua",
            Language::Make => "make",
            Language::Markdown => "markdown",
            Language::MarkdownInline => "markdown_inline",
            Language::Ocaml => "ocaml",
            Language::OcamlInterface => "ocaml_interface",
            Language::OcamlType => "ocaml_type",
            Language::Php => "php",
            Language::Proto => "proto",
            Language::Python => "python",
            Language::Ql => "ql",
            Language::QlDbscheme => "ql_dbscheme",
            Language::Razor => "razor",
            Language::Regex => "regex",
            Language::Ruby => "ruby",
            Language::Rust => "rust",
            Language::Scala => "scala",
            Language::Sql => "sql",
            Language::Svelte => "svelte",
            Language::Swift => "swift",
            Language::Toml => "toml",
            Language::Tsx => "tsx",
            Language::TypeScript => "typescript",
            Language::Verilog => "verilog",
            Language::Yaml => "yaml",
            Language::Zig => "zig",
        }
    }

    /// The language a name or file-extension alias stands for; plain text
    /// for any other name.
    pub fn from_name(s: &str) -> (r: Language)
        ensures
            r == language_from_name(s@),
    {
        if str_equal(s, "agda") {
            Language::Agda
        } else if str_equal(s, "astro") {
            Language::Astro
        } else if str_equal(s, "bash") || str_equal(s, "sh") {
            Language::Bash
        } else if str_equal(s, "c") {
            Language::C
        } else if str_equal(s, "cmake") {
            Language::CMake
        } else if str_equal(s, "cpp") || str_equal(s, "c++") {
            Language::Cpp
        } else if str_equal(s, "csharp") || str_equal(s, "cs") {
            Language::CSharp
        } else if str_equal(s, "css") || str_equal(s, "scss") {
            Language::Css
        } else if str_equal(s, "diff") {
            Language::Diff
        } else if str_equal(s, "ejs") {
            Language::Ejs
        } else if str_equal(s, "elixir") || str_equal(s, "ex") {
            Language::Elixir
        } else if str_equal(s, "erb") {
            Language::Erb
        } else if str_equal(s, "go") {
            Language::Go
        } else if str_equal(s, "graphql") {
            Language::GraphQL
        } else if str_equal(s, "haskell") || str_equal(s, "hs") || str_equal(s, "lhs") || str_equal(s, "haskell_persistent") {
            Language::Haskell
        } else if str_equal(s, "html") {
            Language::Html
        } else if str_equal(s, "java") {
            Language::Java
        } else if str_equal(s, "javascript") || str_equal(s, "js") {
            Language::JavaScript
        } else if str_equal(s, "jsdoc") {
            Language::JsDoc
        } else if str_equal(s, "json") || str_equal(s, "jsonc") {
            Language::Json
        } else if str_equal(s, "julia") || str_equal(s, "jl") {
            Language::Julia
        } else if str_equal(s, "kt") || str_equal(s, "kts") || str_equal(s, "ktm") {
            Language::Kotlin
        } else if str_equal(s, "lua") {
            Language::Lua
        } else if str_equal(s, "make") || str_equal(s, "makefile") {
            Language::Make
        } else if str_equal(s, "markdown") || str_equal(s, "md") || str_equal(s, "mdx") {
            Language::Markdown
        } else if str_equal(s, "markdown_inline") || str_equal(s, "markdown-inline") {
            Language::MarkdownInline
        } else if str_equal(s, "ocaml") || str_equal(s, "ml") {
            Language::Ocaml
        } else if str_equal(s, "ocaml_interface") || str_equal(s, "ocaml-interface") || str_equal(s, "mli") {
            Language::OcamlInterface
        } else if str_equal(s, "ocaml_type") || str_equal(s, "ocaml-type") {
            Language::OcamlType
        } else if str_equal(s, "php") || str_equal(s, "php3") || str_equal(s, "php4") || str_equal(s, "php5") || str_equal(s, "phtml") {
            Language::Php
        } else if str_equal(s, "proto") || str_equal(s, "protobuf") {
            Language::Proto
        } else if str_equal(s, "python") || str_equal(s, "py") {
            Language::Python
        } else if str_equal(s, "ql") {
            Language::Ql
        } else if str_equal(s, "ql_dbscheme") || str_equal(s, "ql-dbscheme") || str_equal(s, "dbscheme") {
            Language::QlDbscheme
        } else if str_equal(s, "razor") || str_equal(s, "cshtml") {
            Language::Razor
        } else if str_equal(s, "regex") || str_equal(s, "regexp") {
            Language::Regex
        } else if str_equal(s, "ruby") || str_equal(s, "rb") {
            Language::Ruby
        } else if str_equal(s, "rust") || str_equal(s, "rs") {
            Language::Rust
        } else if str_equal(s, "scala") {
            Language::Scala
        } else if str_equal(s, "sql") {
            Language::Sql
        } else if str_equal(s, "svelte") {
            Language::Svelte
        } else if str_equal(s, "swift") {
            Language::Swift
        } else if str_equal(s, "toml") {
            Language::Toml
        } else if str_equal(s, "tsx") {
            Language::Tsx
        } else if str_equal(s, "typescript") || str_equal(s, "ts") {
            Language::TypeScript
        } else if str_equal(s, "systemverilog") || str_equal(s, "verilog") || str_equal(s, "sv") || str_equal(s, "svh") || str_equal(s, "v") || str_equal(s, "vh") {
            Language::Verilog
        } else if str_equal(s, "yaml") || str_equal(s, "yml") {
            Language::Yaml
        } else if str_equal(s, "zig") {
            Language::Zig
        } else {
            Language::Plain
        }
    }
}

proof fn lemma_round_trip_agda()
    ensures
        language_from_name(language_name(Language::Agda)) == Language::Agda,
{
    reveal_strlit("agda");
}

proof fn lemma_round_trip_json()
    ensures
        language_from_name(language_name(Language::Json)) == Language::Json,
{
    reveal_strlit("json");
    reveal_strlit("agda"); assert("json"@[0] != "agda"@[0]);
    reveal_strlit("astro"); assert("json"@.len() != "astro"@.len());
    reveal_strlit("bash"); assert("json"@[0] != "bash"@[0]);
    reveal_strlit("sh"); assert("json"@.len() != "sh"@.len());
    reveal_strlit("c"); assert("json"@.len() != "c"@.len());
    reveal_strlit("cmake"); assert("json"@.len() != "cmake"@.len());
    reveal_strlit("cpp"); assert("json"@.len() != "cpp"@.len());
    reveal_strlit("c++"); assert("json"@.len() != "c++"@.len());
    reveal_strlit("csharp"); assert("json"@.len() != "csharp"@.len());
    reveal_strlit("cs"); assert("json"@.len() != "cs"@.len());
    reveal_strlit("css"); assert("json"@.len() != "css"@.len());
    reveal_strlit("scss"); assert("json"@[0] != "scss"@[0]);
    reveal_strlit("diff"); assert("json"@[0] != "diff"@[0]);
    reveal_strlit("ejs"); assert("json"@.len() != "ejs"@.len());
    reveal_strlit("elixir"); assert("json"@.len() != "elixir"@.len());
    reveal_strlit("ex"); assert("json"@.len() != "ex"@.len());
    reveal_strlit("erb"); assert("json"@.len() != "erb"@.len());
    reveal_strlit("go"); assert("json"@.len() != "go"@.len());
    reveal_strlit("graphql"); assert("json"@.len() != "graphql"@.len());
    reveal_strlit("haskell"); assert("json"@.len() != "haskell"@.len());
    reveal_strlit("hs"); assert("json"@.len() != "hs"@.len());
    reveal_strlit("lhs"); assert("json"@.len() != "lhs"@.len());
    reveal_strlit("haskell_persistent"); assert("json"@.len() != "haskell_persistent"@.len());
    reveal_strlit("html"); assert("json"@[0] != "html"@[0]);
    reveal_strlit("java"); assert("json"@[1] != "java"@[1]);
    reveal_strlit("javascript"); assert("json"@.len() != "javascript"@.len());
    reveal_strlit("js"); assert("json"@.len() != "js"@.len());
    reveal_strlit("jsdoc"); assert("json"@.len() != "jsdoc"@.len());
}

proof fn lemma_round_trip_plain()
    ensures
        language_from_name(language_name(Language::Plain)) == Language::Plain,
{
    reveal_strlit("text");
    reveal_strlit("agda"); assert("text"@[0] != "agda"@[0]);
    reveal_strlit("astro"); assert("text"@.len() != "astro"@.len());
    reveal_strlit("bash"); assert("text"@[0] != "bash"@[0]);
    reveal_strlit("sh"); assert("text"@.len() != "sh"@.len());
    reveal_strlit("c"); assert("text"@.len() != "c"@.len());
    reveal_strlit("cmake"); assert("text"@.len() != "cmake"@.len());
    reveal_strlit("cpp"); assert("text"@.len() != "cpp"@.len());
    reveal_strlit("c++"); assert("text"@.len() != "c++"@.len());
    reveal_strlit("csharp"); assert("text"@.len() != "csharp"@.len());
    reveal_strlit("cs"); assert("text"@.len() != "cs"@.len());
    reveal_strlit("css"); assert("text"@.len() != "css"@.len());
    reveal_strlit("scss"); assert("text"@[0] != "scss"@[0]);
    reveal_strlit("diff"); assert("text"@[0] != "diff"@[0]);
    reveal_strlit("ejs"); assert("text"@.len() != "ejs"@.len());
    reveal_strlit("elixir"); assert("text"@.len() != "elixir"@.len());
    reveal_strlit("ex"); assert("text"@.len() != "ex"@.len());
    reveal_strlit("erb"); assert("text"@.len() != "erb"@.len());
    reveal_strlit("go"); assert("text"@.len() != "go"@.len());
    reveal_strlit("graphql"); assert("text"@.len() != "graphql"@.len());
    reveal_strlit("haskell"); assert("text"@.len() != "haskell"@.len());
    reveal_strlit("hs"); assert("text"@.len() != "hs"@.len());
    reveal_strlit("lhs"); assert("text"@.len() != "lhs"@.len());
    reveal_strlit("haskell_persistent"); assert("text"@.len() != "haskell_persistent"@.len());
    reveal_strlit("html"); assert("text"@[0] != "html"@[0]);
    reveal_strlit("java"); assert("text"@[0] != "java"@[0]);
    reveal_strlit("javascript"); assert("text"@.len() != "javascript"@.len());
    reveal_strlit("js"); assert("text"@.len() != "js"@.len());
    reveal_strlit("jsdoc"); assert("text"@.len() != "jsdoc"@.len());
    reveal_strlit("json"); assert("text"@[0] != "json"@[0]);
    reveal_strlit("jsonc"); assert("text"@.len() != "jsonc"@.len());
    reveal_strlit("julia"); assert("text"@.len() != "julia"@.len());
    reveal_strlit("jl"); assert("text"@.len() != "jl"@.len());
    reveal_strlit("kt"); assert("text"@.len() != "kt"@.len());
    reveal_strlit("kts"); assert("text"@.len() != "kts"@.len());
    reveal_strlit("ktm"); assert("text"@.len() != "ktm"@.len());
    reveal_strlit("lua"); assert("text"@.len() != "lua"@.len());
    reveal_strlit("make"); assert("text"@[0] != "make"@[0]);
    reveal_strlit("makefile"); assert("text"@.len() != "makefile"@.len());
    reveal_strlit("markdown"); assert("text"@.len() != "markdown"@.len());
    reveal_strlit("md"); assert("text"@.len() != "md"@.len());
    reveal_strlit("mdx"); assert("text"@.len() != "mdx"@.len());
    reveal_strlit("markdown_inline"); assert("text"@.len() != "markdown_inline"@.len());
    reveal_strlit("markdown-inline"); assert("text"@.len() != "markdown-inline"@.len());
    reveal_strlit("ocaml"); assert("text"@.len() != "ocaml"@.len());
    reveal_strlit("ml"); assert("text"@.len() != "ml"@.len());
    reveal_strlit("ocaml_interface"); assert("text"@.len() != "ocaml_interface"@.len());
    reveal_strlit("ocaml-interface"); assert("text"@.len() != "ocaml-interface"@.len());
    reveal_strlit("mli"); assert("text"@.len() != "mli"@.len());
    reveal_strlit("ocaml_type"); assert("text"@.len() != "ocaml_type"@.len());
    reveal_strlit("ocaml-type"); assert("text"@.len() != "ocaml-type"@.len());
    reveal_strlit("php"); assert("text"@.len() != "php"@.len());
    reveal_strlit("php3"); assert("text"@[0] != "php3"@[0]);
    reveal_strlit("php4"); assert("text"@[0] != "php4"@[0]);
    reveal_strlit("php5"); assert("text"@[0] != "php5"@[0]);
    reveal_strlit("phtml"); assert("text"@.len() != "phtml"@.len());
    reveal_strlit("proto"); assert("text"@.len() != "proto"@.len());
    reveal_strlit("protobuf"); assert("text"@.len() != "protobuf"@.len());
    reveal_strlit("python"); assert("text"@.len() != "python"@.len());
    reveal_strlit("py"); assert("text"@.len() != "py"@.len());
    reveal_strlit("ql"); assert("text"@.len() != "ql"@.len());
    reveal_strlit("ql_dbscheme"); assert("text"@.len() != "ql_dbscheme"@.len());
    reveal_strlit("ql-dbscheme"); assert("text"@.len() != "ql-dbscheme"@.len());
    reveal_strlit("dbscheme"); assert("text"@.len() != "dbscheme"@.len());
    reveal_strlit("razor"); assert("text"@.len() != "razor"@.len());
    reveal_strlit("cshtml"); assert("text"@.len() != "cshtml"@.len());
    reveal_strlit("regex"); assert("text"@.len() != "regex"@.len());
    reveal_strlit("regexp"); assert("text"@.len() != "regexp"@.len());
    reveal_strlit("ruby"); assert("text"@[0] != "ruby"@[0]);
    reveal_strlit("rb"); assert("text"@.len() != "rb"@.len());
    reveal_strlit("rust"); assert("text"@[0] != "rust"@[0]);
    reveal_strlit("rs"); assert("text"@.len() != "rs"@.len());
    reveal_strlit("scala"); assert("text"@.len() != "scala"@.len());
    reveal_strlit("sql"); assert("text"@.len() != "sql"@.len());
    reveal_strlit("svelte"); assert("text"@.len() != "svelte"@.len());
    reveal_strlit("swift"); assert("text"@.len() != "swift"@.len());
    reveal_strlit("toml"); assert("text"@[1] != "toml"@[1]);
    reveal_strlit("tsx"); assert("text"@.len() != "tsx"@.len());
    reveal_strlit("typescript"); assert("text"@.len() != "typescript"@.len());
    reveal_strlit("ts"); assert("text"@.len() != "ts"@.len());
    reveal_strlit("systemverilog"); assert("text"@.len() != "systemverilog"@.len());
    reveal_strlit("verilog"); assert("text"@.len() != "verilog"@.len());
    reveal_strlit("sv"); assert("text"@.len() != "sv"@.len());
    reveal_strlit("svh"); assert("text"@.len() != "svh"@.len());
    reveal_strlit("v"); assert("text"@.len() != "v"@.len());
    reveal_strlit("vh"); assert("text"@.len() != "vh"@.len());
    reveal_strlit("yaml"); assert("text"@[0] != "yaml"@[0]);
    reveal_strlit("yml"); assert("text"@.len() != "yml"@.len());
    reveal_strlit("zig"); assert("text"@.len() != "zig"@.len());
}

proof fn lemma_round_trip_astro()
    ensures
        language_from_name(language_name(Language::Astro)) == Language::Astro,
{
    reveal_strlit("astro");
    reveal_strlit("agda"); assert("astro"@.len() != "agda"@.len());
}

proof fn lemma_round_trip_bash()
    ensures
        language_from_name(language_name(Language::Bash)) == Language::Bash,
{
    reveal_strlit("bash");
    reveal_strlit("agda"); assert("bash"@[0] != "agda"@[0]);
    reveal_strlit("astro"); assert("bash"@.len() != "astro"@.len());
}

proof fn lemma_round_trip_c()
    ensures
        language_from_name(language_name(Language::C)) == Language::C,
{
    reveal_strlit("c");
    reveal_strlit("agda"); assert("c"@.len() != "agda"@.len());
    reveal_strlit("astro"); assert("c"@.len() != "astro"@.len());
    reveal_strlit("bash"); assert("c"@.len() != "bash"@.len());
    reveal_strlit("sh"); assert("c"@.len() != "sh"@.len());
}

proof fn lemma_round_trip_c_make()
    ensures
        language_from_name(language_name(Language::CMake)) == Language::CMake,
{
    reveal_strlit("cmake");
    reveal_strlit("agda"); assert("cmake"@.len() != "agda"@.len());
    reveal_strlit("astro"); assert("cmake"@[0] != "astro"@[0]);
    reveal_strlit("bash"); assert("cmake"@.len() != "bash"@.len());
    reveal_strlit("sh"); assert("cmake"@.len() != "sh"@.len());
    reveal_strlit("c"); assert("cmake"@.len() != "c"@.len());
}

proof fn lemma_round_trip_c_sharp()
    ensures
        language_from_name(language_name(Language::CSharp)) == Language::CSharp,
{
    reveal_strlit("csharp");
    reveal_strlit("agda"); assert("csharp"@.len() != "agda"@.len());
    reveal_strlit("astro"); assert("csharp"@.len() != "astro"@.len());
    reveal_strlit("bash"); assert("csharp"@.len() != "bash"@.len());
    reveal_strlit("sh"); assert("csharp"@.len() != "sh"@.len());
    reveal_strlit("c"); assert("csharp"@.len() != "c"@.len());
    reveal_strlit("cmake"); assert("csharp"@.len() != "cmake"@.len());
    reveal_strlit("cpp"); assert("csharp"@.len() != "cpp"@.len());
    reveal_strlit("c++"); assert("csharp"@.len() != "c++"@.len());
}

proof fn lemma_round_trip_cpp()
    ensures
        language_from_name(language_name(Language::Cpp)) == Language::Cpp,
{
    reveal_strlit("cpp");
    reveal_strlit("agda"); assert("cpp"@.len() != "agda"@.len());
    reveal_strlit("astro"); assert("cpp"@.len() != "astro"@.len());
    reveal_strlit("bash"); assert("cpp"@.len() != "bash"@.len());
    reveal_strlit("sh"); assert("cpp"@.len() != "sh"@.len());
    reveal_strlit("c"); assert("cpp"@.len() != "c"@.len());
    reveal_strlit("cmake"); assert("cpp"@.len() != "cmake"@.len());
}

proof fn lemma_round_trip_css()
    ensures
        language_from_name(language_name(Language::Css)) == Language::Css,
{
    reveal_strlit("css");
    reveal_strlit("agda"); assert("css"@.len() != "agda"@.len());
    reveal_strlit("astro"); assert("css"@.len() != "astro"@.len());
    reveal_strlit("bash"); assert("css"@.len() != "bash"@.len());
    reveal_strlit("sh"); assert("css"@.len() != "sh"@.len());
    reveal_strlit("c"); assert("css"@.len() != "c"@.len());
    reveal_strlit("cmake"); assert("css"@.len() != "cmake"@.len());
    reveal_strlit("cpp"); assert("css"@[1] != "cpp"@[1]);
    reveal_strlit("c++"); assert("css"@[1] != "c++"@[1]);
    reveal_strlit("csharp"); assert("css"@.len() != "csharp"@.len());
    reveal_strlit("cs"); assert("css"@.len() != "cs"@.len());
}

proof fn lemma_round_trip_diff()
    ensures
        language_from_name(language_name(Language::Diff)) == Language::Diff,
{
    reveal_strlit("diff");
    reveal_strlit("agda"); assert("diff"@[0] != "agda"@[0]);
    reveal_strlit("astro"); assert("diff"@.len() != "astro"@.len());
    reveal_strlit("bash"); assert("diff"@[0] != "bash"@[0]);
    reveal_strlit("sh"); assert("diff"@.len() != "sh"@.len());
    reveal_strlit("c"); assert("diff"@.len() != "c"@.len());
    reveal_strlit("cmake"); assert("diff"@.len() != "cmake"@.len());
    reveal_strlit("cpp"); assert("diff"@.len() != "cpp"@.len());
    reveal_strlit("c++"); assert("diff"@.len() != "c++"@.len());
    reveal_strlit("csharp"); assert("diff"@.len() != "csharp"@.len());
    reveal_strlit("cs"); assert("diff"@.len() != "cs"@.len());
    reveal_strlit("css"); assert("diff"@.len() != "css"@.len());
    reveal_strlit("scss"); assert("diff"@[0] != "scss"@[0]);
}

proof fn lemma_round_trip_ejs()
    ensures
        language_from_name(language_name(Language::Ejs)) == Language::Ejs,
{
    reveal_strlit("ejs");
    reveal_strlit("agda"); assert("ejs"@.len() != "agda"@.len());
    reveal_strlit("astro"); assert("ejs"@.len() != "astro"@.len());
    reveal_strlit("bash"); assert("ejs"@.len() != "bash"@.len());
    reveal_strlit("sh"); assert("ejs"@.len() != "sh"@.len());
    reveal_strlit("c"); assert("ejs"@.len() != "c"@.len());
    reveal_strlit("cmake"); assert("ejs"@.len() != "cmake"@.len());
    reveal_strlit("cpp"); assert("ejs"@[0] != "cpp"@[0]);
    reveal_strlit("c++"); assert("ejs"@[0] != "c++"@[0]);
    reveal_strlit("csharp"); assert("ejs"@.len() != "csharp"@.len());
    reveal_strlit("cs"); assert("ejs"@.len() != "cs"@.len());
    reveal_strlit("css"); assert("ejs"@[0] != "css"@[0]);
    reveal_strlit("scss"); assert("ejs"@.len() != "scss"@.len());
    reveal_strlit("diff"); assert("ejs"@.len() != "diff"@.len());
}

proof fn lemma_round_trip_elixir()
    ensures
        language_from_name(language_name(Language::Elixir)) == Language::Elixir,
{
    reveal_strlit("elixir");
    reveal_strlit("agda"); assert("elixir"@.len() != "agda"@.len());
    reveal_strlit("astro"); assert("elixir"@.len() != "astro"@.len());
    reveal_strlit("bash"); assert("elixir"@.len() != "bash"@.len());
    reveal_strlit("sh"); assert("elixir"@.len() != "sh"@.len());
    reveal_strlit("c"); assert("elixir"@.len() != "c"@.len());
    reveal_strlit("cmake"); assert("elixir"@.len() != "cmake"@.len());
    reveal_strlit("cpp"); assert("elixir"@.len() != "cpp"@.len());
    reveal_strlit("c++"); assert("elixir"@.len() != "c++"@.len());
    reveal_strlit("csharp"); assert("elixir"@[0] != "csharp"@[0]);
    reveal_strlit("cs"); assert("elixir"@.len() != "cs"@.len());
    reveal_strlit("css"); assert("elixir"@.len() != "css"@.len());
    reveal_strlit("scss"); assert("elixir"@.len() != "scss"@.len());
    reveal_strlit("diff"); assert("elixir"@.len() != "diff"@.len());
    reveal_strlit("ejs"); assert("elixir"@.len() != "ejs"@.len());
}

proof fn lemma_round_trip_erb()
    ensures
        language_from_name(language_name(Language::Erb)) == Language::Erb,
{
    reveal_strlit("erb");
    reveal_strlit("agda"); assert("erb"@.len() != "agda"@.len());
    reveal_strlit("astro"); assert("erb"@.len() != "astro"@.len());
    reveal_strlit("bash"); assert("erb"@.len() != "bash"@.len());
    reveal_strlit("sh"); assert("erb"@.len() != "sh"@.len());
    reveal_strlit("c"); assert("erb"@.len() != "c"@.len());
    reveal_strlit("cmake"); assert("erb"@.len() != "cmake"@.len());
    reveal_strlit("cpp"); assert("erb"@[0] != "cpp"@[0]);
    reveal_strlit("c++"); assert("erb"@[0] != "c++"@[0]);
    reveal_strlit("csharp"); assert("erb"@.len() != "csharp"@.len());
    reveal_strlit("cs"); assert("erb"@.len() != "cs"@.len());
    reveal_strlit("css"); assert("erb"@[0] != "css"@[0]);
    reveal_strlit("scss"); assert("erb"@.len() != "scss"@.len());
    reveal_strlit("diff"); assert("erb"@.len() != "diff"@.len());
    reveal_strlit("ejs"); assert("erb"@[1] != "ejs"@[1]);
    reveal_strlit("elixir"); assert("erb"@.len() != "elixir"@.len());
    reveal_strlit("ex"); assert("erb"@.len() != "ex"@.len());
}

proof fn lemma_round_trip_go()
    ensures
        language_from_name(language_name(Language::Go)) == Language::Go,
{
    reveal_strlit("go");
    reveal_strlit("agda"); assert("go"@.len() != "agda"@.len());
    reveal_strlit("astro"); assert("go"@.len() != "astro"@.len());
    reveal_strlit("bash"); assert("go"@.len() != "bash"@.len());
    reveal_strlit("sh"); assert("go"@[0] != "sh"@[0]);
    reveal_strlit("c"); assert("go"@.len() != "c"@.len());
    reveal_strlit("cmake"); assert("go"@.len() != "cmake"@.len());
    reveal_strlit("cpp"); assert("go"@.len() != "cpp"@.len());
    reveal_strlit("c++"); assert("go"@.len() != "c++"@.len());
    reveal_strlit("csharp"); assert("go"@.len() != "csharp"@.len());
    reveal_strlit("cs"); assert("go"@[0] != "cs"@[0]);
    reveal_strlit("css"); assert("go"@.len() != "css"@.len());
    reveal_strlit("scss"); assert("go"@.len() != "scss"@.len());
    reveal_strlit("diff"); assert("go"@.len() != "diff"@.len());
    reveal_strlit("ejs"); assert("go"@.len() != "ejs"@.len());
    reveal_strlit("elixir"); assert("go"@.len() != "elixir"@.len());
    reveal_strlit("ex"); assert("go"@[0] != "ex"@[0]);
    reveal_strlit("erb"); assert("go"@.len() != "erb"@.len());
}

proof fn lemma_round_trip_graph_q_l()
    ensures
        language_from_name(language_name(Language::GraphQL)) == Language::GraphQL,
{
    reveal_strlit("graphql");
    reveal_strlit("agda"); assert("graphql"@.len() != "agda"@.len());
    reveal_strlit("astro"); assert("graphql"@.len() != "astro"@.len());
    reveal_strlit("bash"); assert("graphql"@.len() != "bash"@.len());
    reveal_strlit("sh"); assert("graphql"@.len() != "sh"@.len());
    reveal_strlit("c"); assert("graphql"@.len() != "c"@.len());
    reveal_strlit("cmake"); assert("graphql"@.len() != "cmake"@.len());
    reveal_strlit("cpp"); assert("graphql"@.len() != "cpp"@.len());
    reveal_strlit("c++"); assert("graphql"@.len() != "c++"@.len());
    reveal_strlit("csharp"); assert("graphql"@.len() != "csharp"@.len());
    reveal_strlit("cs"); assert("graphql"@.len() != "cs"@.len());
    reveal_strlit("css"); assert("graphql"@.len() != "css"@.len());
    reveal_strlit("scss"); assert("graphql"@.len() != "scss"@.len());
    reveal_strlit("diff"); assert("graphql"@.len() != "diff"@.len());
    reveal_strlit("ejs"); assert("graphql"@.len() != "ejs"@.len());
    reveal_strlit("elixir"); assert("graphql"@.len() != "elixir"@.len());
    reveal_strlit("ex"); assert("graphql"@.len() != "ex"@.len());
    reveal_strlit("erb"); assert("graphql"@.len() != "erb"@.len());
    reveal_strlit("go"); assert("graphql"@.len() != "go"@.len());
}

proof fn lemma_round_trip_haskell()
    ensures
        language_from_name(language_name(Language::Haskell)) == Language::Haskell,
{
    reveal_strlit("haskell");
    reveal_strlit("agda"); assert("haskell"@.len() != "agda"@.len());
    reveal_strlit("astro"); assert("haskell"@.len() != "astro"@.len());
    reveal_strlit("bash"); assert("haskell"@.len() != "bash"@.len());
    reveal_strlit("sh"); assert("haskell"@.len() != "sh"@.len());
    reveal_strlit("c"); assert("haskell"@.len() != "c"@.len());
    reveal_strlit("cmake"); assert("haskell"@.len() != "cmake"@.len());
    reveal_strlit("cpp"); assert("haskell"@.len() != "cpp"@.len());
    reveal_strlit("c++"); assert("haskell"@.len() != "c++"@.len());
    reveal_strlit("csharp"); assert("haskell"@.len() != "csharp"@.len());
    reveal_strlit("cs"); assert("haskell"@.len() != "cs"@.len());
    reveal_strlit("css"); assert("haskell"@.len() != "css"@.len());
    reveal_strlit("scss"); assert("haskell"@.len() != "scss"@.len());
    reveal_strlit("diff"); assert("haskell"@.len() != "diff"@.len());
    reveal_strlit("ejs"); assert("haskell"@.len() != "ejs"@.len());
    reveal_strlit("elixir"); assert("haskell"@.len() != "elixir"@.len());
    reveal_strlit("ex"); assert("haskell"@.len() != "ex"@.len());
    reveal_strlit("erb"); assert("haskell"@.len() != "erb"@.len());
    reveal_strlit("go"); assert("haskell"@.len() != "go"@.len());
    reveal_strlit("graphql"); assert("haskell"@[0] != "graphql"@[0]);
}

proof fn lemma_round_trip_html()
    ensures
        language_from_name(language_name(Language::Html)) == Language::Html,
{
    reveal_strlit("html");
    reveal_strlit("agda"); assert("html"@[0] != "agda"@[0]);
    reveal_strlit("astro"); assert("html"@.len() != "astro"@.len());
    reveal_strlit("bash"); assert("html"@[0] != "bash"@[0]);
    reveal_strlit("sh"); assert("html"@.len() != "sh"@.len());
    reveal_strlit("c"); assert("html"@.len() != "c"@.len());
    reveal_strlit("cmake"); assert("html"@.len() != "cmake"@.len());
    reveal_strlit("cpp"); assert("html"@.len() != "cpp"@.len());
    reveal_strlit("c++"); assert("html"@.len() != "c++"@.len());
    reveal_strlit("csharp"); assert("html"@.len() != "csharp"@.len());
    reveal_strlit("cs"); assert("html"@.len() != "cs"@.len());
    reveal_strlit("css"); assert("html"@.len() != "css"@.len());
    reveal_strlit("scss"); assert("html"@[0] != "scss"@[0]);
    reveal_strlit("diff"); assert("html"@[0] != "diff"@[0]);
    reveal_strlit("ejs"); assert("html"@.len() != "ejs"@.len());
    reveal_strlit("elixir"); assert("html"@.len() != "elixir"@.len());
    reveal_strlit("ex"); assert("html"@.len() != "ex"@.len());
    reveal_strlit("erb"); assert("html"@.len() != "erb"@.len());
    reveal_strlit("go"); assert("html"@.len() != "go"@.len());
    reveal_strlit("graphql"); assert("html"@.len() != "graphql"@.len());
    reveal_strlit("haskell"); assert("html"@.len() != "haskell"@.len());
    reveal_strlit("hs"); assert("html"@.len() != "hs"@.len());
    reveal_strlit("lhs"); assert("html"@.len() != "lhs"@.len());
    reveal_strlit("haskell_persistent"); assert("html"@.len() != "haskell_persistent"@.len());
}

proof fn lemma_round_trip_java()
    ensures
        language_from_name(language_name(Language::Java)) == Language::Java,
{
    reveal_strlit("java");
    reveal_strlit("agda"); assert("java"@[0] != "agda"@[0]);
    reveal_strlit("astro"); assert("java"@.len() != "astro"@.len());
    reveal_strlit("bash"); assert("java"@[0] != "bash"@[0]);
    reveal_strlit("sh"); assert("java"@.len() != "sh"@.len());
    reveal_strlit("c"); assert("java"@.len() != "c"@.len());
    reveal_strlit("cmake"); assert("java"@.len() != "cmake"@.len());
    reveal_strlit("cpp"); assert("java"@.len() != "cpp"@.len());
    reveal_strlit("c++"); assert("java"@.len() != "c++"@.len());
    reveal_strlit("csharp"); assert("java"@.len() != "csharp"@.len());
    reveal_strlit("cs"); assert("java"@.len() != "cs"@.len());
    reveal_strlit("css"); assert("java"@.len() != "css"@.len());
    reveal_strlit("scss"); assert("java"@[0] != "scss"@[0]);
    reveal_strlit("diff"); assert("java"@[0] != "diff"@[0]);
    reveal_strlit("ejs"); assert("java"@.len() != "ejs"@.len());
    reveal_strlit("elixir"); assert("java"@.len() != "elixir"@.len());
    reveal_strlit("ex"); assert("java"@.len() != "ex"@.len());
    reveal_strlit("erb"); assert("java"@.len() != "erb"@.len());
    reveal_strlit("go"); assert("java"@.len() != "go"@.len());
    reveal_strlit("graphql"); assert("java"@.len() != "graphql"@.len());
    reveal_strlit("haskell"); assert("java"@.len() != "haskell"@.len());
    reveal_strlit("hs"); assert("java"@.len() != "hs"@.len());
    reveal_strlit("lhs"); assert("java"@.len() != "lhs"@.len());
    reveal_strlit("haskell_persistent"); assert("java"@.len() != "haskell_persistent"@.len());
    reveal_strlit("html"); assert("java"@[0] != "html"@[0]);
}

proof fn lemma_round_trip_java_script()
    ensures
        language_from_name(language_name(Language::JavaScript)) == Language::JavaScript,
{
    reveal_strlit("javascript");
    reveal_strlit("agda"); assert("javascript"@.len() != "agda"@.len());
    reveal_strlit("astro"); assert("javascript"@.len() != "astro"@.len());
    reveal_strlit("bash"); assert("javascript"@.len() != "bash"@.len());
    reveal_strlit("sh"); assert("javascript"@.len() != "sh"@.len());
    reveal_strlit("c"); assert("javascript"@.len() != "c"@.len());
    reveal_strlit("cmake"); assert("javascript"@.len() != "cmake"@.len());
    reveal_strlit("cpp"); assert("javascript"@.len() != "cpp"@.len());
    reveal_strlit("c++"); assert("javascript"@.len() != "c++"@.len());
    reveal_strlit("csharp"); assert("javascript"@.len() != "csharp"@.len());
    reveal_strlit("cs"); assert("javascript"@.len() != "cs"@.len());
    reveal_strlit("css"); assert("javascript"@.len() != "css"@.len());
    reveal_strlit("scss"); assert("javascript"@.len() != "scss"@.len());
    reveal_strlit("diff"); assert("javascript"@.len() != "diff"@.len());
    reveal_strlit("ejs"); assert("javascript"@.len() != "ejs"@.len());
    reveal_strlit("elixir"); assert("javascript"@.len() != "elixir"@.len());
    reveal_strlit("ex"); assert("javascript"@.len() != "ex"@.len());
    reveal_strlit("erb"); assert("javascript"@.len() != "erb"@.len());
    reveal_strlit("go"); assert("javascript"@.len() != "go"@.len());
    reveal_strlit("graphql"); assert("javascript"@.len() != "graphql"@.len());
    reveal_strlit("haskell"); assert("javascript"@.len() != "haskell"@.len());
    reveal_strlit("hs"); assert("javascript"@.len() != "hs"@.len());
    reveal_strlit("lhs"); assert("javascript"@.len() != "lhs"@.len());
    reveal_strlit("haskell_persistent"); assert("javascript"@.len() != "haskell_persistent"@.len());
    reveal_strlit("html"); assert("javascript"@.len() != "html"@.len());
    reveal_strlit("java"); assert("javascript"@.len() != "java"@.len());
}

proof fn lemma_round_trip_js_doc()
    ensures
        language_from_name(language_name(Language::JsDoc)) == Language::JsDoc,
{
    reveal_strlit("jsdoc");
    reveal_strlit("agda"); assert("jsdoc"@.len() != "agda"@.len());
    reveal_strlit("astro"); assert("jsdoc"@[0] != "astro"@[0]);
    reveal_strlit("bash"); assert("jsdoc"@.len() != "bash"@.len());
    reveal_strlit("sh"); assert("jsdoc"@.len() != "sh"@.len());
    reveal_strlit("c"); assert("jsdoc"@.len() != "c"@.len());
    reveal_strlit("cmake"); assert("jsdoc"@[0] != "cmake"@[0]);
    reveal_strlit("cpp"); assert("jsdoc"@.len() != "cpp"@.len());
    reveal_strlit("c++"); assert("jsdoc"@.len() != "c++"@.len());
    reveal_strlit("csharp"); assert("jsdoc"@.len() != "csharp"@.len());
    reveal_strlit("cs"); assert("jsdoc"@.len() != "cs"@.len());
    reveal_strlit("css"); assert("jsdoc"@.len() != "css"@.len());
    reveal_strlit("scss"); assert("jsdoc"@.len() != "scss"@.len());
    reveal_strlit("diff"); assert("jsdoc"@.len() != "diff"@.len());
    reveal_strlit("ejs"); assert("jsdoc"@.len() != "ejs"@.len());
    reveal_strlit("elixir"); assert("jsdoc"@.len() != "elixir"@.len());
    reveal_strlit("ex"); assert("jsdoc"@.len() != "ex"@.len());
    reveal_strlit("erb"); assert("jsdoc"@.len() != "erb"@.len());
    reveal_strlit("go"); assert("jsdoc"@.len() != "go"@.len());
    reveal_strlit("graphql"); assert("jsdoc"@.len() != "graphql"@.len());
    reveal_strlit("haskell"); assert("jsdoc"@.len() != "haskell"@.len());
    reveal_strlit("hs"); assert("jsdoc"@.len() != "hs"@.len());
    reveal_strlit("lhs"); assert("jsdoc"@.len() != "lhs"@.len());
    reveal_strlit("haskell_persistent"); assert("jsdoc"@.len() != "haskell_persistent"@.len());
    reveal_strlit("html"); assert("jsdoc"@.len() != "html"@.len());
    reveal_strlit("java"); assert("jsdoc"@.len() != "java"@.len());
    reveal_strlit("javascript"); assert("jsdoc"@.len() != "javascript"@.len());
    reveal_strlit("js"); assert("jsdoc"@.len() != "js"@.len());
}

proof fn lemma_round_trip_julia()
    ensures
        language_from_name(language_name(Language::Julia)) == Language::Julia,
{
    reveal_strlit("julia");
    reveal_strlit("agda"); assert("julia"@.len() != "agda"@.len());
    reveal_strlit("astro"); assert("julia"@[0] != "astro"@[0]);
    reveal_strlit("bash"); assert("julia"@.len() != "bash"@.len());
    reveal_strlit("sh"); assert("julia"@.len() != "sh"@.len());
    reveal_strlit("c"); assert("julia"@.len() != "c"@.len());
    reveal_strlit("cmake"); assert("julia"@[0] != "cmake"@[0]);
    reveal_strlit("cpp"); assert("julia"@.len() != "cpp"@.len());
    reveal_strlit("c++"); assert("julia"@.len() != "c++"@.len());
    reveal_strlit("csharp"); assert("julia"@.len() != "csharp"@.len());
    reveal_strlit("cs"); assert("julia"@.len() != "cs"@.len());
    reveal_strlit("css"); assert("julia"@.len() != "css"@.len());
    reveal_strlit("scss"); assert("julia"@.len() != "scss"@.len());
    reveal_strlit("diff"); assert("julia"@.len() != "diff"@.len());
    reveal_strlit("ejs"); assert("julia"@.len() != "ejs"@.len());
    reveal_strlit("elixir"); assert("julia"@.len() != "elixir"@.len());
    reveal_strlit("ex"); assert("julia"@.len() != "ex"@.len());
    reveal_strlit("erb"); assert("julia"@.len() != "erb"@.len());
    reveal_strlit("go"); assert("julia"@.len() != "go"@.len());
    reveal_strlit("graphql"); assert("julia"@.len() != "graphql"@.len());
    reveal_strlit("haskell"); assert("julia"@.len() != "haskell"@.len());
    reveal_strlit("hs"); assert("julia"@.len() != "hs"@.len());
    reveal_strlit("lhs"); assert("julia"@.len() != "lhs"@.len());
    reveal_strlit("haskell_persistent"); assert("julia"@.len() != "haskell_persistent"@.len());
    reveal_strlit("html"); assert("julia"@.len() != "html"@.len());
    reveal_strlit("java"); assert("julia"@.len() != "java"@.len());
    reveal_strlit("javascript"); assert("julia"@.len() != "javascript"@.len());
    reveal_strlit("js"); assert("julia"@.len() != "js"@.len());
    reveal_strlit("jsdoc"); assert("julia"@[1] != "jsdoc"@[1]);
    reveal_strlit("json"); assert("julia"@.len() != "json"@.len());
    reveal_strlit("jsonc"); assert("julia"@[1] != "jsonc"@[1]);
}

proof fn lemma_round_trip_lua()
    ensures
        language_from_name(language_name(Language::Lua)) == Language::Lua,
{
    reveal_strlit("lua");
    reveal_strlit("agda"); assert("lua"@.len() != "agda"@.len());
    reveal_strlit("astro"); assert("lua"@.len() != "astro"@.len());
    reveal_strlit("bash"); assert("lua"@.len() != "bash"@.len());
    reveal_strlit("sh"); assert("lua"@.len() != "sh"@.len());
    reveal_strlit("c"); assert("lua"@.len() != "c"@.len());
    reveal_strlit("cmake"); assert("lua"@.len() != "cmake"@.len());
    reveal_strlit("cpp"); assert("lua"@[0] != "cpp"@[0]);
    reveal_strlit("c++"); assert("lua"@[0] != "c++"@[0]);
    reveal_strlit("csharp"); assert("lua"@.len() != "csharp"@.len());
    reveal_strlit("cs"); assert("lua"@.len() != "cs"@.len());
    reveal_strlit("css"); assert("lua"@[0] != "css"@[0]);
    reveal_strlit("scss"); assert("lua"@.len() != "scss"@.len());
    reveal_strlit("diff"); assert("lua"@.len() != "diff"@.len());
    reveal_strlit("ejs"); assert("lua"@[0] != "ejs"@[0]);
    reveal_strlit("elixir"); assert("lua"@.len() != "elixir"@.len());
    reveal_strlit("ex"); assert("lua"@.len() != "ex"@.len());
    reveal_strlit("erb"); assert("lua"@[0] != "erb"@[0]);
    reveal_strlit("go"); assert("lua"@.len() != "go"@.len());
    reveal_strlit("graphql"); assert("lua"@.len() != "graphql"@.len());
    reveal_strlit("haskell"); assert("lua"@.len() != "haskell"@.len());
    reveal_strlit("hs"); assert("lua"@.len() != "hs"@.len());
    reveal_strlit("lhs"); assert("lua"@[1] != "lhs"@[1]);
    reveal_strlit("haskell_persistent"); assert("lua"@.len() != "haskell_persistent"@.len());
    reveal_strlit("html"); assert("lua"@.len() != "html"@.len());
    reveal_strlit("java"); assert("lua"@.len() != "java"@.len());
    reveal_strlit("javascript"); assert("lua"@.len() != "javascript"@.len());
    reveal_strlit("js"); assert("lua"@.len() != "js"@.len());
    reveal_strlit("jsdoc"); assert("lua"@.len() != "jsdoc"@.len());
    reveal_strlit("json"); assert("lua"@.len() != "json"@.len());
    reveal_strlit("jsonc"); assert("lua"@.len() != "jsonc"@.len());
    reveal_strlit("julia"); assert("lua"@.len() != "julia"@.len());
    reveal_strlit("jl"); assert("lua"@.len() != "jl"@.len());
    reveal_strlit("kt"); assert("lua"@.len() != "kt"@.len());
    reveal_strlit("kts"); assert("lua"@[0] != "kts"@[0]);
    reveal_strlit("ktm"); assert("lua"@[0] != "ktm"@[0]);
}

proof fn lemma_round_trip_make()
    ensures
        language_from_name(language_name(Language::Make)) == Language::Make,
{
    reveal_strlit("make");
    reveal_strlit("agda"); assert("make"@[0] != "agda"@[0]);
    reveal_strlit("astro"); assert("make"@.len() != "astro"@.len());
    reveal_strlit("bash"); assert("make"@[0] != "bash"@[0]);
    reveal_strlit("sh"); assert("make"@.len() != "sh"@.len());
    reveal_strlit("c"); assert("make"@.len() != "c"@.len());
    reveal_strlit("cmake"); assert("make"@.len() != "cmake"@.len());
    reveal_strlit("cpp"); assert("make"@.len() != "cpp"@.len());
    reveal_strlit("c++"); assert("make"@.len() != "c++"@.len());
    reveal_strlit("csharp"); assert("make"@.len() != "csharp"@.len());
    reveal_strlit("cs"); assert("make"@.len() != "cs"@.len());
    reveal_strlit("css"); assert("make"@.len() != "css"@.len());
    reveal_strlit("scss"); assert("make"@[0] != "scss"@[0]);
    reveal_strlit("diff"); assert("make"@[0] != "diff"@[0]);
    reveal_strlit("ejs"); assert("make"@.len() != "ejs"@.len());
    reveal_strlit("elixir"); assert("make"@.len() != "elixir"@.len());
    reveal_strlit("ex"); assert("make"@.len() != "ex"@.len());
    reveal_strlit("erb"); assert("make"@.len() != "erb"@.len());
    reveal_strlit("go"); assert("make"@.len() != "go"@.len());
    reveal_strlit("graphql"); assert("make"@.len() != "graphql"@.len());
    reveal_strlit("haskell"); assert("make"@.len() != "haskell"@.len());
    reveal_strlit("hs"); assert("make"@.len() != "hs"@.len());
    reveal_strlit("lhs"); assert("make"@.len() != "lhs"@.len());
    reveal_strlit("haskell_persistent"); assert("make"@.len() != "haskell_persistent"@.len());
    reveal_strlit("html"); assert("make"@[0] != "html"@[0]);
    reveal_strlit("java"); assert("make"@[0] != "java"@[0]);
    reveal_strlit("javascript"); assert("make"@.len() != "javascript"@.len());
    reveal_strlit("js"); assert("make"@.len() != "js"@.len());
    reveal_strlit("jsdoc"); assert("make"@.len() != "jsdoc"@.len());
    reveal_strlit("json"); assert("make"@[0] != "json"@[0]);
    reveal_strlit("jsonc"); assert("make"@.len() != "jsonc"@.len());
    reveal_strlit("julia"); assert("make"@.len() != "julia"@.len());
    reveal_strlit("jl"); assert("make"@.len() != "jl"@.len());
    reveal_strlit("kt"); assert("make"@.len() != "kt"@.len());
    reveal_strlit("kts"); assert("make"@.len() != "kts"@.len());
    reveal_strlit("ktm"); assert("make"@.len() != "ktm"@.len());
    reveal_strlit("lua"); assert("make"@.len() != "lua"@.len());
}

proof fn lemma_round_trip_markdown()
    ensures
        language_from_name(language_name(Language::Markdown)) == Language::Markdown,
{
    reveal_strlit("markdown");
    reveal_strlit("agda"); assert("markdown"@.len() != "agda"@.len());
    reveal_strlit("astro"); assert("markdown"@.len() != "astro"@.len());
    reveal_strlit("bash"); assert("markdown"@.len() != "bash"@.len());
    reveal_strlit("sh"); assert("markdown"@.len() != "sh"@.len());
    reveal_strlit("c"); assert("markdown"@.len() != "c"@.len());
    reveal_strlit("cmake"); assert("markdown"@.len() != "cmake"@.len());
    reveal_strlit("cpp"); assert("markdown"@.len() != "cpp"@.len());
    reveal_strlit("c++"); assert("markdown"@.len() != "c++"@.len());
    reveal_strlit("csharp"); assert("markdown"@.len() != "csharp"@.len());
    reveal_strlit("cs"); assert("markdown"@.len() != "cs"@.len());
    reveal_strlit("css"); assert("markdown"@.len() != "css"@.len());
    reveal_strlit("scss"); assert("markdown"@.len() != "scss"@.len());
    reveal_strlit("diff"); assert("markdown"@.len() != "diff"@.len());
    reveal_strlit("ejs"); assert("markdown"@.len() != "ejs"@.len());
    reveal_strlit("elixir"); assert("markdown"@.len() != "elixir"@.len());
    reveal_strlit("ex"); assert("markdown"@.len() != "ex"@.len());
    reveal_strlit("erb"); assert("markdown"@.len() != "erb"@.len());
    reveal_strlit("go"); assert("markdown"@.len() != "go"@.len());
    reveal_strlit("graphql"); assert("markdown"@.len() != "graphql"@.len());
    reveal_strlit("haskell"); assert("markdown"@.len() != "haskell"@.len());
    reveal_strlit("hs"); assert("markdown"@.len() != "hs"@.len());
    reveal_strlit("lhs"); assert("markdown"@.len() != "lhs"@.len());
    reveal_strlit("haskell_persistent"); assert("markdown"@.len() != "haskell_persistent"@.len());
    reveal_strlit("html"); assert("markdown"@.len() != "html"@.len());
    reveal_strlit("java"); assert("markdown"@.len() != "java"@.len());
    reveal_strlit("javascript"); assert("markdown"@.len() != "javascript"@.len());
    reveal_strlit("js"); assert("markdown"@.len() != "js"@.len());
    reveal_strlit("jsdoc"); assert("markdown"@.len() != "jsdoc"@.len());
    reveal_strlit("json"); assert("markdown"@.len() != "json"@.len());
    reveal_strlit("jsonc"); assert("markdown"@.len() != "jsonc"@.len());
    reveal_strlit("julia"); assert("markdown"@.len() != "julia"@.len());
    reveal_strlit("jl"); assert("markdown"@.len() != "jl"@.len());
    reveal_strlit("kt"); assert("markdown"@.len() != "kt"@.len());
    reveal_strlit("kts"); assert("markdown"@.len() != "kts"@.len());
    reveal_strlit("ktm"); assert("markdown"@.len() != "ktm"@.len());
    reveal_strlit("lua"); assert("markdown"@.len() != "lua"@.len());
    reveal_strlit("make"); assert("markdown"@.len() != "make"@.len());
    reveal_strlit("makefile"); assert("markdown"@[2] != "makefile"@[2]);
}

proof fn lemma_round_trip_markdown_inline()
    ensures
        language_from_name(language_name(Language::MarkdownInline)) == Language::MarkdownInline,
{
    reveal_strlit("markdown_inline");
    reveal_strlit("agda"); assert("markdown_inline"@.len() != "agda"@.len());
    reveal_strlit("astro"); assert("markdown_inline"@.len() != "astro"@.len());
    reveal_strlit("bash"); assert("markdown_inline"@.len() != "bash"@.len());
    reveal_strlit("sh"); assert("markdown_inline"@.len() != "sh"@.len());
    reveal_strlit("c"); assert("markdown_inline"@.len() != "c"@.len());
    reveal_strlit("cmake"); assert("markdown_inline"@.len() != "cmake"@.len());
    reveal_strlit("cpp"); assert("markdown_inline"@.len() != "cpp"@.len());
    reveal_strlit("c++"); assert("markdown_inline"@.len() != "c++"@.len());
    reveal_strlit("csharp"); assert("markdown_inline"@.len() != "csharp"@.len());
    reveal_strlit("cs"); assert("markdown_inline"@.len() != "cs"@.len());
    reveal_strlit("css"); assert("markdown_inline"@.len() != "css"@.len());
    reveal_strlit("scss"); assert("markdown_inline"@.len() != "scss"@.len());
    reveal_strlit("diff"); assert("markdown_inline"@.len() != "diff"@.len());
    reveal_strlit("ejs"); assert("markdown_inline"@.len() != "ejs"@.len());
    reveal_strlit("elixir"); assert("markdown_inline"@.len() != "elixir"@.len());
    reveal_strlit("ex"); assert("markdown_inline"@.len() != "ex"@.len());
    reveal_strlit("erb"); assert("markdown_inline"@.len() != "erb"@.len());
    reveal_strlit("go"); assert("markdown_inline"@.len() != "go"@.len());
    reveal_strlit("graphql"); assert("markdown_inline"@.len() != "graphql"@.len());
    reveal_strlit("haskell"); assert("markdown_inline"@.len() != "haskell"@.len());
    reveal_strlit("hs"); assert("markdown_inline"@.len() != "hs"@.len());
    reveal_strlit("lhs"); assert("markdown_inline"@.len() != "lhs"@.len());
    reveal_strlit("haskell_persistent"); assert("markdown_inline"@.len() != "haskell_persistent"@.len());
    reveal_strlit("html"); assert("markdown_inline"@.len() != "html"@.len());
    reveal_strlit("java"); assert("markdown_inline"@.len() != "java"@.len());
    reveal_strlit("javascript"); assert("markdown_inline"@.len() != "javascript"@.len());
    reveal_strlit("js"); assert("markdown_inline"@.len() != "js"@.len());
    reveal_strlit("jsdoc"); assert("markdown_inline"@.len() != "jsdoc"@.len());
    reveal_strlit("json"); assert("markdown_inline"@.len() != "json"@.len());
    reveal_strlit("jsonc"); assert("markdown_inline"@.len() != "jsonc"@.len());
    reveal_strlit("julia"); assert("markdown_inline"@.len() != "julia"@.len());
    reveal_strlit("jl"); assert("markdown_inline"@.len() != "jl"@.len());
    reveal_strlit("kt"); assert("markdown_inline"@.len() != "kt"@.len());
    reveal_strlit("kts"); assert("markdown_inline"@.len() != "kts"@.len());
    reveal_strlit("ktm"); assert("markdown_inline"@.len() != "ktm"@.len());
    reveal_strlit("lua"); assert("markdown_inline"@.len() != "lua"@.len());
    reveal_strlit("make"); assert("markdown_inline"@.len() != "make"@.len());
    reveal_strlit("makefile"); assert("markdown_inline"@.len() != "makefile"@.len());
    reveal_strlit("markdown"); assert("markdown_inline"@.len() != "markdown"@.len());
    reveal_strlit("md"); assert("markdown_inline"@.len() != "md"@.len());
    reveal_strlit("mdx"); assert("markdown_inline"@.len() != "mdx"@.len());
}

proof fn lemma_round_trip_ocaml()
    ensures
        language_from_name(language_name(Language::Ocaml)) == Language::Ocaml,
{
    reveal_strlit("ocaml");
    reveal_strlit("agda"); assert("ocaml"@.len() != "agda"@.len());
    reveal_strlit("astro"); assert("ocaml"@[0] != "astro"@[0]);
    reveal_strlit("bash"); assert("ocaml"@.len() != "bash"@.len());
    reveal_strlit("sh"); assert("ocaml"@.len() != "sh"@.len());
    reveal_strlit("c"); assert("ocaml"@.len() != "c"@.len());
    reveal_strlit("cmake"); assert("ocaml"@[0] != "cmake"@[0]);
    reveal_strlit("cpp"); assert("ocaml"@.len() != "cpp"@.len());
    reveal_strlit("c++"); assert("ocaml"@.len() != "c++"@.len());
    reveal_strlit("csharp"); assert("ocaml"@.len() != "csharp"@.len());
    reveal_strlit("cs"); assert("ocaml"@.len() != "cs"@.len());
    reveal_strlit("css"); assert("ocaml"@.len() != "css"@.len());
    reveal_strlit("scss"); assert("ocaml"@.len() != "scss"@.len());
    reveal_strlit("diff"); assert("ocaml"@.len() != "diff"@.len());
    reveal_strlit("ejs"); assert("ocaml"@.len() != "ejs"@.len());
    reveal_strlit("elixir"); assert("ocaml"@.len() != "elixir"@.len());
    reveal_strlit("ex"); assert("ocaml"@.len() != "ex"@.len());
    reveal_strlit("erb"); assert("ocaml"@.len() != "erb"@.len());
    reveal_strlit("go"); assert("ocaml"@.len() != "go"@.len());
    reveal_strlit("graphql"); assert("ocaml"@.len() != "graphql"@.len());
    reveal_strlit("haskell"); assert("ocaml"@.len() != "haskell"@.len());
    reveal_strlit("hs"); assert("ocaml"@.len() != "hs"@.len());
    reveal_strlit("lhs"); assert("ocaml"@.len() != "lhs"@.len());
    reveal_strlit("haskell_persistent"); assert("ocaml"@.len() != "haskell_persistent"@.len());
    reveal_strlit("html"); assert("ocaml"@.len() != "html"@.len());
    reveal_strlit("java"); assert("ocaml"@.len() != "java"@.len());
    reveal_strlit("javascript"); assert("ocaml"@.len() != "javascript"@.len());
    reveal_strlit("js"); assert("ocaml"@.len() != "js"@.len());
    reveal_strlit("jsdoc"); assert("ocaml"@[0] != "jsdoc"@[0]);
    reveal_strlit("json"); assert("ocaml"@.len() != "json"@.len());
    reveal_strlit("jsonc"); assert("ocaml"@[0] != "jsonc"@[0]);
    reveal_strlit("julia"); assert("ocaml"@[0] != "julia"@[0]);
    reveal_strlit("jl"); assert("ocaml"@.len() != "jl"@.len());
    reveal_strlit("kt"); assert("ocaml"@.len() != "kt"@.len());
    reveal_strlit("kts"); assert("ocaml"@.len() != "kts"@.len());
    reveal_strlit("ktm"); assert("ocaml"@.len() != "ktm"@.len());
    reveal_strlit("lua"); assert("ocaml"@.len() != "lua"@.len());
    reveal_strlit("make"); assert("ocaml"@.len() != "make"@.len());
    reveal_strlit("makefile"); assert("ocaml"@.len() != "makefile"@.len());
    reveal_strlit("markdown"); assert("ocaml"@.len() != "markdown"@.len());
    reveal_strlit("md"); assert("ocaml"@.len() != "md"@.len());
    reveal_strlit("mdx"); assert("ocaml"@.len() != "mdx"@.len());
    reveal_strlit("markdown_inline"); assert("ocaml"@.len() != "markdown_inline"@.len());
    reveal_strlit("markdown-inline"); assert("ocaml"@.len() != "markdown-inline"@.len());
}

proof fn lemma_round_trip_ocaml_interface()
    ensures
        language_from_name(language_name(Language::OcamlInterface)) == Language::OcamlInterface,
{
    reveal_strlit("ocaml_interface");
    reveal_strlit("agda"); assert("ocaml_interface"@.len() != "agda"@.len());
    reveal_strlit("astro"); assert("ocaml_interface"@.len() != "astro"@.len());
    reveal_strlit("bash"); assert("ocaml_interface"@.len() != "bash"@.len());
    reveal_strlit("sh"); assert("ocaml_interface"@.len() != "sh"@.len());
    reveal_strlit("c"); assert("ocaml_interface"@.len() != "c"@.len());
    reveal_strlit("cmake"); assert("ocaml_interface"@.len() != "cmake"@.len());
    reveal_strlit("cpp"); assert("ocaml_interface"@.len() != "cpp"@.len());
    reveal_strlit("c++"); assert("ocaml_interface"@.len() != "c++"@.len());
    reveal_strlit("csharp"); assert("ocaml_interface"@.len() != "csharp"@.len());
    reveal_strlit("cs"); assert("ocaml_interface"@.len() != "cs"@.len());
    reveal_strlit("css"); assert("ocaml_interface"@.len() != "css"@.len());
    reveal_strlit("scss"); assert("ocaml_interface"@.len() != "scss"@.len());
    reveal_strlit("diff"); assert("ocaml_interface"@.len() != "diff"@.len());
    reveal_strlit("ejs"); assert("ocaml_interface"@.len() != "ejs"@.len());
    reveal_strlit("elixir"); assert("ocaml_interface"@.len() != "elixir"@.len());
    reveal_strlit("ex"); assert("ocaml_interface"@.len() != "ex"@.len());
    reveal_strlit("erb"); assert("ocaml_interface"@.len() != "erb"@.len());
    reveal_strlit("go"); assert("ocaml_interface"@.len() != "go"@.len());
    reveal_strlit("graphql"); assert("ocaml_interface"@.len() != "graphql"@.len());
    reveal_strlit("haskell"); assert("ocaml_interface"@.len() != "haskell"@.len());
    reveal_strlit("hs"); assert("ocaml_interface"@.len() != "hs"@.len());
    reveal_strlit("lhs"); assert("ocaml_interface"@.len() != "lhs"@.len());
    reveal_strlit("haskell_persistent"); assert("ocaml_interface"@.len() != "haskell_persistent"@.len());
    reveal_strlit("html"); assert("ocaml_interface"@.len() != "html"@.len());
    reveal_strlit("java"); assert("ocaml_interface"@.len() != "java"@.len());
    reveal_strlit("javascript"); assert("ocaml_interface"@.len() != "javascript"@.len());
    reveal_strlit("js"); assert("ocaml_interface"@.len() != "js"@.len());
    reveal_strlit("jsdoc"); assert("ocaml_interface"@.len() != "jsdoc"@.len());
    reveal_strlit("json"); assert("ocaml_interface"@.len() != "json"@.len());
    reveal_strlit("jsonc"); assert("ocaml_interface"@.len() != "jsonc"@.len());
    reveal_strlit("julia"); assert("ocaml_interface"@.len() != "julia"@.len());
    reveal_strlit("jl"); assert("ocaml_interface"@.len() != "jl"@.len());
    reveal_strlit("kt"); assert("ocaml_interface"@.len() != "kt"@.len());
    reveal_strlit("kts"); assert("ocaml_interface"@.len() != "kts"@.len());
    reveal_strlit("ktm"); assert("ocaml_interface"@.len() != "ktm"@.len());
    reveal_strlit("lua"); assert("ocaml_interface"@.len() != "lua"@.len());
    reveal_strlit("make"); assert("ocaml_interface"@.len() != "make"@.len());
    reveal_strlit("makefile"); assert("ocaml_interface"@.len() != "makefile"@.len());
    reveal_strlit("markdown"); assert("ocaml_interface"@.len() != "markdown"@.len());
    reveal_strlit("md"); assert("ocaml_interface"@.len() != "md"@.len());
    reveal_strlit("mdx"); assert("ocaml_interface"@.len() != "mdx"@.len());
    reveal_strlit("markdown_inline"); assert("ocaml_interface"@[0] != "markdown_inline"@[0]);
    reveal_strlit("markdown-inline"); assert("ocaml_interface"@[0] != "markdown-inline"@[0]);
    reveal_strlit("ocaml"); assert("ocaml_interface"@.len() != "ocaml"@.len());
    reveal_strlit("ml"); assert("ocaml_interface"@.len() != "ml"@.len());
}

proof fn lemma_round_trip_ocaml_type()
    ensures
        language_from_name(language_name(Language::OcamlType)) == Language::OcamlType,
{
    reveal_strlit("ocaml_type");
    reveal_strlit("agda"); assert("ocaml_type"@.len() != "agda"@.len());
    reveal_strlit("astro"); assert("ocaml_type"@.len() != "astro"@.len());
    reveal_strlit("bash"); assert("ocaml_type"@.len() != "bash"@.len());
    reveal_strlit("sh"); assert("ocaml_type"@.len() != "sh"@.len());
    reveal_strlit("c"); assert("ocaml_type"@.len() != "c"@.len());
    reveal_strlit("cmake"); assert("ocaml_type"@.len() != "cmake"@.len());
    reveal_strlit("cpp"); assert("ocaml_type"@.len() != "cpp"@.len());
    reveal_strlit("c++"); assert("ocaml_type"@.len() != "c++"@.len());
    reveal_strlit("csharp"); assert("ocaml_type"@.len() != "csharp"@.len());
    reveal_strlit("cs"); assert("ocaml_type"@.len() != "cs"@.len());
    reveal_strlit("css"); assert("ocaml_type"@.len() != "css"@.len());
    reveal_strlit("scss"); assert("ocaml_type"@.len() != "scss"@.len());
    reveal_strlit("diff"); assert("ocaml_type"@.len() != "diff"@.len());
    reveal_strlit("ejs"); assert("ocaml_type"@.len() != "ejs"@.len());
    reveal_strlit("elixir"); assert("ocaml_type"@.len() != "elixir"@.len());
    reveal_strlit("ex"); assert("ocaml_type"@.len() != "ex"@.len());
    reveal_strlit("erb"); assert("ocaml_type"@.len() != "erb"@.len());
    reveal_strlit("go"); assert("ocaml_type"@.len() != "go"@.len());
    reveal_strlit("graphql"); assert("ocaml_type"@.len() != "graphql"@.len());
    reveal_strlit("haskell"); assert("ocaml_type"@.len() != "haskell"@.len());
    reveal_strlit("hs"); assert("ocaml_type"@.len() != "hs"@.len());
    reveal_strlit("lhs"); assert("ocaml_type"@.len() != "lhs"@.len());
    reveal_strlit("haskell_persistent"); assert("ocaml_type"@.len() != "haskell_persistent"@.len());
    reveal_strlit("html"); assert("ocaml_type"@.len() != "html"@.len());
    reveal_strlit("java"); assert("ocaml_type"@.len() != "java"@.len());
    reveal_strlit("javascript"); assert("ocaml_type"@[0] != "javascript"@[0]);
    reveal_strlit("js"); assert("ocaml_type"@.len() != "js"@.len());
    reveal_strlit("jsdoc"); assert("ocaml_type"@.len() != "jsdoc"@.len());
    reveal_strlit("json"); assert("ocaml_type"@.len() != "json"@.len());
    reveal_strlit("jsonc"); assert("ocaml_type"@.len() != "jsonc"@.len());
    reveal_strlit("julia"); assert("ocaml_type"@.len() != "julia"@.len());
    reveal_strlit("jl"); assert("ocaml_type"@.len() != "jl"@.len());
    reveal_strlit("kt"); assert("ocaml_type"@.len() != "kt"@.len());
    reveal_strlit("kts"); assert("ocaml_type"@.len() != "kts"@.len());
    reveal_strlit("ktm"); assert("ocaml_type"@.len() != "ktm"@.len());
    reveal_strlit("lua"); assert("ocaml_type"@.len() != "lua"@.len());
    reveal_strlit("make"); assert("ocaml_type"@.len() != "make"@.len());
    reveal_strlit("makefile"); assert("ocaml_type"@.len() != "makefile"@.len());
    reveal_strlit("markdown"); assert("ocaml_type"@.len() != "markdown"@.len());
    reveal_strlit("md"); assert("ocaml_type"@.len() != "md"@.len());
    reveal_strlit("mdx"); assert("ocaml_type"@.len() != "mdx"@.len());
    reveal_strlit("markdown_inline"); assert("ocaml_type"@.len() != "markdown_inline"@.len());
    reveal_strlit("markdown-inline"); assert("ocaml_type"@.len() != "markdown-inline"@.len());
    reveal_strlit("ocaml"); assert("ocaml_type"@.len() != "ocaml"@.len());
    reveal_strlit("ml"); assert("ocaml_type"@.len() != "ml"@.len());
    reveal_strlit("ocaml_interface"); assert("ocaml_type"@.len() != "ocaml_interface"@.len());
    reveal_strlit("ocaml-interface"); assert("ocaml_type"@.len() != "ocaml-interface"@.len());
    reveal_strlit("mli"); assert("ocaml_type"@.len() != "mli"@.len());
}

proof fn lemma_round_trip_php()
    ensures
        language_from_name(language_name(Language::Php)) == Language::Php,
{
    reveal_strlit("php");
    reveal_strlit("agda"); assert("php"@.len() != "agda"@.len());
    reveal_strlit("astro"); assert("php"@.len() != "astro"@.len());
    reveal_strlit("bash"); assert("php"@.len() != "bash"@.len());
    reveal_strlit("sh"); assert("php"@.len() != "sh"@.len());
    reveal_strlit("c"); assert("php"@.len() != "c"@.len());
    reveal_strlit("cmake"); assert("php"@.len() != "cmake"@.len());
    reveal_strlit("cpp"); assert("php"@[0] != "cpp"@[0]);
    reveal_strlit("c++"); assert("php"@[0] != "c++"@[0]);
    reveal_strlit("csharp"); assert("php"@.len() != "csharp"@.len());
    reveal_strlit("cs"); assert("php"@.len() != "cs"@.len());
    reveal_strlit("css"); assert("php"@[0] != "css"@[0]);
    reveal_strlit("scss"); assert("php"@.len() != "scss"@.len());
    reveal_strlit("diff"); assert("php"@.len() != "diff"@.len());
    reveal_strlit("ejs"); assert("php"@[0] != "ejs"@[0]);
    reveal_strlit("elixir"); assert("php"@.len() != "elixir"@.len());
    reveal_strlit("ex"); assert("php"@.len() != "ex"@.len());
    reveal_strlit("erb"); assert("php"@[0] != "erb"@[0]);
    reveal_strlit("go"); assert("php"@.len() != "go"@.len());
    reveal_strlit("graphql"); assert("php"@.len() != "graphql"@.len());
    reveal_strlit("haskell"); assert("php"@.len() != "haskell"@.len());
    reveal_strlit("hs"); assert("php"@.len() != "hs"@.len());
    reveal_strlit("lhs"); assert("php"@[0] != "lhs"@[0]);
    reveal_strlit("haskell_persistent"); assert("php"@.len() != "haskell_persistent"@.len());
    reveal_strlit("html"); assert("php"@.len() != "html"@.len());
    reveal_strlit("java"); assert("php"@.len() != "java"@.len());
    reveal_strlit("javascript"); assert("php"@.len() != "javascript"@.len());
    reveal_strlit("js"); assert("php"@.len() != "js"@.len());
    reveal_strlit("jsdoc"); assert("php"@.len() != "jsdoc"@.len());
    reveal_strlit("json"); assert("php"@.len() != "json"@.len());
    reveal_strlit("jsonc"); assert("php"@.len() != "jsonc"@.len());
    reveal_strlit("julia"); assert("php"@.len() != "julia"@.len());
    reveal_strlit("jl"); assert("php"@.len() != "jl"@.len());
    reveal_strlit("kt"); assert("php"@.len() != "kt"@.len());
    reveal_strlit("kts"); assert("php"@[0] != "kts"@[0]);
    reveal_strlit("ktm"); assert("php"@[0] != "ktm"@[0]);
    reveal_strlit("lua"); assert("php"@[0] != "lua"@[0]);
    reveal_strlit("make"); assert("php"@.len() != "make"@.len());
    reveal_strlit("makefile"); assert("php"@.len() != "makefile"@.len());
    reveal_strlit("markdown"); assert("php"@.len() != "markdown"@.len());
    reveal_strlit("md"); assert("php"@.len() != "md"@.len());
    reveal_strlit("mdx"); assert("php"@[0] != "mdx"@[0]);
    reveal_strlit("markdown_inline"); assert("php"@.len() != "markdown_inline"@.len());
    reveal_strlit("markdown-inline"); assert("php"@.len() != "markdown-inline"@.len());
    reveal_strlit("ocaml"); assert("php"@.len() != "ocaml"@.len());
    reveal_strlit("ml"); assert("php"@.len() != "ml"@.len());
    reveal_strlit("ocaml_interface"); assert("php"@.len() != "ocaml_interface"@.len());
    reveal_strlit("ocaml-interface"); assert("php"@.len() != "ocaml-interface"@.len());
    reveal_strlit("mli"); assert("php"@[0] != "mli"@[0]);
    reveal_strlit("ocaml_type"); assert("php"@.len() != "ocaml_type"@.len());
    reveal_strlit("ocaml-type"); assert("php"@.len() != "ocaml-type"@.len());
}

proof fn lemma_round_trip_proto()
    ensures
        language_from_name(language_name(Language::Proto)) == Language::Proto,
{
    reveal_strlit("proto");
    reveal_strlit("agda"); assert("proto"@.len() != "agda"@.len());
    reveal_strlit("astro"); assert("proto"@[0] != "astro"@[0]);
    reveal_strlit("bash"); assert("proto"@.len() != "bash"@.len());
    reveal_strlit("sh"); assert("proto"@.len() != "sh"@.len());
    reveal_strlit("c"); assert("proto"@.len() != "c"@.len());
    reveal_strlit("cmake"); assert("proto"@[0] != "cmake"@[0]);
    reveal_strlit("cpp"); assert("proto"@.len() != "cpp"@.len());
    reveal_strlit("c++"); assert("proto"@.len() != "c++"@.len());
    reveal_strlit("csharp"); assert("proto"@.len() != "csharp"@.len());
    reveal_strlit("cs"); assert("proto"@.len() != "cs"@.len());
    reveal_strlit("css"); assert("proto"@.len() != "css"@.len());
    reveal_strlit("scss"); assert("proto"@.len() != "scss"@.len());
    reveal_strlit("diff"); assert("proto"@.len() != "diff"@.len());
    reveal_strlit("ejs"); assert("proto"@.len() != "ejs"@.len());
    reveal_strlit("elixir"); assert("proto"@.len() != "elixir"@.len());
    reveal_strlit("ex"); assert("proto"@.len() != "ex"@.len());
    reveal_strlit("erb"); assert("proto"@.len() != "erb"@.len());
    reveal_strlit("go"); assert("proto"@.len() != "go"@.len());
    reveal_strlit("graphql"); assert("proto"@.len() != "graphql"@.len());
    reveal_strlit("haskell"); assert("proto"@.len() != "haskell"@.len());
    reveal_strlit("hs"); assert("proto"@.len() != "hs"@.len());
    reveal_strlit("lhs"); assert("proto"@.len() != "lhs"@.len());
    reveal_strlit("haskell_persistent"); assert("proto"@.len() != "haskell_persistent"@.len());
    reveal_strlit("html"); assert("proto"@.len() != "html"@.len());
    reveal_strlit("java"); assert("proto"@.len() != "java"@.len());
    reveal_strlit("javascript"); assert("proto"@.len() != "javascript"@.len());
    reveal_strlit("js"); assert("proto"@.len() != "js"@.len());
    reveal_strlit("jsdoc"); assert("proto"@[0] != "jsdoc"@[0]);
    reveal_strlit("json"); assert("proto"@.len() != "json"@.len());
    reveal_strlit("jsonc"); assert("proto"@[0] != "jsonc"@[0]);
    reveal_strlit("julia"); assert("proto"@[0] != "julia"@[0]);
    reveal_strlit("jl"); assert("proto"@.len() != "jl"@.len());
    reveal_strlit("kt"); assert("proto"@.len() != "kt"@.len());
    reveal_strlit("kts"); assert("proto"@.len() != "kts"@.len());
    reveal_strlit("ktm"); assert("proto"@.len() != "ktm"@.len());
    reveal_strlit("lua"); assert("proto"@.len() != "lua"@.len());
    reveal_strlit("make"); assert("proto"@.len() != "make"@.len());
    reveal_strlit("makefile"); assert("proto"@.len() != "makefile"@.len());
    reveal_strlit("markdown"); assert("proto"@.len() != "markdown"@.len());
    reveal_strlit("md"); assert("proto"@.len() != "md"@.len());
    reveal_strlit("mdx"); assert("proto"@.len() != "mdx"@.len());
    reveal_strlit("markdown_inline"); assert("proto"@.len() != "markdown_inline"@.len());
    reveal_strlit("markdown-inline"); assert("proto"@.len() != "markdown-inline"@.len());
    reveal_strlit("ocaml"); assert("proto"@[0] != "ocaml"@[0]);
    reveal_strlit("ml"); assert("proto"@.len() != "ml"@.len());
    reveal_strlit("ocaml_interface"); assert("proto"@.len() != "ocaml_interface"@.len());
    reveal_strlit("ocaml-interface"); assert("proto"@.len() != "ocaml-interface"@.len());
    reveal_strlit("mli"); assert("proto"@.len() != "mli"@.len());
    reveal_strlit("ocaml_type"); assert("proto"@.len() != "ocaml_type"@.len());
    reveal_strlit("ocaml-type"); assert("proto"@.len() != "ocaml-type"@.len());
    reveal_strlit("php"); assert("proto"@.len() != "php"@.len());
    reveal_strlit("php3"); assert("proto"@.len() != "php3"@.len());
    reveal_strlit("php4"); assert("proto"@.len() != "php4"@.len());
    reveal_strlit("php5"); assert("proto"@.len() != "php5"@.len());
    reveal_strlit("phtml"); assert("proto"@[1] != "phtml"@[1]);
}

proof fn lemma_round_trip_python()
    ensures
        language_from_name(language_name(Language::Python)) == Language::Python,
{
    reveal_strlit("python");
    reveal_strlit("agda"); assert("python"@.len() != "agda"@.len());
    reveal_strlit("astro"); assert("python"@.len() != "astro"@.len());
    reveal_strlit("bash"); assert("python"@.len() != "bash"@.len());
    reveal_strlit("sh"); assert("python"@.len() != "sh"@.len());
    reveal_strlit("c"); assert("python"@.len() != "c"@.len());
    reveal_strlit("cmake"); assert("python"@.len() != "cmake"@.len());
    reveal_strlit("cpp"); assert("python"@.len() != "cpp"@.len());
    reveal_strlit("c++"); assert("python"@.len() != "c++"@.len());
    reveal_strlit("csharp"); assert("python"@[0] != "csharp"@[0]);
    reveal_strlit("cs"); assert("python"@.len() != "cs"@.len());
    reveal_strlit("css"); assert("python"@.len() != "css"@.len());
    reveal_strlit("scss"); assert("python"@.len() != "scss"@.len());
    reveal_strlit("diff"); assert("python"@.len() != "diff"@.len());
    reveal_strlit("ejs"); assert("python"@.len() != "ejs"@.len());
    reveal_strlit("elixir"); assert("python"@[0] != "elixir"@[0]);
    reveal_strlit("ex"); assert("python"@.len() != "ex"@.len());
    reveal_strlit("erb"); assert("python"@.len() != "erb"@.len());
    reveal_strlit("go"); assert("python"@.len() != "go"@.len());
    reveal_strlit("graphql"); assert("python"@.len() != "graphql"@.len());
    reveal_strlit("haskell"); assert("python"@.len() != "haskell"@.len());
    reveal_strlit("hs"); assert("python"@.len() != "hs"@.len());
    reveal_strlit("lhs"); assert("python"@.len() != "lhs"@.len());
    reveal_strlit("haskell_persistent"); assert("python"@.len() != "haskell_persistent"@.len());
    reveal_strlit("html"); assert("python"@.len() != "html"@.len());
    reveal_strlit("java"); assert("python"@.len() != "java"@.len());
    reveal_strlit("javascript"); assert("python"@.len() != "javascript"@.len());
    reveal_strlit("js"); assert("python"@.len() != "js"@.len());
    reveal_strlit("jsdoc"); assert("python"@.len() != "jsdoc"@.len());
    reveal_strlit("json"); assert("python"@.len() != "json"@.len());
    reveal_strlit("jsonc"); assert("python"@.len() != "jsonc"@.len());
    reveal_strlit("julia"); assert("python"@.len() != "julia"@.len());
    reveal_strlit("jl"); assert("python"@.len() != "jl"@.len());
    reveal_strlit("kt"); assert("python"@.len() != "kt"@.len());
    reveal_strlit("kts"); assert("python"@.len() != "kts"@.len());
    reveal_strlit("ktm"); assert("python"@.len() != "ktm"@.len());
    reveal_strlit("lua"); assert("python"@.len() != "lua"@.len());
    reveal_strlit("make"); assert("python"@.len() != "make"@.len());
    reveal_strlit("makefile"); assert("python"@.len() != "makefile"@.len());
    reveal_strlit("markdown"); assert("python"@.len() != "markdown"@.len());
    reveal_strlit("md"); assert("python"@.len() != "md"@.len());
    reveal_strlit("mdx"); assert("python"@.len() != "mdx"@.len());
    reveal_strlit("markdown_inline"); assert("python"@.len() != "markdown_inline"@.len());
    reveal_strlit("markdown-inline"); assert("python"@.len() != "markdown-inline"@.len());
    reveal_strlit("ocaml"); assert("python"@.len() != "ocaml"@.len());
    reveal_strlit("ml"); assert("python"@.len() != "ml"@.len());
    reveal_strlit("ocaml_interface"); assert("python"@.len() != "ocaml_interface"@.len());
    reveal_strlit("ocaml-interface"); assert("python"@.len() != "ocaml-interface"@.len());
    reveal_strlit("mli"); assert("python"@.len() != "mli"@.len());
    reveal_strlit("ocaml_type"); assert("python"@.len() != "ocaml_type"@.len());
    reveal_strlit("ocaml-type"); assert("python"@.len() != "ocaml-type"@.len());
    reveal_strlit("php"); assert("python"@.len() != "php"@.len());
    reveal_strlit("php3"); assert("python"@.len() != "php3"@.len());
    reveal_strlit("php4"); assert("python"@.len() != "php4"@.len());
    reveal_strlit("php5"); assert("python"@.len() != "php5"@.len());
    reveal_strlit("phtml"); assert("python"@.len() != "phtml"@.len());
    reveal_strlit("proto"); assert("python"@.len() != "proto"@.len());
    reveal_strlit("protobuf"); assert("python"@.len() != "protobuf"@.len());
}

proof fn lemma_round_trip_ql()
    ensures
        language_from_name(language_name(Language::Ql)) == Language::Ql,
{
    reveal_strlit("ql");
    reveal_strlit("agda"); assert("ql"@.len() != "agda"@.len());
    reveal_strlit("astro"); assert("ql"@.len() != "astro"@.len());
    reveal_strlit("bash"); assert("ql"@.len() != "bash"@.len());
    reveal_strlit("sh"); assert("ql"@[0] != "sh"@[0]);
    reveal_strlit("c"); assert("ql"@.len() != "c"@.len());
    reveal_strlit("cmake"); assert("ql"@.len() != "cmake"@.len());
    reveal_strlit("cpp"); assert("ql"@.len() != "cpp"@.len());
    reveal_strlit("c++"); assert("ql"@.len() != "c++"@.len());
    reveal_strlit("csharp"); assert("ql"@.len() != "csharp"@.len());
    reveal_strlit("cs"); assert("ql"@[0] != "cs"@[0]);
    reveal_strlit("css"); assert("ql"@.len() != "css"@.len());
    reveal_strlit("scss"); assert("ql"@.len() != "scss"@.len());
    reveal_strlit("diff"); assert("ql"@.len() != "diff"@.len());
    reveal_strlit("ejs"); assert("ql"@.len() != "ejs"@.len());
    reveal_strlit("elixir"); assert("ql"@.len() != "elixir"@.len());
    reveal_strlit("ex"); assert("ql"@[0] != "ex"@[0]);
    reveal_strlit("erb"); assert("ql"@.len() != "erb"@.len());
    reveal_strlit("go"); assert("ql"@[0] != "go"@[0]);
    reveal_strlit("graphql"); assert("ql"@.len() != "graphql"@.len());
    reveal_strlit("haskell"); assert("ql"@.len() != "haskell"@.len());
    reveal_strlit("hs"); assert("ql"@[0] != "hs"@[0]);
    reveal_strlit("lhs"); assert("ql"@.len() != "lhs"@.len());
    reveal_strlit("haskell_persistent"); assert("ql"@.len() != "haskell_persistent"@.len());
    reveal_strlit("html"); assert("ql"@.len() != "html"@.len());
    reveal_strlit("java"); assert("ql"@.len() != "java"@.len());
    reveal_strlit("javascript"); assert("ql"@.len() != "javascript"@.len());
    reveal_strlit("js"); assert("ql"@[0] != "js"@[0]);
    reveal_strlit("jsdoc"); assert("ql"@.len() != "jsdoc"@.len());
    reveal_strlit("json"); assert("ql"@.len() != "json"@.len());
    reveal_strlit("jsonc"); assert("ql"@.len() != "jsonc"@.len());
    reveal_strlit("julia"); assert("ql"@.len() != "julia"@.len());
    reveal_strlit("jl"); assert("ql"@[0] != "jl"@[0]);
    reveal_strlit("kt"); assert("ql"@[0] != "kt"@[0]);
    reveal_strlit("kts"); assert("ql"@.len() != "kts"@.len());
    reveal_strlit("ktm"); assert("ql"@.len() != "ktm"@.len());
    reveal_strlit("lua"); assert("ql"@.len() != "lua"@.len());
    reveal_strlit("make"); assert("ql"@.len() != "make"@.len());
    reveal_strlit("makefile"); assert("ql"@.len() != "makefile"@.len());
    reveal_strlit("markdown"); assert("ql"@.len() != "markdown"@.len());
    reveal_strlit("md"); assert("ql"@[0] != "md"@[0]);
    reveal_strlit("mdx"); assert("ql"@.len() != "mdx"@.len());
    reveal_strlit("markdown_inline"); assert("ql"@.len() != "markdown_inline"@.len());
    reveal_strlit("markdown-inline"); assert("ql"@.len() != "markdown-inline"@.len());
    reveal_strlit("ocaml"); assert("ql"@.len() != "ocaml"@.len());
    reveal_strlit("ml"); assert("ql"@[0] != "ml"@[0]);
    reveal_strlit("ocaml_interface"); assert("ql"@.len() != "ocaml_interface"@.len());
    reveal_strlit("ocaml-interface"); assert("ql"@.len() != "ocaml-interface"@.len());
    reveal_strlit("mli"); assert("ql"@.len() != "mli"@.len());
    reveal_strlit("ocaml_type"); assert("ql"@.len() != "ocaml_type"@.len());
    reveal_strlit("ocaml-type"); assert("ql"@.len() != "ocaml-type"@.len());
    reveal_strlit("php"); assert("ql"@.len() != "php"@.len());
    reveal_strlit("php3"); assert("ql"@.len() != "php3"@.len());
    reveal_strlit("php4"); assert("ql"@.len() != "php4"@.len());
    reveal_strlit("php5"); assert("ql"@.len() != "php5"@.len());
    reveal_strlit("phtml"); assert("ql"@.len() != "phtml"@.len());
    reveal_strlit("proto"); assert("ql"@.len() != "proto"@.len());
    reveal_strlit("protobuf"); assert("ql"@.len() != "protobuf"@.len());
    reveal_strlit("python"); assert("ql"@.len() != "python"@.len());
    reveal_strlit("py"); assert("ql"@[0] != "py"@[0]);
}

proof fn lemma_round_trip_ql_dbscheme()
    ensures
        language_from_name(language_name(Language::QlDbscheme)) == Language::QlDbscheme,
{
    reveal_strlit("ql_dbscheme");
    reveal_strlit("agda"); assert("ql_dbscheme"@.len() != "agda"@.len());
    reveal_strlit("astro"); assert("ql_dbscheme"@.len() != "astro"@.len());
    reveal_strlit("bash"); assert("ql_dbscheme"@.len() != "bash"@.len());
    reveal_strlit("sh"); assert("ql_dbscheme"@.len() != "sh"@.len());
    reveal_strlit("c"); assert("ql_dbscheme"@.len() != "c"@.len());
    reveal_strlit("cmake"); assert("ql_dbscheme"@.len() != "cmake"@.len());
    reveal_strlit("cpp"); assert("ql_dbscheme"@.len() != "cpp"@.len());
    reveal_strlit("c++"); assert("ql_dbscheme"@.len() != "c++"@.len());
    reveal_strlit("csharp"); assert("ql_dbscheme"@.len() != "csharp"@.len());
    reveal_strlit("cs"); assert("ql_dbscheme"@.len() != "cs"@.len());
    reveal_strlit("css"); assert("ql_dbscheme"@.len() != "css"@.len());
    reveal_strlit("scss"); assert("ql_dbscheme"@.len() != "scss"@.len());
    reveal_strlit("diff"); assert("ql_dbscheme"@.len() != "diff"@.len());
    reveal_strlit("ejs"); assert("ql_dbscheme"@.len() != "ejs"@.len());
    reveal_strlit("elixir"); assert("ql_dbscheme"@.len() != "elixir"@.len());
    reveal_strlit("ex"); assert("ql_dbscheme"@.len() != "ex"@.len());
    reveal_strlit("erb"); assert("ql_dbscheme"@.len() != "erb"@.len());
    reveal_strlit("go"); assert("ql_dbscheme"@.len() != "go"@.len());
    reveal_strlit("graphql"); assert("ql_dbscheme"@.len() != "graphql"@.len());
    reveal_strlit("haskell"); assert("ql_dbscheme"@.len() != "haskell"@.len());
    reveal_strlit("hs"); assert("ql_dbscheme"@.len() != "hs"@.len());
    reveal_strlit("lhs"); assert("ql_dbscheme"@.len() != "lhs"@.len());
    reveal_strlit("haskell_persistent"); assert("ql_dbscheme"@.len() != "haskell_persistent"@.len());
    reveal_strlit("html"); assert("ql_dbscheme"@.len() != "html"@.len());
    reveal_strlit("java"); assert("ql_dbscheme"@.len() != "java"@.len());
    reveal_strlit("javascript"); assert("ql_dbscheme"@.len() != "javascript"@.len());
    reveal_strlit("js"); assert("ql_dbscheme"@.len() != "js"@.len());
    reveal_strlit("jsdoc"); assert("ql_dbscheme"@.len() != "jsdoc"@.len());
    reveal_strlit("json"); assert("ql_dbscheme"@.len() != "json"@.len());
    reveal_strlit("jsonc"); assert("ql_dbscheme"@.len() != "jsonc"@.len());
    reveal_strlit("julia"); assert("ql_dbscheme"@.len() != "julia"@.len());
    reveal_strlit("jl"); assert("ql_dbscheme"@.len() != "jl"@.len());
    reveal_strlit("kt"); assert("ql_dbscheme"@.len() != "kt"@.len());
    reveal_strlit("kts"); assert("ql_dbscheme"@.len() != "kts"@.len());
    reveal_strlit("ktm"); assert("ql_dbscheme"@.len() != "ktm"@.len());
    reveal_strlit("lua"); assert("ql_dbscheme"@.len() != "lua"@.len());
    reveal_strlit("make"); assert("ql_dbscheme"@.len() != "make"@.len());
    reveal_strlit("makefile"); assert("ql_dbscheme"@.len() != "makefile"@.len());
    reveal_strlit("markdown"); assert("ql_dbscheme"@.len() != "markdown"@.len());
    reveal_strlit("md"); assert("ql_dbscheme"@.len() != "md"@.len());
    reveal_strlit("mdx"); assert("ql_dbscheme"@.len() != "mdx"@.len());
    reveal_strlit("markdown_inline"); assert("ql_dbscheme"@.len() != "markdown_inline"@.len());
    reveal_strlit("markdown-inline"); assert("ql_dbscheme"@.len() != "markdown-inline"@.len());
    reveal_strlit("ocaml"); assert("ql_dbscheme"@.len() != "ocaml"@.len());
    reveal_strlit("ml"); assert("ql_dbscheme"@.len() != "ml"@.len());
    reveal_strlit("ocaml_interface"); assert("ql_dbscheme"@.len() != "ocaml_interface"@.len());
    reveal_strlit("ocaml-interface"); assert("ql_dbscheme"@.len() != "ocaml-interface"@.len());
    reveal_strlit("mli"); assert("ql_dbscheme"@.len() != "mli"@.len());
    reveal_strlit("ocaml_type"); assert("ql_dbscheme"@.len() != "ocaml_type"@.len());
    reveal_strlit("ocaml-type"); assert("ql_dbscheme"@.len() != "ocaml-type"@.len());
    reveal_strlit("php"); assert("ql_dbscheme"@.len() != "php"@.len());
    reveal_strlit("php3"); assert("ql_dbscheme"@.len() != "php3"@.len());
    reveal_strlit("php4"); assert("ql_dbscheme"@.len() != "php4"@.len());
    reveal_strlit("php5"); assert("ql_dbscheme"@.len() != "php5"@.len());
    reveal_strlit("phtml"); assert("ql_dbscheme"@.len() != "phtml"@.len());
    reveal_strlit("proto"); assert("ql_dbscheme"@.len() != "proto"@.len());
    reveal_strlit("protobuf"); assert("ql_dbscheme"@.len() != "protobuf"@.len());
    reveal_strlit("python"); assert("ql_dbscheme"@.len() != "python"@.len());
    reveal_strlit("py"); assert("ql_dbscheme"@.len() != "py"@.len());
    reveal_strlit("ql"); assert("ql_dbscheme"@.len() != "ql"@.len());
}

proof fn lemma_round_trip_razor()
    ensures
        language_from_name(language_name(Language::Razor)) == Language::Razor,
{
    reveal_strlit("razor");
    reveal_strlit("agda"); assert("razor"@.len() != "agda"@.len());
    reveal_strlit("astro"); assert("razor"@[0] != "astro"@[0]);
    reveal_strlit("bash"); assert("razor"@.len() != "bash"@.len());
    reveal_strlit("sh"); assert("razor"@.len() != "sh"@.len());
    reveal_strlit("c"); assert("razor"@.len() != "c"@.len());
    reveal_strlit("cmake"); assert("razor"@[0] != "cmake"@[0]);
    reveal_strlit("cpp"); assert("razor"@.len() != "cpp"@.len());
    reveal_strlit("c++"); assert("razor"@.len() != "c++"@.len());
    reveal_strlit("csharp"); assert("razor"@.len() != "csharp"@.len());
    reveal_strlit("cs"); assert("razor"@.len() != "cs"@.len());
    reveal_strlit("css"); assert("razor"@.len() != "css"@.len());
    reveal_strlit("scss"); assert("razor"@.len() != "scss"@.len());
    reveal_strlit("diff"); assert("razor"@.len() != "diff"@.len());
    reveal_strlit("ejs"); assert("razor"@.len() != "ejs"@.len());
    reveal_strlit("elixir"); assert("razor"@.len() != "elixir"@.len());
    reveal_strlit("ex"); assert("razor"@.len() != "ex"@.len());
    reveal_strlit("erb"); assert("razor"@.len() != "erb"@.len());
    reveal_strlit("go"); assert("razor"@.len() != "go"@.len());
    reveal_strlit("graphql"); assert("razor"@.len() != "graphql"@.len());
    reveal_strlit("haskell"); assert("razor"@.len() != "haskell"@.len());
    reveal_strlit("hs"); assert("razor"@.len() != "hs"@.len());
    reveal_strlit("lhs"); assert("razor"@.len() != "lhs"@.len());
    reveal_strlit("haskell_persistent"); assert("razor"@.len() != "haskell_persistent"@.len());
    reveal_strlit("html"); assert("razor"@.len() != "html"@.len());
    reveal_strlit("java"); assert("razor"@.len() != "java"@.len());
    reveal_strlit("javascript"); assert("razor"@.len() != "javascript"@.len());
    reveal_strlit("js"); assert("razor"@.len() != "js"@.len());
    reveal_strlit("jsdoc"); assert("razor"@[0] != "jsdoc"@[0]);
    reveal_strlit("json"); assert("razor"@.len() != "json"@.len());
    reveal_strlit("jsonc"); assert("razor"@[0] != "jsonc"@[0]);
    reveal_strlit("julia"); assert("razor"@[0] != "julia"@[0]);
    reveal_strlit("jl"); assert("razor"@.len() != "jl"@.len());
    reveal_strlit("kt"); assert("razor"@.len() != "kt"@.len());
    reveal_strlit("kts"); assert("razor"@.len() != "kts"@.len());
    reveal_strlit("ktm"); assert("razor"@.len() != "ktm"@.len());
    reveal_strlit("lua"); assert("razor"@.len() != "lua"@.len());
    reveal_strlit("make"); assert("razor"@.len() != "make"@.len());
    reveal_strlit("makefile"); assert("razor"@.len() != "makefile"@.len());
    reveal_strlit("markdown"); assert("razor"@.len() != "markdown"@.len());
    reveal_strlit("md"); assert("razor"@.len() != "md"@.len());
    reveal_strlit("mdx"); assert("razor"@.len() != "mdx"@.len());
    reveal_strlit("markdown_inline"); assert("razor"@.len() != "markdown_inline"@.len());
    reveal_strlit("markdown-inline"); assert("razor"@.len() != "markdown-inline"@.len());
    reveal_strlit("ocaml"); assert("razor"@[0] != "ocaml"@[0]);
    reveal_strlit("ml"); assert("razor"@.len() != "ml"@.len());
    reveal_strlit("ocaml_interface"); assert("razor"@.len() != "ocaml_interface"@.len());
    reveal_strlit("ocaml-interface"); assert("razor"@.len() != "ocaml-interface"@.len());
    reveal_strlit("mli"); assert("razor"@.len() != "mli"@.len());
    reveal_strlit("ocaml_type"); assert("razor"@.len() != "ocaml_type"@.len());
    reveal_strlit("ocaml-type"); assert("razor"@.len() != "ocaml-type"@.len());
    reveal_strlit("php"); assert("razor"@.len() != "php"@.len());
    reveal_strlit("php3"); assert("razor"@.len() != "php3"@.len());
    reveal_strlit("php4"); assert("razor"@.len() != "php4"@.len());
    reveal_strlit("php5"); assert("razor"@.len() != "php5"@.len());
    reveal_strlit("phtml"); assert("razor"@[0] != "phtml"@[0]);
    reveal_strlit("proto"); assert("razor"@[0] != "proto"@[0]);
    reveal_strlit("protobuf"); assert("razor"@.len() != "protobuf"@.len());
    reveal_strlit("python"); assert("razor"@.len() != "python"@.len());
    reveal_strlit("py"); assert("razor"@.len() != "py"@.len());
    reveal_strlit("ql"); assert("razor"@.len() != "ql"@.len());
    reveal_strlit("ql_dbscheme"); assert("razor"@.len() != "ql_dbscheme"@.len());
    reveal_strlit("ql-dbscheme"); assert("razor"@.len() != "ql-dbscheme"@.len());
    reveal_strlit("dbscheme"); assert("razor"@.len() != "dbscheme"@.len());
}

proof fn lemma_round_trip_regex()
    ensures
        language_from_name(language_name(Language::Regex)) == Language::Regex,
{
    reveal_strlit("regex");
    reveal_strlit("agda"); assert("regex"@.len() != "agda"@.len());
    reveal_strlit("astro"); assert("regex"@[0] != "astro"@[0]);
    reveal_strlit("bash"); assert("regex"@.len() != "bash"@.len());
    reveal_strlit("sh"); assert("regex"@.len() != "sh"@.len());
    reveal_strlit("c"); assert("regex"@.len() != "c"@.len());
    reveal_strlit("cmake"); assert("regex"@[0] != "cmake"@[0]);
    reveal_strlit("cpp"); assert("regex"@.len() != "cpp"@.len());
    reveal_strlit("c++"); assert("regex"@.len() != "c++"@.len());
    reveal_strlit("csharp"); assert("regex"@.len() != "csharp"@.len());
    reveal_strlit("cs"); assert("regex"@.len() != "cs"@.len());
    reveal_strlit("css"); assert("regex"@.len() != "css"@.len());
    reveal_strlit("scss"); assert("regex"@.len() != "scss"@.len());
    reveal_strlit("diff"); assert("regex"@.len() != "diff"@.len());
    reveal_strlit("ejs"); assert("regex"@.len() != "ejs"@.len());
    reveal_strlit("elixir"); assert("regex"@.len() != "elixir"@.len());
    reveal_strlit("ex"); assert("regex"@.len() != "ex"@.len());
    reveal_strlit("erb"); assert("regex"@.len() != "erb"@.len());
    reveal_strlit("go"); assert("regex"@.len() != "go"@.len());
    reveal_strlit("graphql"); assert("regex"@.len() != "graphql"@.len());
    reveal_strlit("haskell"); assert("regex"@.len() != "haskell"@.len());
    reveal_strlit("hs"); assert("regex"@.len() != "hs"@.len());
    reveal_strlit("lhs"); assert("regex"@.len() != "lhs"@.len());
    reveal_strlit("haskell_persistent"); assert("regex"@.len() != "haskell_persistent"@.len());
    reveal_strlit("html"); assert("regex"@.len() != "html"@.len());
    reveal_strlit("java"); assert("regex"@.len() != "java"@.len());
    reveal_strlit("javascript"); assert("regex"@.len() != "javascript"@.len());
    reveal_strlit("js"); assert("regex"@.len() != "js"@.len());
    reveal_strlit("jsdoc"); assert("regex"@[0] != "jsdoc"@[0]);
    reveal_strlit("json"); assert("regex"@.len() != "json"@.len());
    reveal_strlit("jsonc"); assert("regex"@[0] != "jsonc"@[0]);
    reveal_strlit("julia"); assert("regex"@[0] != "julia"@[0]);
    reveal_strlit("jl"); assert("regex"@.len() != "jl"@.len());
    reveal_strlit("kt"); assert("regex"@.len() != "kt"@.len());
    reveal_strlit("kts"); assert("regex"@.len() != "kts"@.len());
    reveal_strlit("ktm"); assert("regex"@.len() != "ktm"@.len());
    reveal_strlit("lua"); assert("regex"@.len() != "lua"@.len());
    reveal_strlit("make"); assert("regex"@.len() != "make"@.len());
    reveal_strlit("makefile"); assert("regex"@.len() != "makefile"@.len());
    reveal_strlit("markdown"); assert("regex"@.len() != "markdown"@.len());
    reveal_strlit("md"); assert("regex"@.len() != "md"@.len());
    reveal_strlit("mdx"); assert("regex"@.len() != "mdx"@.len());
    reveal_strlit("markdown_inline"); assert("regex"@.len() != "markdown_inline"@.len());
    reveal_strlit("markdown-inline"); assert("regex"@.len() != "markdown-inline"@.len());
    reveal_strlit("ocaml"); assert("regex"@[0] != "ocaml"@[0]);
    reveal_strlit("ml"); assert("regex"@.len() != "ml"@.len());
    reveal_strlit("ocaml_interface"); assert("regex"@.len() != "ocaml_interface"@.len());
    reveal_strlit("ocaml-interface"); assert("regex"@.len() != "ocaml-interface"@.len());
    reveal_strlit("mli"); assert("regex"@.len() != "mli"@.len());
    reveal_strlit("ocaml_type"); assert("regex"@.len() != "ocaml_type"@.len());
    reveal_strlit("ocaml-type"); assert("regex"@.len() != "ocaml-type"@.len());
    reveal_strlit("php"); assert("regex"@.len() != "php"@.len());
    reveal_strlit("php3"); assert("regex"@.len() != "php3"@.len());
    reveal_strlit("php4"); assert("regex"@.len() != "php4"@.len());
    reveal_strlit("php5"); assert("regex"@.len() != "php5"@.len());
    reveal_strlit("phtml"); assert("regex"@[0] != "phtml"@[0]);
    reveal_strlit("proto"); assert("regex"@[0] != "proto"@[0]);
    reveal_strlit("protobuf"); assert("regex"@.len() != "protobuf"@.len());
    reveal_strlit("python"); assert("regex"@.len() != "python"@.len());
    reveal_strlit("py"); assert("regex"@.len() != "py"@.len());
    reveal_strlit("ql"); assert("regex"@.len() != "ql"@.len());
    reveal_strlit("ql_dbscheme"); assert("regex"@.len() != "ql_dbscheme"@.len());
    reveal_strlit("ql-dbscheme"); assert("regex"@.len() != "ql-dbscheme"@.len());
    reveal_strlit("dbscheme"); assert("regex"@.len() != "dbscheme"@.len());
    reveal_strlit("razor"); assert("regex"@[1] != "razor"@[1]);
    reveal_strlit("cshtml"); assert("regex"@.len() != "cshtml"@.len());
}

proof fn lemma_round_trip_ruby()
    ensures
        language_from_name(language_name(Language::Ruby)) == Language::Ruby,
{
    reveal_strlit("ruby");
    reveal_strlit("agda"); assert("ruby"@[0] != "agda"@[0]);
    reveal_strlit("astro"); assert("ruby"@.len() != "astro"@.len());
    reveal_strlit("bash"); assert("ruby"@[0] != "bash"@[0]);
    reveal_strlit("sh"); assert("ruby"@.len() != "sh"@.len());
    reveal_strlit("c"); assert("ruby"@.len() != "c"@.len());
    reveal_strlit("cmake"); assert("ruby"@.len() != "cmake"@.len());
    reveal_strlit("cpp"); assert("ruby"@.len() != "cpp"@.len());
    reveal_strlit("c++"); assert("ruby"@.len() != "c++"@.len());
    reveal_strlit("csharp"); assert("ruby"@.len() != "csharp"@.len());
    reveal_strlit("cs"); assert("ruby"@.len() != "cs"@.len());
    reveal_strlit("css"); assert("ruby"@.len() != "css"@.len());
    reveal_strlit("scss"); assert("ruby"@[0] != "scss"@[0]);
    reveal_strlit("diff"); assert("ruby"@[0] != "diff"@[0]);
    reveal_strlit("ejs"); assert("ruby"@.len() != "ejs"@.len());
    reveal_strlit("elixir"); assert("ruby"@.len() != "elixir"@.len());
    reveal_strlit("ex"); assert("ruby"@.len() != "ex"@.len());
    reveal_strlit("erb"); assert("ruby"@.len() != "erb"@.len());
    reveal_strlit("go"); assert("ruby"@.len() != "go"@.len());
    reveal_strlit("graphql"); assert("ruby"@.len() != "graphql"@.len());
    reveal_strlit("haskell"); assert("ruby"@.len() != "haskell"@.len());
    reveal_strlit("hs"); assert("ruby"@.len() != "hs"@.len());
    reveal_strlit("lhs"); assert("ruby"@.len() != "lhs"@.len());
    reveal_strlit("haskell_persistent"); assert("ruby"@.len() != "haskell_persistent"@.len());
    reveal_strlit("html"); assert("ruby"@[0] != "html"@[0]);
    reveal_strlit("java"); assert("ruby"@[0] != "java"@[0]);
    reveal_strlit("javascript"); assert("ruby"@.len() != "javascript"@.len());
    reveal_strlit("js"); assert("ruby"@.len() != "js"@.len());
    reveal_strlit("jsdoc"); assert("ruby"@.len() != "jsdoc"@.len());
    reveal_strlit("json"); assert("ruby"@[0] != "json"@[0]);
    reveal_strlit("jsonc"); assert("ruby"@.len() != "jsonc"@.len());
    reveal_strlit("julia"); assert("ruby"@.len() != "julia"@.len());
    reveal_strlit("jl"); assert("ruby"@.len() != "jl"@.len());
    reveal_strlit("kt"); assert("ruby"@.len() != "kt"@.len());
    reveal_strlit("kts"); assert("ruby"@.len() != "kts"@.len());
    reveal_strlit("ktm"); assert("ruby"@.len() != "ktm"@.len());
    reveal_strlit("lua"); assert("ruby"@.len() != "lua"@.len());
    reveal_strlit("make"); assert("ruby"@[0] != "make"@[0]);
    reveal_strlit("makefile"); assert("ruby"@.len() != "makefile"@.len());
    reveal_strlit("markdown"); assert("ruby"@.len() != "markdown"@.len());
    reveal_strlit("md"); assert("ruby"@.len() != "md"@.len());
    reveal_strlit("mdx"); assert("ruby"@.len() != "mdx"@.len());
    reveal_strlit("markdown_inline"); assert("ruby"@.len() != "markdown_inline"@.len());
    reveal_strlit("markdown-inline"); assert("ruby"@.len() != "markdown-inline"@.len());
    reveal_strlit("ocaml"); assert("ruby"@.len() != "ocaml"@.len());
    reveal_strlit("ml"); assert("ruby"@.len() != "ml"@.len());
    reveal_strlit("ocaml_interface"); assert("ruby"@.len() != "ocaml_interface"@.len());
    reveal_strlit("ocaml-interface"); assert("ruby"@.len() != "ocaml-interface"@.len());
    reveal_strlit("mli"); assert("ruby"@.len() != "mli"@.len());
    reveal_strlit("ocaml_type"); assert("ruby"@.len() != "ocaml_type"@.len());
    reveal_strlit("ocaml-type"); assert("ruby"@.len() != "ocaml-type"@.len());
    reveal_strlit("php"); assert("ruby"@.len() != "php"@.len());
    reveal_strlit("php3"); assert("ruby"@[0] != "php3"@[0]);
    reveal_strlit("php4"); assert("ruby"@[0] != "php4"@[0]);
    reveal_strlit("php5"); assert("ruby"@[0] != "php5"@[0]);
    reveal_strlit("phtml"); assert("ruby"@.len() != "phtml"@.len());
    reveal_strlit("proto"); assert("ruby"@.len() != "proto"@.len());
    reveal_strlit("protobuf"); assert("ruby"@.len() != "protobuf"@.len());
    reveal_strlit("python"); assert("ruby"@.len() != "python"@.len());
    reveal_strlit("py"); assert("ruby"@.len() != "py"@.len());
    reveal_strlit("ql"); assert("ruby"@.len() != "ql"@.len());
    reveal_strlit("ql_dbscheme"); assert("ruby"@.len() != "ql_dbscheme"@.len());
    reveal_strlit("ql-dbscheme"); assert("ruby"@.len() != "ql-dbscheme"@.len());
    reveal_strlit("dbscheme"); assert("ruby"@.len() != "dbscheme"@.len());
    reveal_strlit("razor"); assert("ruby"@.len() != "razor"@.len());
    reveal_strlit("cshtml"); assert("ruby"@.len() != "cshtml"@.len());
    reveal_strlit("regex"); assert("ruby"@.len() != "regex"@.len());
    reveal_strlit("regexp"); assert("ruby"@.len() != "regexp"@.len());
}

proof fn lemma_round_trip_rust()
    ensures
        language_from_name(language_name(Language::Rust)) == Language::Rust,
{
    reveal_strlit("rust");
    reveal_strlit("agda"); assert("rust"@[0] != "agda"@[0]);
    reveal_strlit("astro"); assert("rust"@.len() != "astro"@.len());
    reveal_strlit("bash"); assert("rust"@[0] != "bash"@[0]);
    reveal_strlit("sh"); assert("rust"@.len() != "sh"@.len());
    reveal_strlit("c"); assert("rust"@.len() != "c"@.len());
    reveal_strlit("cmake"); assert("rust"@.len() != "cmake"@.len());
    reveal_strlit("cpp"); assert("rust"@.len() != "cpp"@.len());
    reveal_strlit("c++"); assert("rust"@.len() != "c++"@.len());
    reveal_strlit("csharp"); assert("rust"@.len() != "csharp"@.len());
    reveal_strlit("cs"); assert("rust"@.len() != "cs"@.len());
    reveal_strlit("css"); assert("rust"@.len() != "css"@.len());
    reveal_strlit("scss"); assert("rust"@[0] != "scss"@[0]);
    reveal_strlit("diff"); assert("rust"@[0] != "diff"@[0]);
    reveal_strlit("ejs"); assert("rust"@.len() != "ejs"@.len());
    reveal_strlit("elixir"); assert("rust"@.len() != "elixir"@.len());
    reveal_strlit("ex"); assert("rust"@.len() != "ex"@.len());
    reveal_strlit("erb"); assert("rust"@.len() != "erb"@.len());
    reveal_strlit("go"); assert("rust"@.len() != "go"@.len());
    reveal_strlit("graphql"); assert("rust"@.len() != "graphql"@.len());
    reveal_strlit("haskell"); assert("rust"@.len() != "haskell"@.len());
    reveal_strlit("hs"); assert("rust"@.len() != "hs"@.len());
    reveal_strlit("lhs"); assert("rust"@.len() != "lhs"@.len());
    reveal_strlit("haskell_persistent"); assert("rust"@.len() != "haskell_persistent"@.len());
    reveal_strlit("html"); assert("rust"@[0] != "html"@[0]);
    reveal_strlit("java"); assert("rust"@[0] != "java"@[0]);
    reveal_strlit("javascript"); assert("rust"@.len() != "javascript"@.len());
    reveal_strlit("js"); assert("rust"@.len() != "js"@.len());
    reveal_strlit("jsdoc"); assert("rust"@.len() != "jsdoc"@.len());
    reveal_strlit("json"); assert("rust"@[0] != "json"@[0]);
    reveal_strlit("jsonc"); assert("rust"@.len() != "jsonc"@.len());
    reveal_strlit("julia"); assert("rust"@.len() != "julia"@.len());
    reveal_strlit("jl"); assert("rust"@.len() != "jl"@.len());
    reveal_strlit("kt"); assert("rust"@.len() != "kt"@.len());
    reveal_strlit("kts"); assert("rust"@.len() != "kts"@.len());
    reveal_strlit("ktm"); assert("rust"@.len() != "ktm"@.len());
    reveal_strlit("lua"); assert("rust"@.len() != "lua"@.len());
    reveal_strlit("make"); assert("rust"@[0] != "make"@[0]);
    reveal_strlit("makefile"); assert("rust"@.len() != "makefile"@.len());
    reveal_strlit("markdown"); assert("rust"@.len() != "markdown"@.len());
    reveal_strlit("md"); assert("rust"@.len() != "md"@.len());
    reveal_strlit("mdx"); assert("rust"@.len() != "mdx"@.len());
    reveal_strlit("markdown_inline"); assert("rust"@.len() != "markdown_inline"@.len());
    reveal_strlit("markdown-inline"); assert("rust"@.len() != "markdown-inline"@.len());
    reveal_strlit("ocaml"); assert("rust"@.len() != "ocaml"@.len());
    reveal_strlit("ml"); assert("rust"@.len() != "ml"@.len());
    reveal_strlit("ocaml_interface"); assert("rust"@.len() != "ocaml_interface"@.len());
    reveal_strlit("ocaml-interface"); assert("rust"@.len() != "ocaml-interface"@.len());
    reveal_strlit("mli"); assert("rust"@.len() != "mli"@.len());
    reveal_strlit("ocaml_type"); assert("rust"@.len() != "ocaml_type"@.len());
    reveal_strlit("ocaml-type"); assert("rust"@.len() != "ocaml-type"@.len());
    reveal_strlit("php"); assert("rust"@.len() != "php"@.len());
    reveal_strlit("php3"); assert("rust"@[0] != "php3"@[0]);
    reveal_strlit("php4"); assert("rust"@[0] != "php4"@[0]);
    reveal_strlit("php5"); assert("rust"@[0] != "php5"@[0]);
    reveal_strlit("phtml"); assert("rust"@.len() != "phtml"@.len());
    reveal_strlit("proto"); assert("rust"@.len() != "proto"@.len());
    reveal_strlit("protobuf"); assert("rust"@.len() != "protobuf"@.len());
    reveal_strlit("python"); assert("rust"@.len() != "python"@.len());
    reveal_strlit("py"); assert("rust"@.len() != "py"@.len());
    reveal_strlit("ql"); assert("rust"@.len() != "ql"@.len());
    reveal_strlit("ql_dbscheme"); assert("rust"@.len() != "ql_dbscheme"@.len());
    reveal_strlit("ql-dbscheme"); assert("rust"@.len() != "ql-dbscheme"@.len());
    reveal_strlit("dbscheme"); assert("rust"@.len() != "dbscheme"@.len());
    reveal_strlit("razor"); assert("rust"@.len() != "razor"@.len());
    reveal_strlit("cshtml"); assert("rust"@.len() != "cshtml"@.len());
    reveal_strlit("regex"); assert("rust"@.len() != "regex"@.len());
    reveal_strlit("regexp"); assert("rust"@.len() != "regexp"@.len());
    reveal_strlit("ruby"); assert("rust"@[2] != "ruby"@[2]);
    reveal_strlit("rb"); assert("rust"@.len() != "rb"@.len());
}

proof fn lemma_round_trip_scala()
    ensures
        language_from_name(language_name(Language::Scala)) == Language::Scala,
{
    reveal_strlit("scala");
    reveal_strlit("agda"); assert("scala"@.len() != "agda"@.len());
    reveal_strlit("astro"); assert("scala"@[0] != "astro"@[0]);
    reveal_strlit("bash"); assert("scala"@.len() != "bash"@.len());
    reveal_strlit("sh"); assert("scala"@.len() != "sh"@.len());
    reveal_strlit("c"); assert("scala"@.len() != "c"@.len());
    reveal_strlit("cmake"); assert("scala"@[0] != "cmake"@[0]);
    reveal_strlit("cpp"); assert("scala"@.len() != "cpp"@.len());
    reveal_strlit("c++"); assert("scala"@.len() != "c++"@.len());
    reveal_strlit("csharp"); assert("scala"@.len() != "csharp"@.len());
    reveal_strlit("cs"); assert("scala"@.len() != "cs"@.len());
    reveal_strlit("css"); assert("scala"@.len() != "css"@.len());
    reveal_strlit("scss"); assert("scala"@.len() != "scss"@.len());
    reveal_strlit("diff"); assert("scala"@.len() != "diff"@.len());
    reveal_strlit("ejs"); assert("scala"@.len() != "ejs"@.len());
    reveal_strlit("elixir"); assert("scala"@.len() != "elixir"@.len());
    reveal_strlit("ex"); assert("scala"@.len() != "ex"@.len());
    reveal_strlit("erb"); assert("scala"@.len() != "erb"@.len());
    reveal_strlit("go"); assert("scala"@.len() != "go"@.len());
    reveal_strlit("graphql"); assert("scala"@.len() != "graphql"@.len());
    reveal_strlit("haskell"); assert("scala"@.len() != "haskell"@.len());
    reveal_strlit("hs"); assert("scala"@.len() != "hs"@.len());
    reveal_strlit("lhs"); assert("scala"@.len() != "lhs"@.len());
    reveal_strlit("haskell_persistent"); assert("scala"@.len() != "haskell_persistent"@.len());
    reveal_strlit("html"); assert("scala"@.len() != "html"@.len());
    reveal_strlit("java"); assert("scala"@.len() != "java"@.len());
    reveal_strlit("javascript"); assert("scala"@.len() != "javascript"@.len());
    reveal_strlit("js"); assert("scala"@.len() != "js"@.len());
    reveal_strlit("jsdoc"); assert("scala"@[0] != "jsdoc"@[0]);
    reveal_strlit("json"); assert("scala"@.len() != "json"@.len());
    reveal_strlit("jsonc"); assert("scala"@[0] != "jsonc"@[0]);
    reveal_strlit("julia"); assert("scala"@[0] != "julia"@[0]);
    reveal_strlit("jl"); assert("scala"@.len() != "jl"@.len());
    reveal_strlit("kt"); assert("scala"@.len() != "kt"@.len());
    reveal_strlit("kts"); assert("scala"@.len() != "kts"@.len());
    reveal_strlit("ktm"); assert("scala"@.len() != "ktm"@.len());
    reveal_strlit("lua"); assert("scala"@.len() != "lua"@.len());
    reveal_strlit("make"); assert("scala"@.len() != "make"@.len());
    reveal_strlit("makefile"); assert("scala"@.len() != "makefile"@.len());
    reveal_strlit("markdown"); assert("scala"@.len() != "markdown"@.len());
    reveal_strlit("md"); assert("scala"@.len() != "md"@.len());
    reveal_strlit("mdx"); assert("scala"@.len() != "mdx"@.len());
    reveal_strlit("markdown_inline"); assert("scala"@.len() != "markdown_inline"@.len());
    reveal_strlit("markdown-inline"); assert("scala"@.len() != "markdown-inline"@.len());
    reveal_strlit("ocaml"); assert("scala"@[0] != "ocaml"@[0]);
    reveal_strlit("ml"); assert("scala"@.len() != "ml"@.len());
    reveal_strlit("ocaml_interface"); assert("scala"@.len() != "ocaml_interface"@.len());
    reveal_strlit("ocaml-interface"); assert("scala"@.len() != "ocaml-interface"@.len());
    reveal_strlit("mli"); assert("scala"@.len() != "mli"@.len());
    reveal_strlit("ocaml_type"); assert("scala"@.len() != "ocaml_type"@.len());
    reveal_strlit("ocaml-type"); assert("scala"@.len() != "ocaml-type"@.len());
    reveal_strlit("php"); assert("scala"@.len() != "php"@.len());
    reveal_strlit("php3"); assert("scala"@.len() != "php3"@.len());
    reveal_strlit("php4"); assert("scala"@.len() != "php4"@.len());
    reveal_strlit("php5"); assert("scala"@.len() != "php5"@.len());
    reveal_strlit("phtml"); assert("scala"@[0] != "phtml"@[0]);
    reveal_strlit("proto"); assert("scala"@[0] != "proto"@[0]);
    reveal_strlit("protobuf"); assert("scala"@.len() != "protobuf"@.len());
    reveal_strlit("python"); assert("scala"@.len() != "python"@.len());
    reveal_strlit("py"); assert("scala"@.len() != "py"@.len());
    reveal_strlit("ql"); assert("scala"@.len() != "ql"@.len());
    reveal_strlit("ql_dbscheme"); assert("scala"@.len() != "ql_dbscheme"@.len());
    reveal_strlit("ql-dbscheme"); assert("scala"@.len() != "ql-dbscheme"@.len());
    reveal_strlit("dbscheme"); assert("scala"@.len() != "dbscheme"@.len());
    reveal_strlit("razor"); assert("scala"@[0] != "razor"@[0]);
    reveal_strlit("cshtml"); assert("scala"@.len() != "cshtml"@.len());
    reveal_strlit("regex"); assert("scala"@[0] != "regex"@[0]);
    reveal_strlit("regexp"); assert("scala"@.len() != "regexp"@.len());
    reveal_strlit("ruby"); assert("scala"@.len() != "ruby"@.len());
    reveal_strlit("rb"); assert("scala"@.len() != "rb"@.len());
    reveal_strlit("rust"); assert("scala"@.len() != "rust"@.len());
    reveal_strlit("rs"); assert("scala"@.len() != "rs"@.len());
}

proof fn lemma_round_trip_sql()
    ensures
        language_from_name(language_name(Language::Sql)) == Language::Sql,
{
    reveal_strlit("sql");
    reveal_strlit("agda"); assert("sql"@.len() != "agda"@.len());
    reveal_strlit("astro"); assert("sql"@.len() != "astro"@.len());
    reveal_strlit("bash"); assert("sql"@.len() != "bash"@.len());
    reveal_strlit("sh"); assert("sql"@.len() != "sh"@.len());
    reveal_strlit("c"); assert("sql"@.len() != "c"@.len());
    reveal_strlit("cmake"); assert("sql"@.len() != "cmake"@.len());
    reveal_strlit("cpp"); assert("sql"@[0] != "cpp"@[0]);
    reveal_strlit("c++"); assert("sql"@[0] != "c++"@[0]);
    reveal_strlit("csharp"); assert("sql"@.len() != "csharp"@.len());
    reveal_strlit("cs"); assert("sql"@.len() != "cs"@.len());
    reveal_strlit("css"); assert("sql"@[0] != "css"@[0]);
    reveal_strlit("scss"); assert("sql"@.len() != "scss"@.len());
    reveal_strlit("diff"); assert("sql"@.len() != "diff"@.len());
    reveal_strlit("ejs"); assert("sql"@[0] != "ejs"@[0]);
    reveal_strlit("elixir"); assert("sql"@.len() != "elixir"@.len());
    reveal_strlit("ex"); assert("sql"@.len() != "ex"@.len());
    reveal_strlit("erb"); assert("sql"@[0] != "erb"@[0]);
    reveal_strlit("go"); assert("sql"@.len() != "go"@.len());
    reveal_strlit("graphql"); assert("sql"@.len() != "graphql"@.len());
    reveal_strlit("haskell"); assert("sql"@.len() != "haskell"@.len());
    reveal_strlit("hs"); assert("sql"@.len() != "hs"@.len());
    reveal_strlit("lhs"); assert("sql"@[0] != "lhs"@[0]);
    reveal_strlit("haskell_persistent"); assert("sql"@.len() != "haskell_persistent"@.len());
    reveal_strlit("html"); assert("sql"@.len() != "html"@.len());
    reveal_strlit("java"); assert("sql"@.len() != "java"@.len());
    reveal_strlit("javascript"); assert("sql"@.len() != "javascript"@.len());
    reveal_strlit("js"); assert("sql"@.len() != "js"@.len());
    reveal_strlit("jsdoc"); assert("sql"@.len() != "jsdoc"@.len());
    reveal_strlit("json"); assert("sql"@.len() != "json"@.len());
    reveal_strlit("jsonc"); assert("sql"@.len() != "jsonc"@.len());
    reveal_strlit("julia"); assert("sql"@.len() != "julia"@.len());
    reveal_strlit("jl"); assert("sql"@.len() != "jl"@.len());
    reveal_strlit("kt"); assert("sql"@.len() != "kt"@.len());
    reveal_strlit("kts"); assert("sql"@[0] != "kts"@[0]);
    reveal_strlit("ktm"); assert("sql"@[0] != "ktm"@[0]);
    reveal_strlit("lua"); assert("sql"@[0] != "lua"@[0]);
    reveal_strlit("make"); assert("sql"@.len() != "make"@.len());
    reveal_strlit("makefile"); assert("sql"@.len() != "makefile"@.len());
    reveal_strlit("markdown"); assert("sql"@.len() != "markdown"@.len());
    reveal_strlit("md"); assert("sql"@.len() != "md"@.len());
    reveal_strlit("mdx"); assert("sql"@[0] != "mdx"@[0]);
    reveal_strlit("markdown_inline"); assert("sql"@.len() != "markdown_inline"@.len());
    reveal_strlit("markdown-inline"); assert("sql"@.len() != "markdown-inline"@.len());
    reveal_strlit("ocaml"); assert("sql"@.len() != "ocaml"@.len());
    reveal_strlit("ml"); assert("sql"@.len() != "ml"@.len());
    reveal_strlit("ocaml_interface"); assert("sql"@.len() != "ocaml_interface"@.len());
    reveal_strlit("ocaml-interface"); assert("sql"@.len() != "ocaml-interface"@.len());
    reveal_strlit("mli"); assert("sql"@[0] != "mli"@[0]);
    reveal_strlit("ocaml_type"); assert("sql"@.len() != "ocaml_type"@.len());
    reveal_strlit("ocaml-type"); assert("sql"@.len() != "ocaml-type"@.len());
    reveal_strlit("php"); assert("sql"@[0] != "php"@[0]);
    reveal_strlit("php3"); assert("sql"@.len() != "php3"@.len());
    reveal_strlit("php4"); assert("sql"@.len() != "php4"@.len());
    reveal_strlit("php5"); assert("sql"@.len() != "php5"@.len());
    reveal_strlit("phtml"); assert("sql"@.len() != "phtml"@.len());
    reveal_strlit("proto"); assert("sql"@.len() != "proto"@.len());
    reveal_strlit("protobuf"); assert("sql"@.len() != "protobuf"@.len());
    reveal_strlit("python"); assert("sql"@.len() != "python"@.len());
    reveal_strlit("py"); assert("sql"@.len() != "py"@.len());
    reveal_strlit("ql"); assert("sql"@.len() != "ql"@.len());
    reveal_strlit("ql_dbscheme"); assert("sql"@.len() != "ql_dbscheme"@.len());
    reveal_strlit("ql-dbscheme"); assert("sql"@.len() != "ql-dbscheme"@.len());
    reveal_strlit("dbscheme"); assert("sql"@.len() != "dbscheme"@.len());
    reveal_strlit("razor"); assert("sql"@.len() != "razor"@.len());
    reveal_strlit("cshtml"); assert("sql"@.len() != "cshtml"@.len());
    reveal_strlit("regex"); assert("sql"@.len() != "regex"@.len());
    reveal_strlit("regexp"); assert("sql"@.len() != "regexp"@.len());
    reveal_strlit("ruby"); assert("sql"@.len() != "ruby"@.len());
    reveal_strlit("rb"); assert("sql"@.len() != "rb"@.len());
    reveal_strlit("rust"); assert("sql"@.len() != "rust"@.len());
    reveal_strlit("rs"); assert("sql"@.len() != "rs"@.len());
    reveal_strlit("scala"); assert("sql"@.len() != "scala"@.len());
}

proof fn lemma_round_trip_svelte()
    ensures
        language_from_name(language_name(Language::Svelte)) == Language::Svelte,
{
    reveal_strlit("svelte");
    reveal_strlit("agda"); assert("svelte"@.len() != "agda"@.len());
    reveal_strlit("astro"); assert("svelte"@.len() != "astro"@.len());
    reveal_strlit("bash"); assert("svelte"@.len() != "bash"@.len());
    reveal_strlit("sh"); assert("svelte"@.len() != "sh"@.len());
    reveal_strlit("c"); assert("svelte"@.len() != "c"@.len());
    reveal_strlit("cmake"); assert("svelte"@.len() != "cmake"@.len());
    reveal_strlit("cpp"); assert("svelte"@.len() != "cpp"@.len());
    reveal_strlit("c++"); assert("svelte"@.len() != "c++"@.len());
    reveal_strlit("csharp"); assert("svelte"@[0] != "csharp"@[0]);
    reveal_strlit("cs"); assert("svelte"@.len() != "cs"@.len());
    reveal_strlit("css"); assert("svelte"@.len() != "css"@.len());
    reveal_strlit("scss"); assert("svelte"@.len() != "scss"@.len());
    reveal_strlit("diff"); assert("svelte"@.len() != "diff"@.len());
    reveal_strlit("ejs"); assert("svelte"@.len() != "ejs"@.len());
    reveal_strlit("elixir"); assert("svelte"@[0] != "elixir"@[0]);
    reveal_strlit("ex"); assert("svelte"@.len() != "ex"@.len());
    reveal_strlit("erb"); assert("svelte"@.len() != "erb"@.len());
    reveal_strlit("go"); assert("svelte"@.len() != "go"@.len());
    reveal_strlit("graphql"); assert("svelte"@.len() != "graphql"@.len());
    reveal_strlit("haskell"); assert("svelte"@.len() != "haskell"@.len());
    reveal_strlit("hs"); assert("svelte"@.len() != "hs"@.len());
    reveal_strlit("lhs"); assert("svelte"@.len() != "lhs"@.len());
    reveal_strlit("haskell_persistent"); assert("svelte"@.len() != "haskell_persistent"@.len());
    reveal_strlit("html"); assert("svelte"@.len() != "html"@.len());
    reveal_strlit("java"); assert("svelte"@.len() != "java"@.len());
    reveal_strlit("javascript"); assert("svelte"@.len() != "javascript"@.len());
    reveal_strlit("js"); assert("svelte"@.len() != "js"@.len());
    reveal_strlit("jsdoc"); assert("svelte"@.len() != "jsdoc"@.len());
    reveal_strlit("json"); assert("svelte"@.len() != "json"@.len());
    reveal_strlit("jsonc"); assert("svelte"@.len() != "jsonc"@.len());
    reveal_strlit("julia"); assert("svelte"@.len() != "julia"@.len());
    reveal_strlit("jl"); assert("svelte"@.len() != "jl"@.len());
    reveal_strlit("kt"); assert("svelte"@.len() != "kt"@.len());
    reveal_strlit("kts"); assert("svelte"@.len() != "kts"@.len());
    reveal_strlit("ktm"); assert("svelte"@.len() != "ktm"@.len());
    reveal_strlit("lua"); assert("svelte"@.len() != "lua"@.len());
    reveal_strlit("make"); assert("svelte"@.len() != "make"@.len());
    reveal_strlit("makefile"); assert("svelte"@.len() != "makefile"@.len());
    reveal_strlit("markdown"); assert("svelte"@.len() != "markdown"@.len());
    reveal_strlit("md"); assert("svelte"@.len() != "md"@.len());
    reveal_strlit("mdx"); assert("svelte"@.len() != "mdx"@.len());
    reveal_strlit("markdown_inline"); assert("svelte"@.len() != "markdown_inline"@.len());
    reveal_strlit("markdown-inline"); assert("svelte"@.len() != "markdown-inline"@.len());
    reveal_strlit("ocaml"); assert("svelte"@.len() != "ocaml"@.len());
    reveal_strlit("ml"); assert("svelte"@.len() != "ml"@.len());
    reveal_strlit("ocaml_interface"); assert("svelte"@.len() != "ocaml_interface"@.len());
    reveal_strlit("ocaml-interface"); assert("svelte"@.len() != "ocaml-interface"@.len());
    reveal_strlit("mli"); assert("svelte"@.len() != "mli"@.len());
    reveal_strlit("ocaml_type"); assert("svelte"@.len() != "ocaml_type"@.len());
    reveal_strlit("ocaml-type"); assert("svelte"@.len() != "ocaml-type"@.len());
    reveal_strlit("php"); assert("svelte"@.len() != "php"@.len());
    reveal_strlit("php3"); assert("svelte"@.len() != "php3"@.len());
    reveal_strlit("php4"); assert("svelte"@.len() != "php4"@.len());
    reveal_strlit("php5"); assert("svelte"@.len() != "php5"@.len());
    reveal_strlit("phtml"); assert("svelte"@.len() != "phtml"@.len());
    reveal_strlit("proto"); assert("svelte"@.len() != "proto"@.len());
    reveal_strlit("protobuf"); assert("svelte"@.len() != "protobuf"@.len());
    reveal_strlit("python"); assert("svelte"@[0] != "python"@[0]);
    reveal_strlit("py"); assert("svelte"@.len() != "py"@.len());
    reveal_strlit("ql"); assert("svelte"@.len() != "ql"@.len());
    reveal_strlit("ql_dbscheme"); assert("svelte"@.len() != "ql_dbscheme"@.len());
    reveal_strlit("ql-dbscheme"); assert("svelte"@.len() != "ql-dbscheme"@.len());
    reveal_strlit("dbscheme"); assert("svelte"@.len() != "dbscheme"@.len());
    reveal_strlit("razor"); assert("svelte"@.len() != "razor"@.len());
    reveal_strlit("cshtml"); assert("svelte"@[0] != "cshtml"@[0]);
    reveal_strlit("regex"); assert("svelte"@.len() != "regex"@.len());
    reveal_strlit("regexp"); assert("svelte"@[0] != "regexp"@[0]);
    reveal_strlit("ruby"); assert("svelte"@.len() != "ruby"@.len());
    reveal_strlit("rb"); assert("svelte"@.len() != "rb"@.len());
    reveal_strlit("rust"); assert("svelte"@.len() != "rust"@.len());
    reveal_strlit("rs"); assert("svelte"@.len() != "rs"@.len());
    reveal_strlit("scala"); assert("svelte"@.len() != "scala"@.len());
    reveal_strlit("sql"); assert("svelte"@.len() != "sql"@.len());
}

proof fn lemma_round_trip_swift()
    ensures
        language_from_name(language_name(Language::Swift)) == Language::Swift,
{
    reveal_strlit("swift");
    reveal_strlit("agda"); assert("swift"@.len() != "agda"@.len());
    reveal_strlit("astro"); assert("swift"@[0] != "astro"@[0]);
    reveal_strlit("bash"); assert("swift"@.len() != "bash"@.len());
    reveal_strlit("sh"); assert("swift"@.len() != "sh"@.len());
    reveal_strlit("c"); assert("swift"@.len() != "c"@.len());
    reveal_strlit("cmake"); assert("swift"@[0] != "cmake"@[0]);
    reveal_strlit("cpp"); assert("swift"@.len() != "cpp"@.len());
    reveal_strlit("c++"); assert("swift"@.len() != "c++"@.len());
    reveal_strlit("csharp"); assert("swift"@.len() != "csharp"@.len());
    reveal_strlit("cs"); assert("swift"@.len() != "cs"@.len());
    reveal_strlit("css"); assert("swift"@.len() != "css"@.len());
    reveal_strlit("scss"); assert("swift"@.len() != "scss"@.len());
    reveal_strlit("diff"); assert("swift"@.len() != "diff"@.len());
    reveal_strlit("ejs"); assert("swift"@.len() != "ejs"@.len());
    reveal_strlit("elixir"); assert("swift"@.len() != "elixir"@.len());
    reveal_strlit("ex"); assert("swift"@.len() != "ex"@.len());
    reveal_strlit("erb"); assert("swift"@.len() != "erb"@.len());
    reveal_strlit("go"); assert("swift"@.len() != "go"@.len());
    reveal_strlit("graphql"); assert("swift"@.len() != "graphql"@.len());
    reveal_strlit("haskell"); assert("swift"@.len() != "haskell"@.len());
    reveal_strlit("hs"); assert("swift"@.len() != "hs"@.len());
    reveal_strlit("lhs"); assert("swift"@.len() != "lhs"@.len());
    reveal_strlit("haskell_persistent"); assert("swift"@.len() != "haskell_persistent"@.len());
    reveal_strlit("html"); assert("swift"@.len() != "html"@.len());
    reveal_strlit("java"); assert("swift"@.len() != "java"@.len());
    reveal_strlit("javascript"); assert("swift"@.len() != "javascript"@.len());
    reveal_strlit("js"); assert("swift"@.len() != "js"@.len());
    reveal_strlit("jsdoc"); assert("swift"@[0] != "jsdoc"@[0]);
    reveal_strlit("json"); assert("swift"@.len() != "json"@.len());
    reveal_strlit("jsonc"); assert("swift"@[0] != "jsonc"@[0]);
    reveal_strlit("julia"); assert("swift"@[0] != "julia"@[0]);
    reveal_strlit("jl"); assert("swift"@.len() != "jl"@.len());
    reveal_strlit("kt"); assert("swift"@.len() != "kt"@.len());
    reveal_strlit("kts"); assert("swift"@.len() != "kts"@.len());
    reveal_strlit("ktm"); assert("swift"@.len() != "ktm"@.len());
    reveal_strlit("lua"); assert("swift"@.len() != "lua"@.len());
    reveal_strlit("make"); assert("swift"@.len() != "make"@.len());
    reveal_strlit("makefile"); assert("swift"@.len() != "makefile"@.len());
    reveal_strlit("markdown"); assert("swift"@.len() != "markdown"@.len());
    reveal_strlit("md"); assert("swift"@.len() != "md"@.len());
    reveal_strlit("mdx"); assert("swift"@.len() != "mdx"@.len());
    reveal_strlit("markdown_inline"); assert("swift"@.len() != "markdown_inline"@.len());
    reveal_strlit("markdown-inline"); assert("swift"@.len() != "markdown-inline"@.len());
    reveal_strlit("ocaml"); assert("swift"@[0] != "ocaml"@[0]);
    reveal_strlit("ml"); assert("swift"@.len() != "ml"@.len());
    reveal_strlit("ocaml_interface"); assert("swift"@.len() != "ocaml_interface"@.len());
    reveal_strlit("ocaml-interface"); assert("swift"@.len() != "ocaml-interface"@.len());
    reveal_strlit("mli"); assert("swift"@.len() != "mli"@.len());
    reveal_strlit("ocaml_type"); assert("swift"@.len() != "ocaml_type"@.len());
    reveal_strlit("ocaml-type"); assert("swift"@.len() != "ocaml-type"@.len());
    reveal_strlit("php"); assert("swift"@.len() != "php"@.len());
    reveal_strlit("php3"); assert("swift"@.len() != "php3"@.len());
    reveal_strlit("php4"); assert("swift"@.len() != "php4"@.len());
    reveal_strlit("php5"); assert("swift"@.len() != "php5"@.len());
    reveal_strlit("phtml"); assert("swift"@[0] != "phtml"@[0]);
    reveal_strlit("proto"); assert("swift"@[0] != "proto"@[0]);
    reveal_strlit("protobuf"); assert("swift"@.len() != "protobuf"@.len());
    reveal_strlit("python"); assert("swift"@.len() != "python"@.len());
    reveal_strlit("py"); assert("swift"@.len() != "py"@.len());
    reveal_strlit("ql"); assert("swift"@.len() != "ql"@.len());
    reveal_strlit("ql_dbscheme"); assert("swift"@.len() != "ql_dbscheme"@.len());
    reveal_strlit("ql-dbscheme"); assert("swift"@.len() != "ql-dbscheme"@.len());
    reveal_strlit("dbscheme"); assert("swift"@.len() != "dbscheme"@.len());
    reveal_strlit("razor"); assert("swift"@[0] != "razor"@[0]);
    reveal_strlit("cshtml"); assert("swift"@.len() != "cshtml"@.len());
    reveal_strlit("regex"); assert("swift"@[0] != "regex"@[0]);
    reveal_strlit("regexp"); assert("swift"@.len() != "regexp"@.len());
    reveal_strlit("ruby"); assert("swift"@.len() != "ruby"@.len());
    reveal_strlit("rb"); assert("swift"@.len() != "rb"@.len());
    reveal_strlit("rust"); assert("swift"@.len() != "rust"@.len());
    reveal_strlit("rs"); assert("swift"@.len() != "rs"@.len());
    reveal_strlit("scala"); assert("swift"@[1] != "scala"@[1]);
    reveal_strlit("sql"); assert("swift"@.len() != "sql"@.len());
    reveal_strlit("svelte"); assert("swift"@.len() != "svelte"@.len());
}

proof fn lemma_round_trip_toml()
    ensures
        language_from_name(language_name(Language::Toml)) == Language::Toml,
{
    reveal_strlit("toml");
    reveal_strlit("agda"); assert("toml"@[0] != "agda"@[0]);
    reveal_strlit("astro"); assert("toml"@.len() != "astro"@.len());
    reveal_strlit("bash"); assert("toml"@[0] != "bash"@[0]);
    reveal_strlit("sh"); assert("toml"@.len() != "sh"@.len());
    reveal_strlit("c"); assert("toml"@.len() != "c"@.len());
    reveal_strlit("cmake"); assert("toml"@.len() != "cmake"@.len());
    reveal_strlit("cpp"); assert("toml"@.len() != "cpp"@.len());
    reveal_strlit("c++"); assert("toml"@.len() != "c++"@.len());
    reveal_strlit("csharp"); assert("toml"@.len() != "csharp"@.len());
    reveal_strlit("cs"); assert("toml"@.len() != "cs"@.len());
    reveal_strlit("css"); assert("toml"@.len() != "css"@.len());
    reveal_strlit("scss"); assert("toml"@[0] != "scss"@[0]);
    reveal_strlit("diff"); assert("toml"@[0] != "diff"@[0]);
    reveal_strlit("ejs"); assert("toml"@.len() != "ejs"@.len());
    reveal_strlit("elixir"); assert("toml"@.len() != "elixir"@.len());
    reveal_strlit("ex"); assert("toml"@.len() != "ex"@.len());
    reveal_strlit("erb"); assert("toml"@.len() != "erb"@.len());
    reveal_strlit("go"); assert("toml"@.len() != "go"@.len());
    reveal_strlit("graphql"); assert("toml"@.len() != "graphql"@.len());
    reveal_strlit("haskell"); assert("toml"@.len() != "haskell"@.len());
    reveal_strlit("hs"); assert("toml"@.len() != "hs"@.len());
    reveal_strlit("lhs"); assert("toml"@.len() != "lhs"@.len());
    reveal_strlit("haskell_persistent"); assert("toml"@.len() != "haskell_persistent"@.len());
    reveal_strlit("html"); assert("toml"@[0] != "html"@[0]);
    reveal_strlit("java"); assert("toml"@[0] != "java"@[0]);
    reveal_strlit("javascript"); assert("toml"@.len() != "javascript"@.len());
    reveal_strlit("js"); assert("toml"@.len() != "js"@.len());
    reveal_strlit("jsdoc"); assert("toml"@.len() != "jsdoc"@.len());
    reveal_strlit("json"); assert("toml"@[0] != "json"@[0]);
    reveal_strlit("jsonc"); assert("toml"@.len() != "jsonc"@.len());
    reveal_strlit("julia"); assert("toml"@.len() != "julia"@.len());
    reveal_strlit("jl"); assert("toml"@.len() != "jl"@.len());
    reveal_strlit("kt"); assert("toml"@.len() != "kt"@.len());
    reveal_strlit("kts"); assert("toml"@.len() != "kts"@.len());
    reveal_strlit("ktm"); assert("toml"@.len() != "ktm"@.len());
    reveal_strlit("lua"); assert("toml"@.len() != "lua"@.len());
    reveal_strlit("make"); assert("toml"@[0] != "make"@[0]);
    reveal_strlit("makefile"); assert("toml"@.len() != "makefile"@.len());
    reveal_strlit("markdown"); assert("toml"@.len() != "markdown"@.len());
    reveal_strlit("md"); assert("toml"@.len() != "md"@.len());
    reveal_strlit("mdx"); assert("toml"@.len() != "mdx"@.len());
    reveal_strlit("markdown_inline"); assert("toml"@.len() != "markdown_inline"@.len());
    reveal_strlit("markdown-inline"); assert("toml"@.len() != "markdown-inline"@.len());
    reveal_strlit("ocaml"); assert("toml"@.len() != "ocaml"@.len());
    reveal_strlit("ml"); assert("toml"@.len() != "ml"@.len());
    reveal_strlit("ocaml_interface"); assert("toml"@.len() != "ocaml_interface"@.len());
    reveal_strlit("ocaml-interface"); assert("toml"@.len() != "ocaml-interface"@.len());
    reveal_strlit("mli"); assert("toml"@.len() != "mli"@.len());
    reveal_strlit("ocaml_type"); assert("toml"@.len() != "ocaml_type"@.len());
    reveal_strlit("ocaml-type"); assert("toml"@.len() != "ocaml-type"@.len());
    reveal_strlit("php"); assert("toml"@.len() != "php"@.len());
    reveal_strlit("php3"); assert("toml"@[0] != "php3"@[0]);
    reveal_strlit("php4"); assert("toml"@[0] != "php4"@[0]);
    reveal_strlit("php5"); assert("toml"@[0] != "php5"@[0]);
    reveal_strlit("phtml"); assert("toml"@.len() != "phtml"@.len());
    reveal_strlit("proto"); assert("toml"@.len() != "proto"@.len());
    reveal_strlit("protobuf"); assert("toml"@.len() != "protobuf"@.len());
    reveal_strlit("python"); assert("toml"@.len() != "python"@.len());
    reveal_strlit("py"); assert("toml"@.len() != "py"@.len());
    reveal_strlit("ql"); assert("toml"@.len() != "ql"@.len());
    reveal_strlit("ql_dbscheme"); assert("toml"@.len() != "ql_dbscheme"@.len());
    reveal_strlit("ql-dbscheme"); assert("toml"@.len() != "ql-dbscheme"@.len());
    reveal_strlit("dbscheme"); assert("toml"@.len() != "dbscheme"@.len());
    reveal_strlit("razor"); assert("toml"@.len() != "razor"@.len());
    reveal_strlit("cshtml"); assert("toml"@.len() != "cshtml"@.len());
    reveal_strlit("regex"); assert("toml"@.len() != "regex"@.len());
    reveal_strlit("regexp"); assert("toml"@.len() != "regexp"@.len());
    reveal_strlit("ruby"); assert("toml"@[0] != "ruby"@[0]);
    reveal_strlit("rb"); assert("toml"@.len() != "rb"@.len());
    reveal_strlit("rust"); assert("toml"@[0] != "rust"@[0]);
    reveal_strlit("rs"); assert("toml"@.len() != "rs"@.len());
    reveal_strlit("scala"); assert("toml"@.len() != "scala"@.len());
    reveal_strlit("sql"); assert("toml"@.len() != "sql"@.len());
    reveal_strlit("svelte"); assert("toml"@.len() != "svelte"@.len());
    reveal_strlit("swift"); assert("toml"@.len() != "swift"@.len());
}

proof fn lemma_round_trip_tsx()
    ensures
        language_from_name(language_name(Language::Tsx)) == Language::Tsx,
{
    reveal_strlit("tsx");
    reveal_strlit("agda"); assert("tsx"@.len() != "agda"@.len());
    reveal_strlit("astro"); assert("tsx"@.len() != "astro"@.len());
    reveal_strlit("bash"); assert("tsx"@.len() != "bash"@.len());
    reveal_strlit("sh"); assert("tsx"@.len() != "sh"@.len());
    reveal_strlit("c"); assert("tsx"@.len() != "c"@.len());
    reveal_strlit("cmake"); assert("tsx"@.len() != "cmake"@.len());
    reveal_strlit("cpp"); assert("tsx"@[0] != "cpp"@[0]);
    reveal_strlit("c++"); assert("tsx"@[0] != "c++"@[0]);
    reveal_strlit("csharp"); assert("tsx"@.len() != "csharp"@.len());
    reveal_strlit("cs"); assert("tsx"@.len() != "cs"@.len());
    reveal_strlit("css"); assert("tsx"@[0] != "css"@[0]);
    reveal_strlit("scss"); assert("tsx"@.len() != "scss"@.len());
    reveal_strlit("diff"); assert("tsx"@.len() != "diff"@.len());
    reveal_strlit("ejs"); assert("tsx"@[0] != "ejs"@[0]);
    reveal_strlit("elixir"); assert("tsx"@.len() != "elixir"@.len());
    reveal_strlit("ex"); assert("tsx"@.len() != "ex"@.len());
    reveal_strlit("erb"); assert("tsx"@[0] != "erb"@[0]);
    reveal_strlit("go"); assert("tsx"@.len() != "go"@.len());
    reveal_strlit("graphql"); assert("tsx"@.len() != "graphql"@.len());
    reveal_strlit("haskell"); assert("tsx"@.len() != "haskell"@.len());
    reveal_strlit("hs"); assert("tsx"@.len() != "hs"@.len());
    reveal_strlit("lhs"); assert("tsx"@[0] != "lhs"@[0]);
    reveal_strlit("haskell_persistent"); assert("tsx"@.len() != "haskell_persistent"@.len());
    reveal_strlit("html"); assert("tsx"@.len() != "html"@.len());
    reveal_strlit("java"); assert("tsx"@.len() != "java"@.len());
    reveal_strlit("javascript"); assert("tsx"@.len() != "javascript"@.len());
    reveal_strlit("js"); assert("tsx"@.len() != "js"@.len());
    reveal_strlit("jsdoc"); assert("tsx"@.len() != "jsdoc"@.len());
    reveal_strlit("json"); assert("tsx"@.len() != "json"@.len());
    reveal_strlit("jsonc"); assert("tsx"@.len() != "jsonc"@.len());
    reveal_strlit("julia"); assert("tsx"@.len() != "julia"@.len());
    reveal_strlit("jl"); assert("tsx"@.len() != "jl"@.len());
    reveal_strlit("kt"); assert("tsx"@.len() != "kt"@.len());
    reveal_strlit("kts"); assert("tsx"@[0] != "kts"@[0]);
    reveal_strlit("ktm"); assert("tsx"@[0] != "ktm"@[0]);
    reveal_strlit("lua"); assert("tsx"@[0] != "lua"@[0]);
    reveal_strlit("make"); assert("tsx"@.len() != "make"@.len());
    reveal_strlit("makefile"); assert("tsx"@.len() != "makefile"@.len());
    reveal_strlit("markdown"); assert("tsx"@.len() != "markdown"@.len());
    reveal_strlit("md"); assert("tsx"@.len() != "md"@.len());
    reveal_strlit("mdx"); assert("tsx"@[0] != "mdx"@[0]);
    reveal_strlit("markdown_inline"); assert("tsx"@.len() != "markdown_inline"@.len());
    reveal_strlit("markdown-inline"); assert("tsx"@.len() != "markdown-inline"@.len());
    reveal_strlit("ocaml"); assert("tsx"@.len() != "ocaml"@.len());
    reveal_strlit("ml"); assert("tsx"@.len() != "ml"@.len());
    reveal_strlit("ocaml_interface"); assert("tsx"@.len() != "ocaml_interface"@.len());
    reveal_strlit("ocaml-interface"); assert("tsx"@.len() != "ocaml-interface"@.len());
    reveal_strlit("mli"); assert("tsx"@[0] != "mli"@[0]);
    reveal_strlit("ocaml_type"); assert("tsx"@.len() != "ocaml_type"@.len());
    reveal_strlit("ocaml-type"); assert("tsx"@.len() != "ocaml-type"@.len());
    reveal_strlit("php"); assert("tsx"@[0] != "php"@[0]);
    reveal_strlit("php3"); assert("tsx"@.len() != "php3"@.len());
    reveal_strlit("php4"); assert("tsx"@.len() != "php4"@.len());
    reveal_strlit("php5"); assert("tsx"@.len() != "php5"@.len());
    reveal_strlit("phtml"); assert("tsx"@.len() != "phtml"@.len());
    reveal_strlit("proto"); assert("tsx"@.len() != "proto"@.len());
    reveal_strlit("protobuf"); assert("tsx"@.len() != "protobuf"@.len());
    reveal_strlit("python"); assert("tsx"@.len() != "python"@.len());
    reveal_strlit("py"); assert("tsx"@.len() != "py"@.len());
    reveal_strlit("ql"); assert("tsx"@.len() != "ql"@.len());
    reveal_strlit("ql_dbscheme"); assert("tsx"@.len() != "ql_dbscheme"@.len());
    reveal_strlit("ql-dbscheme"); assert("tsx"@.len() != "ql-dbscheme"@.len());
    reveal_strlit("dbscheme"); assert("tsx"@.len() != "dbscheme"@.len());
    reveal_strlit("razor"); assert("tsx"@.len() != "razor"@.len());
    reveal_strlit("cshtml"); assert("tsx"@.len() != "cshtml"@.len());
    reveal_strlit("regex"); assert("tsx"@.len() != "regex"@.len());
    reveal_strlit("regexp"); assert("tsx"@.len() != "regexp"@.len());
    reveal_strlit("ruby"); assert("tsx"@.len() != "ruby"@.len());
    reveal_strlit("rb"); assert("tsx"@.len() != "rb"@.len());
    reveal_strlit("rust"); assert("tsx"@.len() != "rust"@.len());
    reveal_strlit("rs"); assert("tsx"@.len() != "rs"@.len());
    reveal_strlit("scala"); assert("tsx"@.len() != "scala"@.len());
    reveal_strlit("sql"); assert("tsx"@[0] != "sql"@[0]);
    reveal_strlit("svelte"); assert("tsx"@.len() != "svelte"@.len());
    reveal_strlit("swift"); assert("tsx"@.len() != "swift"@.len());
    reveal_strlit("toml"); assert("tsx"@.len() != "toml"@.len());
}

proof fn lemma_round_trip_type_script()
    ensures
        language_from_name(language_name(Language::TypeScript)) == Language::TypeScript,
{
    reveal_strlit("typescript");
    reveal_strlit("agda"); assert("typescript"@.len() != "agda"@.len());
    reveal_strlit("astro"); assert("typescript"@.len() != "astro"@.len());
    reveal_strlit("bash"); assert("typescript"@.len() != "bash"@.len());
    reveal_strlit("sh"); assert("typescript"@.len() != "sh"@.len());
    reveal_strlit("c"); assert("typescript"@.len() != "c"@.len());
    reveal_strlit("cmake"); assert("typescript"@.len() != "cmake"@.len());
    reveal_strlit("cpp"); assert("typescript"@.len() != "cpp"@.len());
    reveal_strlit("c++"); assert("typescript"@.len() != "c++"@.len());
    reveal_strlit("csharp"); assert("typescript"@.len() != "csharp"@.len());
    reveal_strlit("cs"); assert("typescript"@.len() != "cs"@.len());
    reveal_strlit("css"); assert("typescript"@.len() != "css"@.len());
    reveal_strlit("scss"); assert("typescript"@.len() != "scss"@.len());
    reveal_strlit("diff"); assert("typescript"@.len() != "diff"@.len());
    reveal_strlit("ejs"); assert("typescript"@.len() != "ejs"@.len());
    reveal_strlit("elixir"); assert("typescript"@.len() != "elixir"@.len());
    reveal_strlit("ex"); assert("typescript"@.len() != "ex"@.len());
    reveal_strlit("erb"); assert("typescript"@.len() != "erb"@.len());
    reveal_strlit("go"); assert("typescript"@.len() != "go"@.len());
    reveal_strlit("graphql"); assert("typescript"@.len() != "graphql"@.len());
    reveal_strlit("haskell"); assert("typescript"@.len() != "haskell"@.len());
    reveal_strlit("hs"); assert("typescript"@.len() != "hs"@.len());
    reveal_strlit("lhs"); assert("typescript"@.len() != "lhs"@.len());
    reveal_strlit("haskell_persistent"); assert("typescript"@.len() != "haskell_persistent"@.len());
    reveal_strlit("html"); assert("typescript"@.len() != "html"@.len());
    reveal_strlit("java"); assert("typescript"@.len() != "java"@.len());
    reveal_strlit("javascript"); assert("typescript"@[0] != "javascript"@[0]);
    reveal_strlit("js"); assert("typescript"@.len() != "js"@.len());
    reveal_strlit("jsdoc"); assert("typescript"@.len() != "jsdoc"@.len());
    reveal_strlit("json"); assert("typescript"@.len() != "json"@.len());
    reveal_strlit("jsonc"); assert("typescript"@.len() != "jsonc"@.len());
    reveal_strlit("julia"); assert("typescript"@.len() != "julia"@.len());
    reveal_strlit("jl"); assert("typescript"@.len() != "jl"@.len());
    reveal_strlit("kt"); assert("typescript"@.len() != "kt"@.len());
    reveal_strlit("kts"); assert("typescript"@.len() != "kts"@.len());
    reveal_strlit("ktm"); assert("typescript"@.len() != "ktm"@.len());
    reveal_strlit("lua"); assert("typescript"@.len() != "lua"@.len());
    reveal_strlit("make"); assert("typescript"@.len() != "make"@.len());
    reveal_strlit("makefile"); assert("typescript"@.len() != "makefile"@.len());
    reveal_strlit("markdown"); assert("typescript"@.len() != "markdown"@.len());
    reveal_strlit("md"); assert("typescript"@.len() != "md"@.len());
    reveal_strlit("mdx"); assert("typescript"@.len() != "mdx"@.len());
    reveal_strlit("markdown_inline"); assert("typescript"@.len() != "markdown_inline"@.len());
    reveal_strlit("markdown-inline"); assert("typescript"@.len() != "markdown-inline"@.len());
    reveal_strlit("ocaml"); assert("typescript"@.len() != "ocaml"@.len());
    reveal_strlit("ml"); assert("typescript"@.len() != "ml"@.len());
    reveal_strlit("ocaml_interface"); assert("typescript"@.len() != "ocaml_interface"@.len());
    reveal_strlit("ocaml-interface"); assert("typescript"@.len() != "ocaml-interface"@.len());
    reveal_strlit("mli"); assert("typescript"@.len() != "mli"@.len());
    reveal_strlit("ocaml_type"); assert("typescript"@[0] != "ocaml_type"@[0]);
    reveal_strlit("ocaml-type"); assert("typescript"@[0] != "ocaml-type"@[0]);
    reveal_strlit("php"); assert("typescript"@.len() != "php"@.len());
    reveal_strlit("php3"); assert("typescript"@.len() != "php3"@.len());
    reveal_strlit("php4"); assert("typescript"@.len() != "php4"@.len());
    reveal_strlit("php5"); assert("typescript"@.len() != "php5"@.len());
    reveal_strlit("phtml"); assert("typescript"@.len() != "phtml"@.len());
    reveal_strlit("proto"); assert("typescript"@.len() != "proto"@.len());
    reveal_strlit("protobuf"); assert("typescript"@.len() != "protobuf"@.len());
    reveal_strlit("python"); assert("typescript"@.len() != "python"@.len());
    reveal_strlit("py"); assert("typescript"@.len() != "py"@.len());
    reveal_strlit("ql"); assert("typescript"@.len() != "ql"@.len());
    reveal_strlit("ql_dbscheme"); assert("typescript"@.len() != "ql_dbscheme"@.len());
    reveal_strlit("ql-dbscheme"); assert("typescript"@.len() != "ql-dbscheme"@.len());
    reveal_strlit("dbscheme"); assert("typescript"@.len() != "dbscheme"@.len());
    reveal_strlit("razor"); assert("typescript"@.len() != "razor"@.len());
    reveal_strlit("cshtml"); assert("typescript"@.len() != "cshtml"@.len());
    reveal_strlit("regex"); assert("typescript"@.len() != "regex"@.len());
    reveal_strlit("regexp"); assert("typescript"@.len() != "regexp"@.len());
    reveal_strlit("ruby"); assert("typescript"@.len() != "ruby"@.len());
    reveal_strlit("rb"); assert("typescript"@.len() != "rb"@.len());
    reveal_strlit("rust"); assert("typescript"@.len() != "rust"@.len());
    reveal_strlit("rs"); assert("typescript"@.len() != "rs"@.len());
    reveal_strlit("scala"); assert("typescript"@.len() != "scala"@.len());
    reveal_strlit("sql"); assert("typescript"@.len() != "sql"@.len());
    reveal_strlit("svelte"); assert("typescript"@.len() != "svelte"@.len());
    reveal_strlit("swift"); assert("typescript"@.len() != "swift"@.len());
    reveal_strlit("toml"); assert("typescript"@.len() != "toml"@.len());
    reveal_strlit("tsx"); assert("typescript"@.len() != "tsx"@.len());
}

proof fn lemma_round_trip_verilog()
    ensures
        language_from_name(language_name(Language::Verilog)) == Language::Verilog,
{
    reveal_strlit("verilog");
    reveal_strlit("agda"); assert("verilog"@.len() != "agda"@.len());
    reveal_strlit("astro"); assert("verilog"@.len() != "astro"@.len());
    reveal_strlit("bash"); assert("verilog"@.len() != "bash"@.len());
    reveal_strlit("sh"); assert("verilog"@.len() != "sh"@.len());
    reveal_strlit("c"); assert("verilog"@.len() != "c"@.len());
    reveal_strlit("cmake"); assert("verilog"@.len() != "cmake"@.len());
    reveal_strlit("cpp"); assert("verilog"@.len() != "cpp"@.len());
    reveal_strlit("c++"); assert("verilog"@.len() != "c++"@.len());
    reveal_strlit("csharp"); assert("verilog"@.len() != "csharp"@.len());
    reveal_strlit("cs"); assert("verilog"@.len() != "cs"@.len());
    reveal_strlit("css"); assert("verilog"@.len() != "css"@.len());
    reveal_strlit("scss"); assert("verilog"@.len() != "scss"@.len());
    reveal_strlit("diff"); assert("verilog"@.len() != "diff"@.len());
    reveal_strlit("ejs"); assert("verilog"@.len() != "ejs"@.len());
    reveal_strlit("elixir"); assert("verilog"@.len() != "elixir"@.len());
    reveal_strlit("ex"); assert("verilog"@.len() != "ex"@.len());
    reveal_strlit("erb"); assert("verilog"@.len() != "erb"@.len());
    reveal_strlit("go"); assert("verilog"@.len() != "go"@.len());
    reveal_strlit("graphql"); assert("verilog"@[0] != "graphql"@[0]);
    reveal_strlit("haskell"); assert("verilog"@[0] != "haskell"@[0]);
    reveal_strlit("hs"); assert("verilog"@.len() != "hs"@.len());
    reveal_strlit("lhs"); assert("verilog"@.len() != "lhs"@.len());
    reveal_strlit("haskell_persistent"); assert("verilog"@.len() != "haskell_persistent"@.len());
    reveal_strlit("html"); assert("verilog"@.len() != "html"@.len());
    reveal_strlit("java"); assert("verilog"@.len() != "java"@.len());
    reveal_strlit("javascript"); assert("verilog"@.len() != "javascript"@.len());
    reveal_strlit("js"); assert("verilog"@.len() != "js"@.len());
    reveal_strlit("jsdoc"); assert("verilog"@.len() != "jsdoc"@.len());
    reveal_strlit("json"); assert("verilog"@.len() != "json"@.len());
    reveal_strlit("jsonc"); assert("verilog"@.len() != "jsonc"@.len());
    reveal_strlit("julia"); assert("verilog"@.len() != "julia"@.len());
    reveal_strlit("jl"); assert("verilog"@.len() != "jl"@.len());
    reveal_strlit("kt"); assert("verilog"@.len() != "kt"@.len());
    reveal_strlit("kts"); assert("verilog"@.len() != "kts"@.len());
    reveal_strlit("ktm"); assert("verilog"@.len() != "ktm"@.len());
    reveal_strlit("lua"); assert("verilog"@.len() != "lua"@.len());
    reveal_strlit("make"); assert("verilog"@.len() != "make"@.len());
    reveal_strlit("makefile"); assert("verilog"@.len() != "makefile"@.len());
    reveal_strlit("markdown"); assert("verilog"@.len() != "markdown"@.len());
    reveal_strlit("md"); assert("verilog"@.len() != "md"@.len());
    reveal_strlit("mdx"); assert("verilog"@.len() != "mdx"@.len());
    reveal_strlit("markdown_inline"); assert("verilog"@.len() != "markdown_inline"@.len());
    reveal_strlit("markdown-inline"); assert("verilog"@.len() != "markdown-inline"@.len());
    reveal_strlit("ocaml"); assert("verilog"@.len() != "ocaml"@.len());
    reveal_strlit("ml"); assert("verilog"@.len() != "ml"@.len());
    reveal_strlit("ocaml_interface"); assert("verilog"@.len() != "ocaml_interface"@.len());
    reveal_strlit("ocaml-interface"); assert("verilog"@.len() != "ocaml-interface"@.len());
    reveal_strlit("mli"); assert("verilog"@.len() != "mli"@.len());
    reveal_strlit("ocaml_type"); assert("verilog"@.len() != "ocaml_type"@.len());
    reveal_strlit("ocaml-type"); assert("verilog"@.len() != "ocaml-type"@.len());
    reveal_strlit("php"); assert("verilog"@.len() != "php"@.len());
    reveal_strlit("php3"); assert("verilog"@.len() != "php3"@.len());
    reveal_strlit("php4"); assert("verilog"@.len() != "php4"@.len());
    reveal_strlit("php5"); assert("verilog"@.len() != "php5"@.len());
    reveal_strlit("phtml"); assert("verilog"@.len() != "phtml"@.len());
    reveal_strlit("proto"); assert("verilog"@.len() != "proto"@.len());
    reveal_strlit("protobuf"); assert("verilog"@.len() != "protobuf"@.len());
    reveal_strlit("python"); assert("verilog"@.len() != "python"@.len());
    reveal_strlit("py"); assert("verilog"@.len() != "py"@.len());
    reveal_strlit("ql"); assert("verilog"@.len() != "ql"@.len());
    reveal_strlit("ql_dbscheme"); assert("verilog"@.len() != "ql_dbscheme"@.len());
    reveal_strlit("ql-dbscheme"); assert("verilog"@.len() != "ql-dbscheme"@.len());
    reveal_strlit("dbscheme"); assert("verilog"@.len() != "dbscheme"@.len());
    reveal_strlit("razor"); assert("verilog"@.len() != "razor"@.len());
    reveal_strlit("cshtml"); assert("verilog"@.len() != "cshtml"@.len());
    reveal_strlit("regex"); assert("verilog"@.len() != "regex"@.len());
    reveal_strlit("regexp"); assert("verilog"@.len() != "regexp"@.len());
    reveal_strlit("ruby"); assert("verilog"@.len() != "ruby"@.len());
    reveal_strlit("rb"); assert("verilog"@.len() != "rb"@.len());
    reveal_strlit("rust"); assert("verilog"@.len() != "rust"@.len());
    reveal_strlit("rs"); assert("verilog"@.len() != "rs"@.len());
    reveal_strlit("scala"); assert("verilog"@.len() != "scala"@.len());
    reveal_strlit("sql"); assert("verilog"@.len() != "sql"@.len());
    reveal_strlit("svelte"); assert("verilog"@.len() != "svelte"@.len());
    reveal_strlit("swift"); assert("verilog"@.len() != "swift"@.len());
    reveal_strlit("toml"); assert("verilog"@.len() != "toml"@.len());
    reveal_strlit("tsx"); assert("verilog"@.len() != "tsx"@.len());
    reveal_strlit("typescript"); assert("verilog"@.len() != "typescript"@.len());
    reveal_strlit("ts"); assert("verilog"@.len() != "ts"@.len());
}

proof fn lemma_round_trip_yaml()
    ensures
        language_from_name(language_name(Language::Yaml)) == Language::Yaml,
{
    reveal_strlit("yaml");
    reveal_strlit("agda"); assert("yaml"@[0] != "agda"@[0]);
    reveal_strlit("astro"); assert("yaml"@.len() != "astro"@.len());
    reveal_strlit("bash"); assert("yaml"@[0] != "bash"@[0]);
    reveal_strlit("sh"); assert("yaml"@.len() != "sh"@.len());
    reveal_strlit("c"); assert("yaml"@.len() != "c"@.len());
    reveal_strlit("cmake"); assert("yaml"@.len() != "cmake"@.len());
    reveal_strlit("cpp"); assert("yaml"@.len() != "cpp"@.len());
    reveal_strlit("c++"); assert("yaml"@.len() != "c++"@.len());
    reveal_strlit("csharp"); assert("yaml"@.len() != "csharp"@.len());
    reveal_strlit("cs"); assert("yaml"@.len() != "cs"@.len());
    reveal_strlit("css"); assert("yaml"@.len() != "css"@.len());
    reveal_strlit("scss"); assert("yaml"@[0] != "scss"@[0]);
    reveal_strlit("diff"); assert("yaml"@[0] != "diff"@[0]);
    reveal_strlit("ejs"); assert("yaml"@.len() != "ejs"@.len());
    reveal_strlit("elixir"); assert("yaml"@.len() != "elixir"@.len());
    reveal_strlit("ex"); assert("yaml"@.len() != "ex"@.len());
    reveal_strlit("erb"); assert("yaml"@.len() != "erb"@.len());
    reveal_strlit("go"); assert("yaml"@.len() != "go"@.len());
    reveal_strlit("graphql"); assert("yaml"@.len() != "graphql"@.len());
    reveal_strlit("haskell"); assert("yaml"@.len() != "haskell"@.len());
    reveal_strlit("hs"); assert("yaml"@.len() != "hs"@.len());
    reveal_strlit("lhs"); assert("yaml"@.len() != "lhs"@.len());
    reveal_strlit("haskell_persistent"); assert("yaml"@.len() != "haskell_persistent"@.len());
    reveal_strlit("html"); assert("yaml"@[0] != "html"@[0]);
    reveal_strlit("java"); assert("yaml"@[0] != "java"@[0]);
    reveal_strlit("javascript"); assert("yaml"@.len() != "javascript"@.len());
    reveal_strlit("js"); assert("yaml"@.len() != "js"@.len());
    reveal_strlit("jsdoc"); assert("yaml"@.len() != "jsdoc"@.len());
    reveal_strlit("json"); assert("yaml"@[0] != "json"@[0]);
    reveal_strlit("jsonc"); assert("yaml"@.len() != "jsonc"@.len());
    reveal_strlit("julia"); assert("yaml"@.len() != "julia"@.len());
    reveal_strlit("jl"); assert("yaml"@.len() != "jl"@.len());
    reveal_strlit("kt"); assert("yaml"@.len() != "kt"@.len());
    reveal_strlit("kts"); assert("yaml"@.len() != "kts"@.len());
    reveal_strlit("ktm"); assert("yaml"@.len() != "ktm"@.len());
    reveal_strlit("lua"); assert("yaml"@.len() != "lua"@.len());
    reveal_strlit("make"); assert("yaml"@[0] != "make"@[0]);
    reveal_strlit("makefile"); assert("yaml"@.len() != "makefile"@.len());
    reveal_strlit("markdown"); assert("yaml"@.len() != "markdown"@.len());
    reveal_strlit("md"); assert("yaml"@.len() != "md"@.len());
    reveal_strlit("mdx"); assert("yaml"@.len() != "mdx"@.len());
    reveal_strlit("markdown_inline"); assert("yaml"@.len() != "markdown_inline"@.len());
    reveal_strlit("markdown-inline"); assert("yaml"@.len() != "markdown-inline"@.len());
    reveal_strlit("ocaml"); assert("yaml"@.len() != "ocaml"@.len());
    reveal_strlit("ml"); assert("yaml"@.len() != "ml"@.len());
    reveal_strlit("ocaml_interface"); assert("yaml"@.len() != "ocaml_interface"@.len());
    reveal_strlit("ocaml-interface"); assert("yaml"@.len() != "ocaml-interface"@.len());
    reveal_strlit("mli"); assert("yaml"@.len() != "mli"@.len());
    reveal_strlit("ocaml_type"); assert("yaml"@.len() != "ocaml_type"@.len());
    reveal_strlit("ocaml-type"); assert("yaml"@.len() != "ocaml-type"@.len());
    reveal_strlit("php"); assert("yaml"@.len() != "php"@.len());
    reveal_strlit("php3"); assert("yaml"@[0] != "php3"@[0]);
    reveal_strlit("php4"); assert("yaml"@[0] != "php4"@[0]);
    reveal_strlit("php5"); assert("yaml"@[0] != "php5"@[0]);
    reveal_strlit("phtml"); assert("yaml"@.len() != "phtml"@.len());
    reveal_strlit("proto"); assert("yaml"@.len() != "proto"@.len());
    reveal_strlit("protobuf"); assert("yaml"@.len() != "protobuf"@.len());
    reveal_strlit("python"); assert("yaml"@.len() != "python"@.len());
    reveal_strlit("py"); assert("yaml"@.len() != "py"@.len());
    reveal_strlit("ql"); assert("yaml"@.len() != "ql"@.len());
    reveal_strlit("ql_dbscheme"); assert("yaml"@.len() != "ql_dbscheme"@.len());
    reveal_strlit("ql-dbscheme"); assert("yaml"@.len() != "ql-dbscheme"@.len());
    reveal_strlit("dbscheme"); assert("yaml"@.len() != "dbscheme"@.len());
    reveal_strlit("razor"); assert("yaml"@.len() != "razor"@.len());
    reveal_strlit("cshtml"); assert("yaml"@.len() != "cshtml"@.len());
    reveal_strlit("regex"); assert("yaml"@.len() != "regex"@.len());
    reveal_strlit("regexp"); assert("yaml"@.len() != "regexp"@.len());
    reveal_strlit("ruby"); assert("yaml"@[0] != "ruby"@[0]);
    reveal_strlit("rb"); assert("yaml"@.len() != "rb"@.len());
    reveal_strlit("rust"); assert("yaml"@[0] != "rust"@[0]);
    reveal_strlit("rs"); assert("yaml"@.len() != "rs"@.len());
    reveal_strlit("scala"); assert("yaml"@.len() != "scala"@.len());
    reveal_strlit("sql"); assert("yaml"@.len() != "sql"@.len());
    reveal_strlit("svelte"); assert("yaml"@.len() != "svelte"@.len());
    reveal_strlit("swift"); assert("yaml"@.len() != "swift"@.len());
    reveal_strlit("toml"); assert("yaml"@[0] != "toml"@[0]);
    reveal_strlit("tsx"); assert("yaml"@.len() != "tsx"@.len());
    reveal_strlit("typescript"); assert("yaml"@.len() != "typescript"@.len());
    reveal_strlit("ts"); assert("yaml"@.len() != "ts"@.len());
    reveal_strlit("systemverilog"); assert("yaml"@.len() != "systemverilog"@.len());
    reveal_strlit("verilog"); assert("yaml"@.len() != "verilog"@.len());
    reveal_strlit("sv"); assert("yaml"@.len() != "sv"@.len());
    reveal_strlit("svh"); assert("yaml"@.len() != "svh"@.len());
    reveal_strlit("v"); assert("yaml"@.len() != "v"@.len());
    reveal_strlit("vh"); assert("yaml"@.len() != "vh"@.len());
}

proof fn lemma_round_trip_zig()
    ensures
        language_from_name(language_name(Language::Zig)) == Language::Zig,
{
    reveal_strlit("zig");
    reveal_strlit("agda"); assert("zig"@.len() != "agda"@.len());
    reveal_strlit("astro"); assert("zig"@.len() != "astro"@.len());
    reveal_strlit("bash"); assert("zig"@.len() != "bash"@.len());
    reveal_strlit("sh"); assert("zig"@.len() != "sh"@.len());
    reveal_strlit("c"); assert("zig"@.len() != "c"@.len());
    reveal_strlit("cmake"); assert("zig"@.len() != "cmake"@.len());
    reveal_strlit("cpp"); assert("zig"@[0] != "cpp"@[0]);
    reveal_strlit("c++"); assert("zig"@[0] != "c++"@[0]);
    reveal_strlit("csharp"); assert("zig"@.len() != "csharp"@.len());
    reveal_strlit("cs"); assert("zig"@.len() != "cs"@.len());
    reveal_strlit("css"); assert("zig"@[0] != "css"@[0]);
    reveal_strlit("scss"); assert("zig"@.len() != "scss"@.len());
    reveal_strlit("diff"); assert("zig"@.len() != "diff"@.len());
    reveal_strlit("ejs"); assert("zig"@[0] != "ejs"@[0]);
    reveal_strlit("elixir"); assert("zig"@.len() != "elixir"@.len());
    reveal_strlit("ex"); assert("zig"@.len() != "ex"@.len());
    reveal_strlit("erb"); assert("zig"@[0] != "erb"@[0]);
    reveal_strlit("go"); assert("zig"@.len() != "go"@.len());
    reveal_strlit("graphql"); assert("zig"@.len() != "graphql"@.len());
    reveal_strlit("haskell"); assert("zig"@.len() != "haskell"@.len());
    reveal_strlit("hs"); assert("zig"@.len() != "hs"@.len());
    reveal_strlit("lhs"); assert("zig"@[0] != "lhs"@[0]);
    reveal_strlit("haskell_persistent"); assert("zig"@.len() != "haskell_persistent"@.len());
    reveal_strlit("html"); assert("zig"@.len() != "html"@.len());
    reveal_strlit("java"); assert("zig"@.len() != "java"@.len());
    reveal_strlit("javascript"); assert("zig"@.len() != "javascript"@.len());
    reveal_strlit("js"); assert("zig"@.len() != "js"@.len());
    reveal_strlit("jsdoc"); assert("zig"@.len() != "jsdoc"@.len());
    reveal_strlit("json"); assert("zig"@.len() != "json"@.len());
    reveal_strlit("jsonc"); assert("zig"@.len() != "jsonc"@.len());
    reveal_strlit("julia"); assert("zig"@.len() != "julia"@.len());
    reveal_strlit("jl"); assert("zig"@.len() != "jl"@.len());
    reveal_strlit("kt"); assert("zig"@.len() != "kt"@.len());
    reveal_strlit("kts"); assert("zig"@[0] != "kts"@[0]);
    reveal_strlit("ktm"); assert("zig"@[0] != "ktm"@[0]);
    reveal_strlit("lua"); assert("zig"@[0] != "lua"@[0]);
    reveal_strlit("make"); assert("zig"@.len() != "make"@.len());
    reveal_strlit("makefile"); assert("zig"@.len() != "makefile"@.len());
    reveal_strlit("markdown"); assert("zig"@.len() != "markdown"@.len());
    reveal_strlit("md"); assert("zig"@.len() != "md"@.len());
    reveal_strlit("mdx"); assert("zig"@[0] != "mdx"@[0]);
    reveal_strlit("markdown_inline"); assert("zig"@.len() != "markdown_inline"@.len());
    reveal_strlit("markdown-inline"); assert("zig"@.len() != "markdown-inline"@.len());
    reveal_strlit("ocaml"); assert("zig"@.len() != "ocaml"@.len());
    reveal_strlit("ml"); assert("zig"@.len() != "ml"@.len());
    reveal_strlit("ocaml_interface"); assert("zig"@.len() != "ocaml_interface"@.len());
    reveal_strlit("ocaml-interface"); assert("zig"@.len() != "ocaml-interface"@.len());
    reveal_strlit("mli"); assert("zig"@[0] != "mli"@[0]);
    reveal_strlit("ocaml_type"); assert("zig"@.len() != "ocaml_type"@.len());
    reveal_strlit("ocaml-type"); assert("zig"@.len() != "ocaml-type"@.len());
    reveal_strlit("php"); assert("zig"@[0] != "php"@[0]);
    reveal_strlit("php3"); assert("zig"@.len() != "php3"@.len());
    reveal_strlit("php4"); assert("zig"@.len() != "php4"@.len());
    reveal_strlit("php5"); assert("zig"@.len() != "php5"@.len());
    reveal_strlit("phtml"); assert("zig"@.len() != "phtml"@.len());
    reveal_strlit("proto"); assert("zig"@.len() != "proto"@.len());
    reveal_strlit("protobuf"); assert("zig"@.len() != "protobuf"@.len());
    reveal_strlit("python"); assert("zig"@.len() != "python"@.len());
    reveal_strlit("py"); assert("zig"@.len() != "py"@.len());
    reveal_strlit("ql"); assert("zig"@.len() != "ql"@.len());
    reveal_strlit("ql_dbscheme"); assert("zig"@.len() != "ql_dbscheme"@.len());
    reveal_strlit("ql-dbscheme"); assert("zig"@.len() != "ql-dbscheme"@.len());
    reveal_strlit("dbscheme"); assert("zig"@.len() != "dbscheme"@.len());
    reveal_strlit("razor"); assert("zig"@.len() != "razor"@.len());
    reveal_strlit("cshtml"); assert("zig"@.len() != "cshtml"@.len());
    reveal_strlit("regex"); assert("zig"@.len() != "regex"@.len());
    reveal_strlit("regexp"); assert("zig"@.len() != "regexp"@.len());
    reveal_strlit("ruby"); assert("zig"@.len() != "ruby"@.len());
    reveal_strlit("rb"); assert("zig"@.len() != "rb"@.len());
    reveal_strlit("rust"); assert("zig"@.len() != "rust"@.len());
    reveal_strlit("rs"); assert("zig"@.len() != "rs"@.len());
    reveal_strlit("scala"); assert("zig"@.len() != "scala"@.len());
    reveal_strlit("sql"); assert("zig"@[0] != "sql"@[0]);
    reveal_strlit("svelte"); assert("zig"@.len() != "svelte"@.len());
    reveal_strlit("swift"); assert("zig"@.len() != "swift"@.len());
    reveal_strlit("toml"); assert("zig"@.len() != "toml"@.len());
    reveal_strlit("tsx"); assert("zig"@[0] != "tsx"@[0]);
    reveal_strlit("typescript"); assert("zig"@.len() != "typescript"@.len());
    reveal_strlit("ts"); assert("zig"@.len() != "ts"@.len());
    reveal_strlit("systemverilog"); assert("zig"@.len() != "systemverilog"@.len());
    reveal_strlit("verilog"); assert("zig"@.len() != "verilog"@.len());
    reveal_strlit("sv"); assert("zig"@.len() != "sv"@.len());
    reveal_strlit("svh"); assert("zig"@[0] != "svh"@[0]);
    reveal_strlit("v"); assert("zig"@.len() != "v"@.len());
    reveal_strlit("vh"); assert("zig"@.len() != "vh"@.len());
    reveal_strlit("yaml"); assert("zig"@.len() != "yaml"@.len());
    reveal_strlit("yml"); assert("zig"@[0] != "yml"@[0]);
}

/// Looking a language up by its own name gives the language back (every
/// language but Kotlin, whose name is not one of its aliases).
pub proof fn law_from_name_of_name(l: Language)
    requires
        l != Language::Kotlin,
    ensures
        language_from_name(language_name(l)) == l,
{
    match l {
        Language::Agda => lemma_round_trip_agda(),
        Language::Json => lemma_round_trip_json(),
        Language::Plain => lemma_round_trip_plain(),
        Language::Astro => lemma_round_trip_astro(),
        Language::Bash => lemma_round_trip_bash(),
        Language::C => lemma_round_trip_c(),
        Language::CMake => lemma_round_trip_c_make(),
        Language::CSharp => lemma_round_trip_c_sharp(),
        Language::Cpp => lemma_round_trip_cpp(),
        Language::Css => lemma_round_trip_css(),
        Language::Diff => lemma_round_trip_diff(),
        Language::Ejs => lemma_round_trip_ejs(),
        Language::Elixir => lemma_round_trip_elixir(),
        Language::Erb => lemma_round_trip_erb(),
        Language::Go => lemma_round_trip_go(),
        Language::GraphQL => lemma_round_trip_graph_q_l(),
        Language::Haskell => lemma_round_trip_haskell(),
        Language::Html => lemma_round_trip_html(),
        Language::Java => lemma_round_trip_java(),
        Language::JavaScript => lemma_round_trip_java_script(),
        Language::JsDoc => lemma_round_trip_js_doc(),
        Language::Julia => lemma_round_trip_julia(),
        Language::Kotlin => {},
        Language::Lua => lemma_round_trip_lua(),
        Language::Make => lemma_round_trip_make(),
        Language::Markdown => lemma_round_trip_markdown(),
        Language::MarkdownInline => lemma_round_trip_markdown_inline(),
        Language::Ocaml => lemma_round_trip_ocaml(),
        Language::OcamlInterface => lemma_round_trip_ocaml_interface(),
        Language::OcamlType => lemma_round_trip_ocaml_type(),
        Language::Php => lemma_round_trip_php(),
        Language::Proto => lemma_round_trip_proto(),
        Language::Python => lemma_round_trip_python(),
        Language::Ql => lemma_round_trip_ql(),
        Language::QlDbscheme => lemma_round_trip_ql_dbscheme(),
        Language::Razor => lemma_round_trip_razor(),
        Language::Regex => lemma_round_trip_regex(),
        Language::Ruby => lemma_round_trip_ruby(),
        Language::Rust => lemma_round_trip_rust(),
        Language::Scala => lemma_round_trip_scala(),
        Language::Sql => lemma_round_trip_sql(),
        Language::Svelte => lemma_round_trip_svelte(),
        Language::Swift => lemma_round_trip_swift(),
        Language::Toml => lemma_round_trip_toml(),
        Language::Tsx => lemma_round_trip_tsx(),
        Language::TypeScript => lemma_round_trip_type_script(),
        Language::Verilog => lemma_round_trip_verilog(),
        Language::Yaml => lemma_round_trip_yaml(),
        Language::Zig => lemma_round_trip_zig(),
    }
}


/// A character of a language name: a lower-case ASCII letter or `_`.
pub open spec fn name_char(c: char) -> bool {
    ('a' <= c <= 'z') || c == '_'
}

/// Every language name is non-empty and made of lower-case ASCII letters
/// and `_`.
pub proof fn law_names_are_lower_case(l: Language)
    ensures
        language_name(l).len() > 0,
        forall|i: int|
            0 <= i < language_name(l).len() ==> #[trigger] name_char(language_name(l)[i]),
{
    match l {
        Language::Agda => {
            reveal_strlit("agda");
        },
        Language::Plain => {
            reveal_strlit("text");
        },
        Language::Astro => {
            reveal_strlit("astro");
        },
        Language::Bash => {
            reveal_strlit("bash");
        },
        Language::C => {
            reveal_strlit("c");
        },
        Language::CMake => {
            reveal_strlit("cmake");
        },
        Language::CSharp => {
            reveal_strlit("csharp");
        },
        Language::Cpp => {
            reveal_strlit("cpp");
        },
        Language::Css => {
            reveal_strlit("css");
        },
        Language::Diff => {
            reveal_strlit("diff");
        },
        Language::Ejs => {
            reveal_strlit("ejs");
        },
        Language::Elixir => {
            reveal_strlit("elixir");
        },
        Language::Erb => {
            reveal_strlit("erb");
        },
        Language::Go => {
            reveal_strlit("go");
        },
        Language::GraphQL => {
            reveal_strlit("graphql");
        },
        Language::Haskell => {
            reveal_strlit("haskell");
        },
        Language::Html => {
            reveal_strlit("html");
        },
        Language::Java => {
            reveal_strlit("java");
        },
        Language::JavaScript => {
            reveal_strlit("javascript");
        },
        Language::JsDoc => {
            reveal_strlit("jsdoc");
        },
        Language::Json => {
            reveal_strlit("json");
        },
        Language::Julia => {
            reveal_strlit("julia");
        },
        Language::Kotlin => {
            reveal_strlit("kotlin");
        },
        Language::Lua => {
            reveal_strlit("lua");
        },
        Language::Make => {
            reveal_strlit("make");
        },
        Language::Markdown => {
            reveal_strlit("markdown");
        },
        Language::MarkdownInline => {
            reveal_strlit("markdown_inline");
        },
        Language::Ocaml => {
            reveal_strlit("ocaml");
        },
        Language::OcamlInterface => {
            reveal_strlit("ocaml_interface");
        },
        Language::OcamlType => {
            reveal_strlit("ocaml_type");
        },
        Language::Php => {
            reveal_strlit("php");
        },
        Language::Proto => {
            reveal_strlit("proto");
        },
        Language::Python => {
            reveal_strlit("python");
        },
        Language::Ql => {
            reveal_strlit("ql");
        },
        Language::QlDbscheme => {
            reveal_strlit("ql_dbscheme");
        },
        Language::Razor => {
            reveal_strlit("razor");
        },
        Language::Regex => {
            reveal_strlit("regex");
        },
        Language::Ruby => {
            reveal_strlit("ruby");
        },
        Language::Rust => {
            reveal_strlit("rust");
        },
        Language::Scala => {
            reveal_strlit("scala");
        },
        Language::Sql => {
            reveal_strlit("sql");
        },
        Language::Svelte => {
            reveal_strlit("svelte");
        },
        Language::Swift => {
            reveal_strlit("swift");
        },
        Language::Toml => {
            reveal_strlit("toml");
        },
        Language::Tsx => {
            reveal_strlit("tsx");
        },
        Language::TypeScript => {
            reveal_strlit("typescript");
        },
        Language::Verilog => {
            reveal_strlit("verilog");
        },
        Language::Yaml => {
            reveal_strlit("yaml");
        },
        Language::Zig => {
            reveal_strlit("zig");
        },
    }
}

/// No language other than Kotlin is named "kotlin".
proof fn lemma_only_kotlin_is_named_kotlin(l: Language)
    requires
        l != Language::Kotlin,
    ensures
        language_name(l) != "kotlin"@,
{
    reveal_strlit("kotlin");
    match l {
        Language::Agda => {
            reveal_strlit("agda");
            assert("agda"@.len() != "kotlin"@.len());
        },
        Language::Plain => {
            reveal_strlit("text");
            assert("text"@.len() != "kotlin"@.len());
        },
        Language::Astro => {
            reveal_strlit("astro");
            assert("astro"@.len() != "kotlin"@.len());
        },
        Language::Bash => {
            reveal_strlit("bash");
            assert("bash"@.len() != "kotlin"@.len());
        },
        Language::C => {
            reveal_strlit("c");
            assert("c"@.len() != "kotlin"@.len());
        },
        Language::CMake => {
            reveal_strlit("cmake");
            assert("cmake"@.len() != "kotlin"@.len());
        },
        Language::CSharp => {
            reveal_strlit("csharp");
            assert("csharp"@[0] != "kotlin"@[0]);
        },
        Language::Cpp => {
            reveal_strlit("cpp");
            assert("cpp"@.len() != "kotlin"@.len());
        },
        Language::Css => {
            reveal_strlit("css");
            assert("css"@.len() != "kotlin"@.len());
        },
        Language::Diff => {
            reveal_strlit("diff");
            assert("diff"@.len() != "kotlin"@.len());
        },
        Language::Ejs => {
            reveal_strlit("ejs");
            assert("ejs"@.len() != "kotlin"@.len());
        },
        Language::Elixir => {
            reveal_strlit("elixir");
            assert("elixir"@[0] != "kotlin"@[0]);
        },
        Language::Erb => {
            reveal_strlit("erb");
            assert("erb"@.len() != "kotlin"@.len());
        },
        Language::Go => {
            reveal_strlit("go");
            assert("go"@.len() != "kotlin"@.len());
        },
        Language::GraphQL => {
            reveal_strlit("graphql");
            assert("graphql"@.len() != "kotlin"@.len());
        },
        Language::Haskell => {
            reveal_strlit("haskell");
            assert("haskell"@.len() != "kotlin"@.len());
        },
        Language::Html => {
            reveal_strlit("html");
            assert("html"@.len() != "kotlin"@.len());
        },
        Language::Java => {
            reveal_strlit("java");
            assert("java"@.len() != "kotlin"@.len());
        },
        Language::JavaScript => {
            reveal_strlit("javascript");
            assert("javascript"@.len() != "kotlin"@.len());
        },
        Language::JsDoc => {
            reveal_strlit("jsdoc");
            assert("jsdoc"@.len() != "kotlin"@.len());
        },
        Language::Json => {
            reveal_strlit("json");
            assert("json"@.len() != "kotlin"@.len());
        },
        Language::Julia => {
            reveal_strlit("julia");
            assert("julia"@.len() != "kotlin"@.len());
        },
        Language::Kotlin => {},
        Language::Lua => {
            reveal_strlit("lua");
            assert("lua"@.len() != "kotlin"@.len());
        },
        Language::Make => {
            reveal_strlit("make");
            assert("make"@.len() != "kotlin"@.len());
        },
        Language::Markdown => {
            reveal_strlit("markdown");
            assert("markdown"@.len() != "kotlin"@.len());
        },
        Language::MarkdownInline => {
            reveal_strlit("markdown_inline");
            assert("markdown_inline"@.len() != "kotlin"@.len());
        },
        Language::Ocaml => {
            reveal_strlit("ocaml");
            assert("ocaml"@.len() != "kotlin"@.len());
        },
        Language::OcamlInterface => {
            reveal_strlit("ocaml_interface");
            assert("ocaml_interface"@.len() != "kotlin"@.len());
        },
        Language::OcamlType => {
            reveal_strlit("ocaml_type");
            assert("ocaml_type"@.len() != "kotlin"@.len());
        },
        Language::Php => {
            reveal_strlit("php");
            assert("php"@.len() != "kotlin"@.len());
        },
        Language::Proto => {
            reveal_strlit("proto");
            assert("proto"@.len() != "kotlin"@.len());
        },
        Language::Python => {
            reveal_strlit("python");
            assert("python"@[0] != "kotlin"@[0]);
        },
        Language::Ql => {
            reveal_strlit("ql");
            assert("ql"@.len() != "kotlin"@.len());
        },
        Language::QlDbscheme => {
            reveal_strlit("ql_dbscheme");
            assert("ql_dbscheme"@.len() != "kotlin"@.len());
        },
        Language::Razor => {
            reveal_strlit("razor");
            assert("razor"@.len() != "kotlin"@.len());
        },
        Language::Regex => {
            reveal_strlit("regex");
            assert("regex"@.len() != "kotlin"@.len());
        },
        Language::Ruby => {
            reveal_strlit("ruby");
            assert("ruby"@.len() != "kotlin"@.len());
        },
        Language::Rust => {
            reveal_strlit("rust");
            assert("rust"@.len() != "kotlin"@.len());
        },
        Language::Scala => {
            reveal_strlit("scala");
            assert("scala"@.len() != "kotlin"@.len());
        },
        Language::Sql => {
            reveal_strlit("sql");
            assert("sql"@.len() != "kotlin"@.len());
        },
        Language::Svelte => {
            reveal_strlit("svelte");
            assert("svelte"@[0] != "kotlin"@[0]);
        },
        Language::Swift => {
            reveal_strlit("swift");
            assert("swift"@.len() != "kotlin"@.len());
        },
        Language::Toml => {
            reveal_strlit("toml");
            assert("toml"@.len() != "kotlin"@.len());
        },
        Language::Tsx => {
            reveal_strlit("tsx");
            assert("tsx"@.len() != "kotlin"@.len());
        },
        Language::TypeScript => {
            reveal_strlit("typescript");
            assert("typescript"@.len() != "kotlin"@.len());
        },
        Language::Verilog => {
            reveal_strlit("verilog");
            assert("verilog"@.len() != "kotlin"@.len());
        },
        Language::Yaml => {
            reveal_strlit("yaml");
            assert("yaml"@.len() != "kotlin"@.len());
        },
        Language::Zig => {
            reveal_strlit("zig");
            assert("zig"@.len() != "kotlin"@.len());
        },
    }
}

/// Different languages have different names.
pub proof fn law_names_are_distinct(a: Language, b: Language)
    requires
        a != b,
    ensures
        language_name(a) != language_name(b),
{
    if a == Language::Kotlin {
        lemma_only_kotlin_is_named_kotlin(b);
    } else if b == Language::Kotlin {
        lemma_only_kotlin_is_named_kotlin(a);
    } else {
        law_from_name_of_name(a);
        law_from_name_of_name(b);
    }
}

} // verus!
