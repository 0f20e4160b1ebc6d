use woocraft::languages::Language;

#[test]
fn test_language_name() {
    assert_eq!(Language::Agda.name(), "agda");
    assert_eq!(Language::Haskell.name(), "haskell");
    assert_eq!(Language::MarkdownInline.name(), "markdown_inline");
    assert_eq!(Language::Markdown.name(), "markdown");
    assert_eq!(Language::Json.name(), "json");
    assert_eq!(Language::Julia.name(), "julia");
    assert_eq!(Language::Ocaml.name(), "ocaml");
    assert_eq!(Language::OcamlInterface.name(), "ocaml_interface");
    assert_eq!(Language::OcamlType.name(), "ocaml_type");
    assert_eq!(Language::Ql.name(), "ql");
    assert_eq!(Language::QlDbscheme.name(), "ql_dbscheme");
    assert_eq!(Language::Razor.name(), "razor");
    assert_eq!(Language::Regex.name(), "regex");
    assert_eq!(Language::Yaml.name(), "yaml");
    assert_eq!(Language::Verilog.name(), "verilog");
    assert_eq!(Language::Rust.name(), "rust");
    assert_eq!(Language::Go.name(), "go");
    assert_eq!(Language::C.name(), "c");
    assert_eq!(Language::Cpp.name(), "cpp");
    assert_eq!(Language::Sql.name(), "sql");
    assert_eq!(Language::JavaScript.name(), "javascript");
    assert_eq!(Language::Zig.name(), "zig");
    assert_eq!(Language::CSharp.name(), "csharp");
    assert_eq!(Language::TypeScript.name(), "typescript");
    assert_eq!(Language::Tsx.name(), "tsx");
    assert_eq!(Language::Diff.name(), "diff");
    assert_eq!(Language::Elixir.name(), "elixir");
    assert_eq!(Language::Erb.name(), "erb");
    assert_eq!(Language::Ejs.name(), "ejs");
}

#[test]
fn test_language_aliases() {
    assert_eq!(Language::from_name("hs"), Language::Haskell);
    assert_eq!(Language::from_name("jl"), Language::Julia);
    assert_eq!(Language::from_name("mli"), Language::OcamlInterface);
    assert_eq!(Language::from_name("ocaml-type"), Language::OcamlType);
    assert_eq!(Language::from_name("ql-dbscheme"), Language::QlDbscheme);
    assert_eq!(Language::from_name("cshtml"), Language::Razor);
    assert_eq!(Language::from_name("regexp"), Language::Regex);
    assert_eq!(Language::from_name("sv"), Language::Verilog);
}

#[test]
fn from_name_of_name_gives_the_language_back() {
    for language in Language::all() {
        if language != Language::Kotlin {
            assert_eq!(Language::from_name(language.name()), language);
        }
    }
}

#[test]
fn unknown_names_fall_back_to_plain_text() {
    assert_eq!(Language::from_name("no-such-language"), Language::Plain);
}

#[test]
fn language_names_are_lower_case_and_distinct() {
    let all = Language::all();
    for (i, a) in all.iter().enumerate() {
        let name = a.name();
        assert!(!name.is_empty());
        assert!(name.chars().all(|c| c.is_ascii_lowercase() || c == '_'));
        for b in all.iter().skip(i + 1) {
            assert_ne!(name, b.name());
        }
    }
    assert_eq!(Language::Plain.name(), "text");
}

#[test]
fn parsing_a_language_never_fails() {
    assert_eq!("hs".parse::<Language>(), Ok(Language::Haskell));
    assert_eq!("no-such-language".parse::<Language>(), Ok(Language::Plain));
}
