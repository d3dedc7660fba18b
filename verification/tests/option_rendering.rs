//! Every rendering class of the option catalog, on concrete values.

use pandoc::EmailObfuscation;
use pandoc::PandocOption;
use pandoc::PandocRuntimeSystemOption;
use pandoc::Tld;
use pandoc::TrackChanges;

fn tokens(o: &PandocOption) -> Vec<String> {
    o.apply(false)
}

#[test]
fn boolean_presence_flags_render_to_one_fixed_token() {
    assert_eq!(tokens(&PandocOption::Strict), vec!["--strict".to_string()]);
    assert_eq!(tokens(&PandocOption::Standalone), vec!["--standalone".to_string()]);
    assert_eq!(
        tokens(&PandocOption::TableOfContents),
        vec!["--table-of-contents".to_string()]
    );
    assert_eq!(tokens(&PandocOption::Sandbox), vec!["--sandbox".to_string()]);
}

#[test]
fn valued_flags_render_to_name_equals_value() {
    assert_eq!(
        tokens(&PandocOption::DataDir("some/dir".to_string())),
        vec!["--data-dir=some/dir".to_string()]
    );
    assert_eq!(
        tokens(&PandocOption::IndentedCodeClasses("cake".to_string())),
        vec!["--indented-code-classes=cake".to_string()]
    );
    assert_eq!(
        tokens(&PandocOption::EOL("crlf".to_string())),
        vec!["--eol=crlf".to_string()]
    );
}

#[test]
fn numeric_flags_render_their_exact_decimal_value() {
    assert_eq!(
        tokens(&PandocOption::TabStop(0)),
        vec!["--tab-stop=0".to_string()]
    );
    assert_eq!(
        tokens(&PandocOption::Columns(120)),
        vec!["--columns=120".to_string()]
    );
    assert_eq!(
        tokens(&PandocOption::BaseHeaderLevel(4294967295)),
        vec!["--base-header-level=4294967295".to_string()]
    );
    assert_eq!(
        tokens(&PandocOption::ShiftHeadingLevelBy(-3)),
        vec!["--shift-heading-level-by=-3".to_string()]
    );
    assert_eq!(
        tokens(&PandocOption::ShiftHeadingLevelBy(-2147483648)),
        vec!["--shift-heading-level-by=-2147483648".to_string()]
    );
    assert_eq!(
        tokens(&PandocOption::SlideLevel(3)),
        vec!["--slide-level=3".to_string()]
    );
}

#[test]
fn key_value_flags_render_to_two_tokens() {
    assert_eq!(
        tokens(&PandocOption::Meta("key".to_string(), None)),
        vec!["-M".to_string(), "key".to_string()]
    );
    assert_eq!(
        tokens(&PandocOption::Meta("key".to_string(), Some("value".to_string()))),
        vec!["-M".to_string(), "key:value".to_string()]
    );
    assert_eq!(
        tokens(&PandocOption::Var("lang".to_string(), Some("de".to_string()))),
        vec!["-V".to_string(), "lang:de".to_string()]
    );
}

#[test]
fn optional_url_flags_render_with_or_without_value() {
    assert_eq!(tokens(&PandocOption::MathJax(None)), vec!["--mathjax".to_string()]);
    assert_eq!(
        tokens(&PandocOption::MathJax(Some("https://example.org/mj.js".to_string()))),
        vec!["--mathjax=https://example.org/mj.js".to_string()]
    );
    assert_eq!(
        tokens(&PandocOption::KatexStylesheet("style.css".to_string())),
        vec!["--katex-stylesheet=style.css".to_string()]
    );
}

#[test]
fn numeric_lists_join_with_comma_space() {
    assert_eq!(
        tokens(&PandocOption::NumberOffset(vec![1, 2, 30])),
        vec!["--number-offset=1, 2, 30".to_string()]
    );
    assert_eq!(
        tokens(&PandocOption::NumberOffset(vec![7])),
        vec!["--number-offset=7".to_string()]
    );
    assert_eq!(
        tokens(&PandocOption::NumberOffset(Vec::new())),
        vec!["--number-offset=".to_string()]
    );
}

#[test]
fn path_lists_join_with_the_platform_delimiter() {
    let paths = vec!["a/b".to_string(), "c".to_string()];
    assert_eq!(
        PandocOption::ResourcePath(paths.clone()).apply(false),
        vec!["--resource-path=a/b:c".to_string()]
    );
    assert_eq!(
        PandocOption::ResourcePath(paths).apply(true),
        vec!["--resource-path=a/b;c".to_string()]
    );
}

#[test]
fn runtime_system_options_are_bracketed_between_sentinels() {
    let o = PandocOption::RuntimeSystem(vec![
        PandocRuntimeSystemOption::MaximumHeapMemory("512M".to_string()),
    ]);
    assert_eq!(
        tokens(&o),
        vec!["+RTS".to_string(), "-M512M".to_string(), "-RTS".to_string()]
    );
    assert_eq!(
        tokens(&PandocOption::RuntimeSystem(Vec::new())),
        vec!["+RTS".to_string(), "-RTS".to_string()]
    );
}

#[test]
fn enumerated_choices_render_their_fixed_names() {
    assert_eq!(
        tokens(&PandocOption::TopLevelDivision(Tld::Chapter)),
        vec!["--top-level-division=chapter".to_string()]
    );
    assert_eq!(
        tokens(&PandocOption::TopLevelDivision(Tld::Section)),
        vec!["--top-level-division=section".to_string()]
    );
    assert_eq!(
        tokens(&PandocOption::TopLevelDivision(Tld::Part)),
        vec!["--top-level-division=part".to_string()]
    );
    assert_eq!(
        tokens(&PandocOption::TrackChanges(TrackChanges::Reject)),
        vec!["--track-changes=reject".to_string()]
    );
    assert_eq!(
        tokens(&PandocOption::EmailObfuscation(EmailObfuscation::Javascript)),
        vec!["--email-obfuscation=javascript".to_string()]
    );
}

#[test]
fn renamed_options_render_to_the_current_spelling() {
    assert_eq!(
        tokens(&PandocOption::AtxHeaders),
        vec!["--markdown-headings=atx".to_string()]
    );
    assert_eq!(
        tokens(&PandocOption::ReferenceDocx("style.docx".to_string())),
        vec!["--reference-doc=style.docx".to_string()]
    );
    assert_eq!(
        tokens(&PandocOption::ReferenceDoc("style.docx".to_string())),
        vec!["--reference-doc=style.docx".to_string()]
    );
    assert_eq!(tokens(&PandocOption::NoWrap), vec!["--wrap=none".to_string()]);
}

#[test]
fn rendering_is_deterministic_on_repeated_calls() {
    let o = PandocOption::Var("geometry".to_string(), Some("margin=1in".to_string()));
    assert_eq!(o.apply(false), o.apply(false));
    assert_eq!(o.apply(true), o.apply(true));
    let p = PandocOption::NumberOffset(vec![3, 1, 2]);
    assert_eq!(p.apply(false), p.apply(false));
}

#[test]
fn format_names_render_as_the_converter_expects() {
    assert_eq!(pandoc::OutputFormat::Beamer.name(), "beamer");
    assert_eq!(pandoc::OutputFormat::MarkdownGithub.name(), "markdown_github");
    assert_eq!(pandoc::OutputFormat::Lua("writer.lua".to_string()).name(), "writer.lua");
    assert_eq!(pandoc::OutputFormat::Other("gfm".to_string()).name(), "gfm");
    assert_eq!(pandoc::InputFormat::T2t.name(), "t2t");
    assert_eq!(pandoc::InputFormat::Other("creole".to_string()).name(), "creole");
    assert_eq!(pandoc::MarkdownExtension::HardLineBreaks.name(), "hard_line_breaks");
    assert_eq!(pandoc::MarkdownExtension::MmdTitleBlock.name(), "Mmd_title_block");
}
