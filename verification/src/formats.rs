//! The converter's format names and markdown extension names.
//!
//! Input and output formats are open enumerations: a closed set of
//! well-known names plus an escape hatch carrying an arbitrary string, so
//! newer converter versions can be addressed without code changes. A format
//! may carry a list of markdown extensions; the rendered format token is the
//! format name followed by `+extension` for each extension, in order.

use vstd::prelude::*;

verus! {

/// A format the converter writes, as named on its command line.
#[derive(Debug, Clone)]
#[non_exhaustive]
pub enum OutputFormat {
    /// native Haskell
    Native,
    /// JSON version of native AST
    Json,
    /// plain text
    Plain,
    /// pandoc's extended markdown
    Markdown,
    /// original unextended markdown
    MarkdownStrict,
    /// PHP Markdown extra extended markdown
    MarkdownPhpextra,
    /// github extended markdown
    MarkdownGithub,
    /// CommonMark markdown
    Commonmark,
    /// CommonMark markdown with extensions
    CommonmarkX,
    /// reStructuredText
    Rst,
    /// XHTML 1
    Html,
    /// HTML 5
    Html5,
    /// LaTeX
    Latex,
    /// LaTeX beamer slide show
    Beamer,
    /// ConTeXt
    Context,
    /// PDF (via LaTeX)
    Pdf,
    /// Groff man
    Man,
    /// MediaWiki markup
    MediaWiki,
    /// DokuWiki markup
    Dokuwiki,
    /// Textile
    Textile,
    /// Emacs Org-Mode
    Org,
    /// GNU Texinfo
    Texinfo,
    /// OPML
    Opml,
    /// DocBook
    Docbook,
    /// Open Document
    OpenDocument,
    /// OpenOffice text document
    Odt,
    /// Word docx
    Docx,
    /// Haddock markup
    Haddock,
    /// rich text format
    Rtf,
    /// EPUB v2 book
    Epub,
    /// EPUB v3
    Epub3,
    /// FictionBook2 e-book
    Fb2,
    /// AsciiDoc
    Asciidoc,
    /// InDesign ICML
    Icml,
    /// Slidy HTML and javascript slide show
    Slidy,
    /// Slideous HTML and javascript slide show
    Slideous,
    /// DZSlides HTML5 + javascript slide show
    Dzslides,
    /// reveal.js HTML5 + javascript slide show
    Revealjs,
    /// S5 HTML and javascript slide show
    S5,
    /// the path of a custom lua writer
    Lua(String),
    /// any format name the converter accepts beyond the well-known ones
    Other(String),
}

/// A format the converter reads, as named on its command line.
#[derive(Debug, Clone)]
#[non_exhaustive]
pub enum InputFormat {
    /// native Haskell
    Native,
    /// JSON version of native AST
    Json,
    /// pandoc's extended markdown
    Markdown,
    /// original unextended markdown
    MarkdownStrict,
    /// PHP Markdown extra extended markdown
    MarkdownPhpextra,
    /// github extended markdown
    MarkdownGithub,
    /// CommonMark markdown
    Commonmark,
    /// CommonMark markdown with extensions
    CommonmarkX,
    /// Textile
    Textile,
    /// reStructuredText
    Rst,
    /// rich text format
    Rtf,
    /// HTML
    Html,
    /// DocBook
    DocBook,
    /// txt2tags
    T2t,
    /// Word docx
    Docx,
    /// EPUB
    Epub,
    /// OPML
    Opml,
    /// Emacs Org-Mode
    Org,
    /// MediaWiki markup
    MediaWiki,
    /// TWiki markup
    Twiki,
    /// Haddock markup
    Haddock,
    /// LaTeX
    Latex,
    /// any format name the converter accepts beyond the well-known ones
    Other(String),
}

/// A markdown extension, switchable on top of a base format.
#[allow(missing_docs)]
#[derive(Debug, Clone)]
#[non_exhaustive]
pub enum MarkdownExtension {
    Smart,
    Attributes,
    EscapedLineBreaks,
    BlankBeforeHeader,
    HeaderAttributes,
    AutoIdentifiers,
    ImplicitHeaderReferences,
    BlankBeforeBlockQuote,
    FencedDivs,
    FencedCodeBlocks,
    BacktickCodeBlocks,
    FencedCodeAttributes,
    LineBlocks,
    FancyLists,
    Startnum,
    TaskLists,
    DefinitionLists,
    ExampleLists,
    TableCaptions,
    SimpleTables,
    MultilineTables,
    GridTables,
    PipeTables,
    PandocTitleBlock,
    YamlMetadataBlock,
    AllSymbolsEscapable,
    IntrawordUnderscores,
    Strikeout,
    Superscript,
    Subscript,
    InlineCodeAttributes,
    TexMathDollars,
    RawAttribute,
    RawHtml,
    MarkdownInHtmlBlocks,
    NativeDivs,
    NativeSpans,
    BracketedSpans,
    RawTex,
    LatexMacros,
    ShortcutReferenceLinks,
    ImplicitFigures,
    Footnotes,
    InlineNotes,
    Citations,
    ListsWithoutPrecedingBlankline,
    HardLineBreaks,
    IgnoreLineBreaks,
    TexMathSingleBackslash,
    TexMathDoubleBackslash,
    MarkdownAttribute,
    MmdTitleBlock,
    Abbreviations,
    AutolinkBareUris,
    AsciiIdentifiers,
    LinkAttributes,
    MmdHeaderIdentifiers,
    CompactDefinitionLists,
    RebaseRelativePaths,
    /// any extension name the converter accepts beyond the well-known ones
    Other(String),
}

/// The command-line name of an output format. A custom lua writer is named
/// by its path.
pub open spec fn output_format_name(f: OutputFormat) -> Seq<char> {
    match f {
        OutputFormat::Native => "native"@,
        OutputFormat::Json => "json"@,
        OutputFormat::Plain => "plain"@,
        OutputFormat::Markdown => "markdown"@,
        OutputFormat::MarkdownStrict => "markdown_strict"@,
        OutputFormat::MarkdownPhpextra => "markdown_phpextra"@,
        OutputFormat::MarkdownGithub => "markdown_github"@,
        OutputFormat::Commonmark => "commonmark"@,
        OutputFormat::CommonmarkX => "commonmark_x"@,
        OutputFormat::Rst => "rst"@,
        OutputFormat::Html => "html"@,
        OutputFormat::Html5 => "html5"@,
        OutputFormat::Latex => "latex"@,
        OutputFormat::Beamer => "beamer"@,
        OutputFormat::Context => "context"@,
        OutputFormat::Pdf => "pdf"@,
        OutputFormat::Man => "man"@,
        OutputFormat::MediaWiki => "mediawiki"@,
        OutputFormat::Dokuwiki => "dokuwiki"@,
        OutputFormat::Textile => "textile"@,
        OutputFormat::Org => "org"@,
        OutputFormat::Texinfo => "texinfo"@,
        OutputFormat::Opml => "opml"@,
        OutputFormat::Docbook => "docbook"@,
        OutputFormat::OpenDocument => "open_document"@,
        OutputFormat::Odt => "odt"@,
        OutputFormat::Docx => "docx"@,
        OutputFormat::Haddock => "haddock"@,
        OutputFormat::Rtf => "rtf"@,
        OutputFormat::Epub => "epub"@,
        OutputFormat::Epub3 => "epub3"@,
        OutputFormat::Fb2 => "fb2"@,
        OutputFormat::Asciidoc => "asciidoc"@,
        OutputFormat::Icml => "icml"@,
        OutputFormat::Slidy => "slidy"@,
        OutputFormat::Slideous => "slideous"@,
        OutputFormat::Dzslides => "dzslides"@,
        OutputFormat::Revealjs => "revealjs"@,
        OutputFormat::S5 => "s5"@,
        OutputFormat::Lua(s) => s@,
        OutputFormat::Other(s) => s@,
    }
}

/// The command-line name of an input format.
pub open spec fn input_format_name(f: InputFormat) -> Seq<char> {
    match f {
        InputFormat::Native => "native"@,
        InputFormat::Json => "json"@,
        InputFormat::Markdown => "markdown"@,
        InputFormat::MarkdownStrict => "markdown_strict"@,
        InputFormat::MarkdownPhpextra => "markdown_phpextra"@,
        InputFormat::MarkdownGithub => "markdown_github"@,
        InputFormat::Commonmark => "commonmark"@,
        InputFormat::CommonmarkX => "commonmark_x"@,
        InputFormat::Textile => "textile"@,
        InputFormat::Rst => "rst"@,
        InputFormat::Rtf => "rtf"@,
        InputFormat::Html => "html"@,
        InputFormat::DocBook => "docbook"@,
        InputFormat::T2t => "t2t"@,
        InputFormat::Docx => "docx"@,
        InputFormat::Epub => "epub"@,
        InputFormat::Opml => "opml"@,
        InputFormat::Org => "org"@,
        InputFormat::MediaWiki => "mediawiki"@,
        InputFormat::Twiki => "twiki"@,
        InputFormat::Haddock => "haddock"@,
        InputFormat::Latex => "latex"@,
        InputFormat::Other(s) => s@,
    }
}

/// The command-line name of a markdown extension.
pub open spec fn md_ext_name(e: MarkdownExtension) -> Seq<char> {
    match e {
        MarkdownExtension::Smart => "smart"@,
        MarkdownExtension::Attributes => "attributes"@,
        MarkdownExtension::EscapedLineBreaks => "escaped_line_breaks"@,
        MarkdownExtension::BlankBeforeHeader => "blank_before_header"@,
        MarkdownExtension::HeaderAttributes => "header_attributes"@,
        MarkdownExtension::AutoIdentifiers => "auto_identifiers"@,
        MarkdownExtension::ImplicitHeaderReferences => "implicit_header_references"@,
        MarkdownExtension::BlankBeforeBlockQuote => "blank_before_block_quote"@,
        MarkdownExtension::FencedDivs => "fenced_divs"@,
        MarkdownExtension::FencedCodeBlocks => "fenced_code_blocks"@,
        MarkdownExtension::BacktickCodeBlocks => "backtick_code_blocks"@,
        MarkdownExtension::FencedCodeAttributes => "fenced_code_attributes"@,
        MarkdownExtension::LineBlocks => "line_blocks"@,
        MarkdownExtension::FancyLists => "fancy_lists"@,
        MarkdownExtension::Startnum => "startnum"@,
        MarkdownExtension::TaskLists => "task_lists"@,
        MarkdownExtension::DefinitionLists => "definition_lists"@,
        MarkdownExtension::ExampleLists => "example_lists"@,
        MarkdownExtension::TableCaptions => "table_captions"@,
        MarkdownExtension::SimpleTables => "simple_tables"@,
        MarkdownExtension::MultilineTables => "multiline_tables"@,
        MarkdownExtension::GridTables => "grid_tables"@,
        MarkdownExtension::PipeTables => "pipe_tables"@,
        MarkdownExtension::PandocTitleBlock => "pandoc_title_block"@,
        MarkdownExtension::YamlMetadataBlock => "yaml_metadata_block"@,
        MarkdownExtension::AllSymbolsEscapable => "all_symbols_escapable"@,
        MarkdownExtension::IntrawordUnderscores => "intraword_underscores"@,
        MarkdownExtension::Strikeout => "strikeout"@,
        MarkdownExtension::Superscript => "superscript"@,
        MarkdownExtension::Subscript => "subscript"@,
        MarkdownExtension::InlineCodeAttributes => "inline_code_attributes"@,
        MarkdownExtension::TexMathDollars => "tex_math_dollars"@,
        MarkdownExtension::RawAttribute => "raw_attribute"@,
        MarkdownExtension::RawHtml => "raw_html"@,
        MarkdownExtension::MarkdownInHtmlBlocks => "markdown_in_html_blocks"@,
        MarkdownExtension::NativeDivs => "native_divs"@,
        MarkdownExtension::NativeSpans => "native_spans"@,
        MarkdownExtension::BracketedSpans => "bracketed_spans"@,
        MarkdownExtension::RawTex => "raw_tex"@,
        MarkdownExtension::LatexMacros => "latex_macros"@,
        MarkdownExtension::ShortcutReferenceLinks => "shortcut_reference_links"@,
        MarkdownExtension::ImplicitFigures => "implicit_figures"@,
        MarkdownExtension::Footnotes => "footnotes"@,
        MarkdownExtension::InlineNotes => "inline_notes"@,
        MarkdownExtension::Citations => "citations"@,
        MarkdownExtension::ListsWithoutPrecedingBlankline => "lists_without_preceding_blankline"@,
        MarkdownExtension::HardLineBreaks => "hard_line_breaks"@,
        MarkdownExtension::IgnoreLineBreaks => "ignore_line_breaks"@,
        MarkdownExtension::TexMathSingleBackslash => "tex_math_single_backslash"@,
        MarkdownExtension::TexMathDoubleBackslash => "tex_math_double_backslash"@,
        MarkdownExtension::MarkdownAttribute => "markdown_attribute"@,
        MarkdownExtension::MmdTitleBlock => "Mmd_title_block"@,
        MarkdownExtension::Abbreviations => "abbreviations"@,
        MarkdownExtension::AutolinkBareUris => "autolink_bare_uris"@,
        MarkdownExtension::AsciiIdentifiers => "ascii_identifiers"@,
        MarkdownExtension::LinkAttributes => "link_attributes"@,
        MarkdownExtension::MmdHeaderIdentifiers => "mmd_header_identifiers"@,
        MarkdownExtension::CompactDefinitionLists => "compact_definition_lists"@,
        MarkdownExtension::RebaseRelativePaths => "rebase_relative_paths"@,
        MarkdownExtension::Other(s) => s@,
    }
}

impl OutputFormat {
    /// The format's command-line name.
    pub fn name(&self) -> (r: String)
        ensures
            r@ == output_format_name(*self),
    {
        match self {
            OutputFormat::Native => "native".to_owned(),
            OutputFormat::Json => "json".to_owned(),
            OutputFormat::Plain => "plain".to_owned(),
            OutputFormat::Markdown => "markdown".to_owned(),
            OutputFormat::MarkdownStrict => "markdown_strict".to_owned(),
            OutputFormat::MarkdownPhpextra => "markdown_phpextra".to_owned(),
            OutputFormat::MarkdownGithub => "markdown_github".to_owned(),
            OutputFormat::Commonmark => "commonmark".to_owned(),
            OutputFormat::CommonmarkX => "commonmark_x".to_owned(),
            OutputFormat::Rst => "rst".to_owned(),
            OutputFormat::Html => "html".to_owned(),
            OutputFormat::Html5 => "html5".to_owned(),
            OutputFormat::Latex => "latex".to_owned(),
            OutputFormat::Beamer => "beamer".to_owned(),
            OutputFormat::Context => "context".to_owned(),
            OutputFormat::Pdf => "pdf".to_owned(),
            OutputFormat::Man => "man".to_owned(),
            OutputFormat::MediaWiki => "mediawiki".to_owned(),
            OutputFormat::Dokuwiki => "dokuwiki".to_owned(),
            OutputFormat::Textile => "textile".to_owned(),
            OutputFormat::Org => "org".to_owned(),
            OutputFormat::Texinfo => "texinfo".to_owned(),
            OutputFormat::Opml => "opml".to_owned(),
            OutputFormat::Docbook => "docbook".to_owned(),
            OutputFormat::OpenDocument => "open_document".to_owned(),
            OutputFormat::Odt => "odt".to_owned(),
            OutputFormat::Docx => "docx".to_owned(),
            OutputFormat::Haddock => "haddock".to_owned(),
            OutputFormat::Rtf => "rtf".to_owned(),
            OutputFormat::Epub => "epub".to_owned(),
            OutputFormat::Epub3 => "epub3".to_owned(),
            OutputFormat::Fb2 => "fb2".to_owned(),
            OutputFormat::Asciidoc => "asciidoc".to_owned(),
            OutputFormat::Icml => "icml".to_owned(),
            OutputFormat::Slidy => "slidy".to_owned(),
            OutputFormat::Slideous => "slideous".to_owned(),
            OutputFormat::Dzslides => "dzslides".to_owned(),
            OutputFormat::Revealjs => "revealjs".to_owned(),
            OutputFormat::S5 => "s5".to_owned(),
            OutputFormat::Lua(s) => s.clone(),
            OutputFormat::Other(s) => s.clone(),
        }
    }
}

impl InputFormat {
    /// The format's command-line name.
    pub fn name(&self) -> (r: String)
        ensures
            r@ == input_format_name(*self),
    {
        match self {
            InputFormat::Native => "native".to_owned(),
            InputFormat::Json => "json".to_owned(),
            InputFormat::Markdown => "markdown".to_owned(),
            InputFormat::MarkdownStrict => "markdown_strict".to_owned(),
            InputFormat::MarkdownPhpextra => "markdown_phpextra".to_owned(),
            InputFormat::MarkdownGithub => "markdown_github".to_owned(),
            InputFormat::Commonmark => "commonmark".to_owned(),
            InputFormat::CommonmarkX => "commonmark_x".to_owned(),
            InputFormat::Textile => "textile".to_owned(),
            InputFormat::Rst => "rst".to_owned(),
            InputFormat::Rtf => "rtf".to_owned(),
            InputFormat::Html => "html".to_owned(),
            InputFormat::DocBook => "docbook".to_owned(),
            InputFormat::T2t => "t2t".to_owned(),
            InputFormat::Docx => "docx".to_owned(),
            InputFormat::Epub => "epub".to_owned(),
            InputFormat::Opml => "opml".to_owned(),
            InputFormat::Org => "org".to_owned(),
            InputFormat::MediaWiki => "mediawiki".to_owned(),
            InputFormat::Twiki => "twiki".to_owned(),
            InputFormat::Haddock => "haddock".to_owned(),
            InputFormat::Latex => "latex".to_owned(),
            InputFormat::Other(s) => s.clone(),
        }
    }
}

impl MarkdownExtension {
    /// The extension's command-line name.
    pub fn name(&self) -> (r: String)
        ensures
            r@ == md_ext_name(*self),
    {
        match self {
            MarkdownExtension::Smart => "smart".to_owned(),
            MarkdownExtension::Attributes => "attributes".to_owned(),
            MarkdownExtension::EscapedLineBreaks => "escaped_line_breaks".to_owned(),
            MarkdownExtension::BlankBeforeHeader => "blank_before_header".to_owned(),
            MarkdownExtension::HeaderAttributes => "header_attributes".to_owned(),
            MarkdownExtension::AutoIdentifiers => "auto_identifiers".to_owned(),
            MarkdownExtension::ImplicitHeaderReferences => "implicit_header_references".to_owned(),
            MarkdownExtension::BlankBeforeBlockQuote => "blank_before_block_quote".to_owned(),
            MarkdownExtension::FencedDivs => "fenced_divs".to_owned(),
            MarkdownExtension::FencedCodeBlocks => "fenced_code_blocks".to_owned(),
            MarkdownExtension::BacktickCodeBlocks => "backtick_code_blocks".to_owned(),
            MarkdownExtension::FencedCodeAttributes => "fenced_code_attributes".to_owned(),
            MarkdownExtension::LineBlocks => "line_blocks".to_owned(),
            MarkdownExtension::FancyLists => "fancy_lists".to_owned(),
            MarkdownExtension::Startnum => "startnum".to_owned(),
            MarkdownExtension::TaskLists => "task_lists".to_owned(),
            MarkdownExtension::DefinitionLists => "definition_lists".to_owned(),
            MarkdownExtension::ExampleLists => "example_lists".to_owned(),
            MarkdownExtension::TableCaptions => "table_captions".to_owned(),
            MarkdownExtension::SimpleTables => "simple_tables".to_owned(),
            MarkdownExtension::MultilineTables => "multiline_tables".to_owned(),
            MarkdownExtension::GridTables => "grid_tables".to_owned(),
            MarkdownExtension::PipeTables => "pipe_tables".to_owned(),
            MarkdownExtension::PandocTitleBlock => "pandoc_title_block".to_owned(),
            MarkdownExtension::YamlMetadataBlock => "yaml_metadata_block".to_owned(),
            MarkdownExtension::AllSymbolsEscapable => "all_symbols_escapable".to_owned(),
            MarkdownExtension::IntrawordUnderscores => "intraword_underscores".to_owned(),
            MarkdownExtension::Strikeout => "strikeout".to_owned(),
            MarkdownExtension::Superscript => "superscript".to_owned(),
            MarkdownExtension::Subscript => "subscript".to_owned(),
            MarkdownExtension::InlineCodeAttributes => "inline_code_attributes".to_owned(),
            MarkdownExtension::TexMathDollars => "tex_math_dollars".to_owned(),
            MarkdownExtension::RawAttribute => "raw_attribute".to_owned(),
            MarkdownExtension::RawHtml => "raw_html".to_owned(),
            MarkdownExtension::MarkdownInHtmlBlocks => "markdown_in_html_blocks".to_owned(),
            MarkdownExtension::NativeDivs => "native_divs".to_owned(),
            MarkdownExtension::NativeSpans => "native_spans".to_owned(),
            MarkdownExtension::BracketedSpans => "bracketed_spans".to_owned(),
            MarkdownExtension::RawTex => "raw_tex".to_owned(),
            MarkdownExtension::LatexMacros => "latex_macros".to_owned(),
            MarkdownExtension::ShortcutReferenceLinks => "shortcut_reference_links".to_owned(),
            MarkdownExtension::ImplicitFigures => "implicit_figures".to_owned(),
            MarkdownExtension::Footnotes => "footnotes".to_owned(),
            MarkdownExtension::InlineNotes => "inline_notes".to_owned(),
            MarkdownExtension::Citations => "citations".to_owned(),
            MarkdownExtension::ListsWithoutPrecedingBlankline => "lists_without_preceding_blankline".to_owned(),
            MarkdownExtension::HardLineBreaks => "hard_line_breaks".to_owned(),
            MarkdownExtension::IgnoreLineBreaks => "ignore_line_breaks".to_owned(),
            MarkdownExtension::TexMathSingleBackslash => "tex_math_single_backslash".to_owned(),
            MarkdownExtension::TexMathDoubleBackslash => "tex_math_double_backslash".to_owned(),
            MarkdownExtension::MarkdownAttribute => "markdown_attribute".to_owned(),
            MarkdownExtension::MmdTitleBlock => "Mmd_title_block".to_owned(),
            MarkdownExtension::Abbreviations => "abbreviations".to_owned(),
            MarkdownExtension::AutolinkBareUris => "autolink_bare_uris".to_owned(),
            MarkdownExtension::AsciiIdentifiers => "ascii_identifiers".to_owned(),
            MarkdownExtension::LinkAttributes => "link_attributes".to_owned(),
            MarkdownExtension::MmdHeaderIdentifiers => "mmd_header_identifiers".to_owned(),
            MarkdownExtension::CompactDefinitionLists => "compact_definition_lists".to_owned(),
            MarkdownExtension::RebaseRelativePaths => "rebase_relative_paths".to_owned(),
            MarkdownExtension::Other(s) => s.clone(),
        }
    }
}

/// The `+extension` suffixes for a list of extensions, in order.
pub open spec fn ext_suffix(exts: Seq<MarkdownExtension>) -> Seq<char>
    decreases exts.len(),
{
    if exts.len() == 0 {
        seq![]
    } else {
        "+"@ + md_ext_name(exts[0]) + ext_suffix(exts.skip(1))
    }
}

/// One more extension appends one more `+extension` suffix.
pub proof fn lemma_ext_suffix_push(exts: Seq<MarkdownExtension>, e: MarkdownExtension)
    ensures
        ext_suffix(exts.push(e)) == ext_suffix(exts) + "+"@ + md_ext_name(e),
    decreases exts.len(),
{
    if exts.len() == 0 {
        assert(exts.push(e)[0] == e);
        assert(exts.push(e).skip(1) =~= Seq::<MarkdownExtension>::empty());
        assert(ext_suffix(Seq::<MarkdownExtension>::empty()) == Seq::<char>::empty());
        assert(ext_suffix(exts) == Seq::<char>::empty());
        assert(ext_suffix(exts.push(e)) =~= ext_suffix(exts) + "+"@ + md_ext_name(e));
    } else {
        lemma_ext_suffix_push(exts.skip(1), e);
        assert(exts.push(e).skip(1) =~= exts.skip(1).push(e));
        assert(ext_suffix(exts.push(e)) =~= ext_suffix(exts) + "+"@ + md_ext_name(e));
    }
}

/// The full format token: the format name followed by `+extension` for each
/// extension, in order.
pub open spec fn format_token(name: Seq<char>, exts: Seq<MarkdownExtension>) -> Seq<char> {
    name + ext_suffix(exts)
}

/// Renders a format name together with its extension suffixes.
pub fn render_format_token(name: String, exts: &Vec<MarkdownExtension>) -> (r: String)
    ensures
        r@ == format_token(name@, exts@),
{
    let ghost base = name@;
    let mut s = name;
    let mut i: usize = 0;
    while i < exts.len()
        invariant
            i <= exts.len(),
            s@ =~= format_token(base, exts@.take(i as int)),
        decreases exts.len() - i,
    {
        s.append("+");
        let e = exts[i].name();
        s.append(e.as_str());
        proof {
            lemma_ext_suffix_push(exts@.take(i as int), exts@[i as int]);
            assert(exts@.take(i as int + 1) =~= exts@.take(i as int).push(exts@[i as int]));
            assert(s@ =~= format_token(base, exts@.take(i as int + 1)));
        }
        i = i + 1;
    }
    proof {
        assert(exts@.take(exts@.len() as int) =~= exts@);
    }
    s
}


impl MarkdownExtension {
    /// An exact copy of the extension.
    pub fn duplicate(&self) -> (r: MarkdownExtension)
        ensures
            r == *self,
    {
        match self {
            MarkdownExtension::Smart => MarkdownExtension::Smart,
            MarkdownExtension::Attributes => MarkdownExtension::Attributes,
            MarkdownExtension::EscapedLineBreaks => MarkdownExtension::EscapedLineBreaks,
            MarkdownExtension::BlankBeforeHeader => MarkdownExtension::BlankBeforeHeader,
            MarkdownExtension::HeaderAttributes => MarkdownExtension::HeaderAttributes,
            MarkdownExtension::AutoIdentifiers => MarkdownExtension::AutoIdentifiers,
            MarkdownExtension::ImplicitHeaderReferences => MarkdownExtension::ImplicitHeaderReferences,
            MarkdownExtension::BlankBeforeBlockQuote => MarkdownExtension::BlankBeforeBlockQuote,
            MarkdownExtension::FencedDivs => MarkdownExtension::FencedDivs,
            MarkdownExtension::FencedCodeBlocks => MarkdownExtension::FencedCodeBlocks,
            MarkdownExtension::BacktickCodeBlocks => MarkdownExtension::BacktickCodeBlocks,
            MarkdownExtension::FencedCodeAttributes => MarkdownExtension::FencedCodeAttributes,
            MarkdownExtension::LineBlocks => MarkdownExtension::LineBlocks,
            MarkdownExtension::FancyLists => MarkdownExtension::FancyLists,
            MarkdownExtension::Startnum => MarkdownExtension::Startnum,
            MarkdownExtension::TaskLists => MarkdownExtension::TaskLists,
            MarkdownExtension::DefinitionLists => MarkdownExtension::DefinitionLists,
            MarkdownExtension::ExampleLists => MarkdownExtension::ExampleLists,
            MarkdownExtension::TableCaptions => MarkdownExtension::TableCaptions,
            MarkdownExtension::SimpleTables => MarkdownExtension::SimpleTables,
            MarkdownExtension::MultilineTables => MarkdownExtension::MultilineTables,
            MarkdownExtension::GridTables => MarkdownExtension::GridTables,
            MarkdownExtension::PipeTables => MarkdownExtension::PipeTables,
            MarkdownExtension::PandocTitleBlock => MarkdownExtension::PandocTitleBlock,
            MarkdownExtension::YamlMetadataBlock => MarkdownExtension::YamlMetadataBlock,
            MarkdownExtension::AllSymbolsEscapable => MarkdownExtension::AllSymbolsEscapable,
            MarkdownExtension::IntrawordUnderscores => MarkdownExtension::IntrawordUnderscores,
            MarkdownExtension::Strikeout => MarkdownExtension::Strikeout,
            MarkdownExtension::Superscript => MarkdownExtension::Superscript,
            MarkdownExtension::Subscript => MarkdownExtension::Subscript,
            MarkdownExtension::InlineCodeAttributes => MarkdownExtension::InlineCodeAttributes,
            MarkdownExtension::TexMathDollars => MarkdownExtension::TexMathDollars,
            MarkdownExtension::RawAttribute => MarkdownExtension::RawAttribute,
            MarkdownExtension::RawHtml => MarkdownExtension::RawHtml,
            MarkdownExtension::MarkdownInHtmlBlocks => MarkdownExtension::MarkdownInHtmlBlocks,
            MarkdownExtension::NativeDivs => MarkdownExtension::NativeDivs,
            MarkdownExtension::NativeSpans => MarkdownExtension::NativeSpans,
            MarkdownExtension::BracketedSpans => MarkdownExtension::BracketedSpans,
            MarkdownExtension::RawTex => MarkdownExtension::RawTex,
            MarkdownExtension::LatexMacros => MarkdownExtension::LatexMacros,
            MarkdownExtension::ShortcutReferenceLinks => MarkdownExtension::ShortcutReferenceLinks,
            MarkdownExtension::ImplicitFigures => MarkdownExtension::ImplicitFigures,
            MarkdownExtension::Footnotes => MarkdownExtension::Footnotes,
            MarkdownExtension::InlineNotes => MarkdownExtension::InlineNotes,
            MarkdownExtension::Citations => MarkdownExtension::Citations,
            MarkdownExtension::ListsWithoutPrecedingBlankline => MarkdownExtension::ListsWithoutPrecedingBlankline,
            MarkdownExtension::HardLineBreaks => MarkdownExtension::HardLineBreaks,
            MarkdownExtension::IgnoreLineBreaks => MarkdownExtension::IgnoreLineBreaks,
            MarkdownExtension::TexMathSingleBackslash => MarkdownExtension::TexMathSingleBackslash,
            MarkdownExtension::TexMathDoubleBackslash => MarkdownExtension::TexMathDoubleBackslash,
            MarkdownExtension::MarkdownAttribute => MarkdownExtension::MarkdownAttribute,
            MarkdownExtension::MmdTitleBlock => MarkdownExtension::MmdTitleBlock,
            MarkdownExtension::Abbreviations => MarkdownExtension::Abbreviations,
            MarkdownExtension::AutolinkBareUris => MarkdownExtension::AutolinkBareUris,
            MarkdownExtension::AsciiIdentifiers => MarkdownExtension::AsciiIdentifiers,
            MarkdownExtension::LinkAttributes => MarkdownExtension::LinkAttributes,
            MarkdownExtension::MmdHeaderIdentifiers => MarkdownExtension::MmdHeaderIdentifiers,
            MarkdownExtension::CompactDefinitionLists => MarkdownExtension::CompactDefinitionLists,
            MarkdownExtension::RebaseRelativePaths => MarkdownExtension::RebaseRelativePaths,
            MarkdownExtension::Other(s) => MarkdownExtension::Other(s.clone()),
        }
    }
}

/// An exact copy of an extension list.
pub fn duplicate_extensions(v: &Vec<MarkdownExtension>) -> (r: Vec<MarkdownExtension>)
    ensures
        r@ == v@,
{
    let mut r: Vec<MarkdownExtension> = Vec::new();
    let mut i: usize = 0;
    while i < v.len()
        invariant
            i <= v.len(),
            r@ =~= v@.take(i as int),
        decreases v.len() - i,
    {
        r.push(v[i].duplicate());
        proof {
            assert(r@ =~= v@.take(i as int + 1));
        }
        i = i + 1;
    }
    proof {
        assert(r@ =~= v@);
    }
    r
}

} // verus!
