//! The option catalog: one typed variant per supported converter flag, and
//! its deterministic rendering to command-line tokens.
//!
//! Rendering is a pure function from a constructed option value to the
//! ordered tokens the converter expects; it is total, and `opt_tokens` pins
//! the tokens down exactly. Most options render to one `--name=value`
//! token; metadata and variables render to two tokens with a short flag;
//! list-valued options join their elements with a fixed delimiter before
//! embedding them in a single token.

use vstd::prelude::*;

use crate::dec::dec_int;
use crate::dec::dec_nat;
use crate::dec::render_i64;
use crate::dec::render_u64;
use crate::text::concat;
use crate::text::concat3;
use crate::text::join;
use crate::text::join_parts;
use crate::text::join_with;
use crate::text::path_delim;
use crate::text::path_delim_str;

verus! {

/// An address handed through to the converter unchanged.
pub type URL = String;

/// How the converter treats tracked changes in a word-processor document.
#[derive(PartialEq, Eq, Structural, Copy, Clone, Debug)]
pub enum TrackChanges {
    Accept,
    Reject,
    All,
}

/// The command-line name of a tracked-changes policy.
pub open spec fn track_changes_name(t: TrackChanges) -> Seq<char> {
    match t {
        TrackChanges::Accept => "accept"@,
        TrackChanges::Reject => "reject"@,
        TrackChanges::All => "all"@,
    }
}

impl TrackChanges {
    /// The policy's command-line name.
    pub fn name(&self) -> (r: String)
        ensures
            r@ == track_changes_name(*self),
    {
        match self {
            TrackChanges::Accept => "accept".to_owned(),
            TrackChanges::Reject => "reject".to_owned(),
            TrackChanges::All => "all".to_owned(),
        }
    }
}

/// How the converter obfuscates email addresses in HTML output.
#[derive(PartialEq, Eq, Structural, Copy, Clone, Debug)]
pub enum EmailObfuscation {
    /// no obfuscation; the converter's `none` policy
    NoObfuscation,
    Javascript,
    References,
}

/// The command-line name of an email-obfuscation policy.
pub open spec fn email_obfuscation_name(o: EmailObfuscation) -> Seq<char> {
    match o {
        EmailObfuscation::NoObfuscation => "none"@,
        EmailObfuscation::Javascript => "javascript"@,
        EmailObfuscation::References => "references"@,
    }
}

impl EmailObfuscation {
    /// The policy's command-line name.
    pub fn name(&self) -> (r: String)
        ensures
            r@ == email_obfuscation_name(*self),
    {
        match self {
            EmailObfuscation::NoObfuscation => "none".to_owned(),
            EmailObfuscation::Javascript => "javascript".to_owned(),
            EmailObfuscation::References => "references".to_owned(),
        }
    }
}

/// The structural unit a top-level header stands for.
#[derive(PartialEq, Eq, Structural, Copy, Clone, Debug)]
pub enum Tld {
    Chapter,
    Section,
    Part,
}

/// The command-line name of a top-level division.
pub open spec fn tld_name(t: Tld) -> Seq<char> {
    match t {
        Tld::Chapter => "chapter"@,
        Tld::Section => "section"@,
        Tld::Part => "part"@,
    }
}

impl Tld {
    /// The division's command-line name.
    pub fn name(&self) -> (r: String)
        ensures
            r@ == tld_name(*self),
    {
        match self {
            Tld::Chapter => "chapter".to_owned(),
            Tld::Section => "section".to_owned(),
            Tld::Part => "part".to_owned(),
        }
    }
}

/// The LaTeX document class set through the `documentclass` variable.
#[derive(PartialEq, Eq, Structural, Copy, Clone, Debug)]
pub enum DocumentClass {
    /// compact form of report
    Article,
    /// abstract + chapters + custom page for title, abstract and toc
    Report,
    /// no abstract
    Book,
}

/// The name of a document class, as LaTeX knows it.
pub open spec fn document_class_name(c: DocumentClass) -> Seq<char> {
    match c {
        DocumentClass::Article => "article"@,
        DocumentClass::Report => "report"@,
        DocumentClass::Book => "book"@,
    }
}

impl DocumentClass {
    /// The class's name, as LaTeX knows it.
    pub fn name(&self) -> (r: String)
        ensures
            r@ == document_class_name(*self),
    {
        match self {
            DocumentClass::Article => "article".to_owned(),
            DocumentClass::Report => "report".to_owned(),
            DocumentClass::Book => "book".to_owned(),
        }
    }
}

/// A resource-limit option for the converter's runtime system.
#[derive(PartialEq, Clone, Debug)]
#[non_exhaustive]
pub enum PandocRuntimeSystemOption {
    /// `-M<size>`: a heap size limit such as `512M`
    MaximumHeapMemory(String),
}

/// The token a runtime-system option renders to.
pub open spec fn rts_token(r: PandocRuntimeSystemOption) -> Seq<char> {
    match r {
        PandocRuntimeSystemOption::MaximumHeapMemory(s) => "-M"@ + s@,
    }
}

/// One typed converter flag. Rendering never fails: every constructed value
/// has its token sequence, given by [`opt_tokens`].
#[derive(PartialEq, Clone, Debug)]
#[non_exhaustive]
pub enum PandocOption {
    /// `--data-dir=DIRECTORY`
    DataDir(String),
    /// `--defaults=FILE`
    Defaults(String),
    /// `--strict`
    Strict,
    /// `-R --parse-raw`
    ParseRaw,
    /// `-S --smart`
    Smart,
    /// `--old-dashes`
    OldDashes,
    /// `--base-header-level=NUMBER`; deprecated, replaced by `ShiftHeadingLevelBy`
    BaseHeaderLevel(u32),
    /// `--shift-heading-level-by=NUMBER`
    ShiftHeadingLevelBy(i32),
    /// `--indented-code-classes=STRING`
    IndentedCodeClasses(String),
    /// `-F PROGRAM --filter=PROGRAM`
    Filter(String),
    /// `-L SCRIPT --lua-filter=SCRIPT`
    LuaFilter(String),
    /// `--normalize`
    Normalize,
    /// `-p --preserve-tabs`
    PreserveTabs,
    /// `--tab-stop=NUMBER`
    TabStop(u32),
    /// `--track-changes=accept|reject|all`
    TrackChanges(TrackChanges),
    /// `--extract-media=PATH`
    ExtractMedia(String),
    /// `-s --standalone`
    Standalone,
    /// `--template=FILENAME`
    Template(String),
    /// `-M KEY[:VALUE] --metadata=KEY[:VALUE]`
    Meta(String, Option<String>),
    /// `-V KEY[:VALUE] --variable=KEY[:VALUE]`
    Var(String, Option<String>),
    /// `-D FORMAT --print-default-template=FORMAT`
    PrintDefaultTemplate(String),
    /// `--print-default-data-file=FILE`
    PrintDefaultDataFile(String),
    /// `--no-wrap`; renders to the current `--wrap=none` spelling
    NoWrap,
    /// `--columns=NUMBER`
    Columns(u32),
    /// `--toc, --table-of-contents`
    TableOfContents,
    /// `--toc-depth=NUMBER`
    TableOfContentsDepth(u32),
    /// `--no-highlight`
    NoHighlight,
    /// `--highlight-style=STYLE`
    HighlightStyle(String),
    /// `-H FILENAME --include-in-header=FILENAME`
    IncludeInHeader(String),
    /// `-B FILENAME --include-before-body=FILENAME`
    IncludeBeforeBody(String),
    /// `-A FILENAME --include-after-body=FILENAME`
    IncludeAfterBody(String),
    /// `--self-contained`
    SelfContained,
    /// `--offline`
    Offline,
    /// `-5 --html5`
    Html5,
    /// `--html-q-tags`
    HtmlQTags,
    /// `--ascii`
    Ascii,
    /// `--reference-links`
    ReferenceLinks,
    /// `--atx-headers`; renamed, renders to the current `--markdown-headings=atx` spelling
    AtxHeaders,
    /// `--top-level-division=chapter|section|part`
    TopLevelDivision(Tld),
    /// `-N --number-sections`
    NumberSections,
    /// `--number-offset=NUMBERS`
    NumberOffset(Vec<u32>),
    /// `--no-tex-ligatures`
    NoTexLigatures,
    /// `--listings`
    Listings,
    /// `-i --incremental`
    Incremental,
    /// `--slide-level=NUMBER`
    SlideLevel(u32),
    /// `--section-divs`
    SectionDivs,
    /// `--default-image-extension=extension`
    DefaultImageExtension(String),
    /// `--email-obfuscation=none|javascript|references`
    EmailObfuscation(EmailObfuscation),
    /// `--id-prefix=STRING`
    IdPrefix(String),
    /// `-T STRING --title-prefix=STRING`
    TitlePrefix(String),
    /// `-c URL --css=URL`
    Css(String),
    /// `--reference-odt=FILENAME`
    ReferenceOdt(String),
    /// `--reference-docx=FILENAME`; deprecated, replaced by `ReferenceDoc`, and renders to the current `--reference-doc` spelling
    ReferenceDocx(String),
    /// `--reference-doc=FILENAME`
    ReferenceDoc(String),
    /// `--epub-stylesheet=FILENAME`
    EpubStylesheet(String),
    /// `--epub-cover-image=FILENAME`
    EpubCoverImage(String),
    /// `--epub-metadata=FILENAME`
    EpubMetadata(String),
    /// `--epub-embed-font=FILE`
    EpubEmbedFont(String),
    /// `--epub-chapter-level=NUMBER`
    EpubChapterLevel(u32),
    /// `--pdf-engine=PROGRAM`
    PdfEngine(String),
    /// `--pdf-engine-opt=STRING`
    PdfEngineOpt(String),
    /// `--citeproc`
    Citeproc,
    /// `--bibliography=FILE`
    Bibliography(String),
    /// `--csl=FILE`
    Csl(String),
    /// `--citation-abbreviations=FILE`
    CitationAbbreviations(String),
    /// `--natbib`
    Natbib,
    /// `--biblatex`
    Biblatex,
    /// `-m[URL] --latexmathml[=URL]`
    LatexMathML(Option<URL>),
    /// `--asciimathml[=URL]`
    AsciiMathML(Option<URL>),
    /// `--mathml[=URL]`
    MathML(Option<URL>),
    /// `--mimetex[=URL]`
    MimeTex(Option<URL>),
    /// `--webtex[=URL]`
    WebTex(Option<URL>),
    /// `--jsmath[=URL]`
    JsMath(Option<URL>),
    /// `--mathjax[=URL]`
    MathJax(Option<URL>),
    /// `--katex[=URL]`
    Katex(Option<URL>),
    /// `--katex-stylesheet=URL`
    KatexStylesheet(String),
    /// `--gladtex`
    GladTex,
    /// `--trace`
    Trace,
    /// `--dump-args`
    DumpArgs,
    /// `--ignore-args`
    IgnoreArgs,
    /// `--verbose`
    Verbose,
    /// `--resource-path=PATH`, joined with the platform path-list delimiter
    ResourcePath(Vec<String>),
    /// `+RTS OPTIONS -RTS`: resource-limit options for the converter's runtime system, bracketed between two sentinel tokens
    RuntimeSystem(Vec<PandocRuntimeSystemOption>),
    /// `--sandbox`
    Sandbox,
    /// `--eol=crlf|lf|native`: the line-ending style
    EOL(String),
}

/// The ordered command-line tokens an option renders to. The platform flag
/// picks the path-list delimiter for path-valued list options.
pub open spec fn opt_tokens(o: PandocOption, windows: bool) -> Seq<Seq<char>> {
    match o {
        PandocOption::DataDir(s) => seq!["--data-dir="@ + s@],
        PandocOption::Defaults(s) => seq!["--defaults="@ + s@],
        PandocOption::Strict => seq!["--strict"@],
        PandocOption::ParseRaw => seq!["--parse-raw"@],
        PandocOption::Smart => seq!["--smart"@],
        PandocOption::OldDashes => seq!["--old-dashes"@],
        PandocOption::BaseHeaderLevel(n) => seq!["--base-header-level="@ + dec_nat(n as int)],
        PandocOption::ShiftHeadingLevelBy(n) => seq!["--shift-heading-level-by="@ + dec_int(n as int)],
        PandocOption::IndentedCodeClasses(s) => seq!["--indented-code-classes="@ + s@],
        PandocOption::Filter(s) => seq!["--filter="@ + s@],
        PandocOption::LuaFilter(s) => seq!["--lua-filter="@ + s@],
        PandocOption::Normalize => seq!["--normalize"@],
        PandocOption::PreserveTabs => seq!["--preserve-tabs"@],
        PandocOption::TabStop(n) => seq!["--tab-stop="@ + dec_nat(n as int)],
        PandocOption::TrackChanges(t) => seq!["--track-changes="@ + track_changes_name(t)],
        PandocOption::ExtractMedia(s) => seq!["--extract-media="@ + s@],
        PandocOption::Standalone => seq!["--standalone"@],
        PandocOption::Template(s) => seq!["--template="@ + s@],
        PandocOption::Meta(k, v) => match v {
            Some(v) => seq!["-M"@, k@ + ":"@ + v@],
            None => seq!["-M"@, k@],
        },
        PandocOption::Var(k, v) => match v {
            Some(v) => seq!["-V"@, k@ + ":"@ + v@],
            None => seq!["-V"@, k@],
        },
        PandocOption::PrintDefaultTemplate(s) => seq!["--print-default-template="@ + s@],
        PandocOption::PrintDefaultDataFile(s) => seq!["--print-default-data-file="@ + s@],
        PandocOption::NoWrap => seq!["--wrap=none"@],
        PandocOption::Columns(n) => seq!["--columns="@ + dec_nat(n as int)],
        PandocOption::TableOfContents => seq!["--table-of-contents"@],
        PandocOption::TableOfContentsDepth(n) => seq!["--toc-depth="@ + dec_nat(n as int)],
        PandocOption::NoHighlight => seq!["--no-highlight"@],
        PandocOption::HighlightStyle(s) => seq!["--highlight-style="@ + s@],
        PandocOption::IncludeInHeader(s) => seq!["--include-in-header="@ + s@],
        PandocOption::IncludeBeforeBody(s) => seq!["--include-before-body="@ + s@],
        PandocOption::IncludeAfterBody(s) => seq!["--include-after-body="@ + s@],
        PandocOption::SelfContained => seq!["--self-contained"@],
        PandocOption::Offline => seq!["--offline"@],
        PandocOption::Html5 => seq!["--html5"@],
        PandocOption::HtmlQTags => seq!["--html-q-tags"@],
        PandocOption::Ascii => seq!["--ascii"@],
        PandocOption::ReferenceLinks => seq!["--reference-links"@],
        PandocOption::AtxHeaders => seq!["--markdown-headings=atx"@],
        PandocOption::TopLevelDivision(t) => seq!["--top-level-division="@ + tld_name(t)],
        PandocOption::NumberSections => seq!["--number-sections"@],
        PandocOption::NumberOffset(ns) => seq![
            "--number-offset="@ + join_with(ns@.map_values(|n: u32| dec_nat(n as int)), ", "@),
        ],
        PandocOption::NoTexLigatures => seq!["--no-tex-ligatures"@],
        PandocOption::Listings => seq!["--listings"@],
        PandocOption::Incremental => seq!["--incremental"@],
        PandocOption::SlideLevel(n) => seq!["--slide-level="@ + dec_nat(n as int)],
        PandocOption::SectionDivs => seq!["--section-divs"@],
        PandocOption::DefaultImageExtension(s) => seq!["--default-image-extension="@ + s@],
        PandocOption::EmailObfuscation(o) => seq!["--email-obfuscation="@ + email_obfuscation_name(o)],
        PandocOption::IdPrefix(s) => seq!["--id-prefix="@ + s@],
        PandocOption::TitlePrefix(s) => seq!["--title-prefix="@ + s@],
        PandocOption::Css(s) => seq!["--css="@ + s@],
        PandocOption::ReferenceOdt(s) => seq!["--reference-odt="@ + s@],
        PandocOption::ReferenceDocx(s) => seq!["--reference-doc="@ + s@],
        PandocOption::ReferenceDoc(s) => seq!["--reference-doc="@ + s@],
        PandocOption::EpubStylesheet(s) => seq!["--epub-stylesheet="@ + s@],
        PandocOption::EpubCoverImage(s) => seq!["--epub-cover-image="@ + s@],
        PandocOption::EpubMetadata(s) => seq!["--epub-metadata="@ + s@],
        PandocOption::EpubEmbedFont(s) => seq!["--epub-embed-font="@ + s@],
        PandocOption::EpubChapterLevel(n) => seq!["--epub-chapter-level="@ + dec_nat(n as int)],
        PandocOption::PdfEngine(s) => seq!["--pdf-engine="@ + s@],
        PandocOption::PdfEngineOpt(s) => seq!["--pdf-engine-opt="@ + s@],
        PandocOption::Citeproc => seq!["--citeproc"@],
        PandocOption::Bibliography(s) => seq!["--bibliography="@ + s@],
        PandocOption::Csl(s) => seq!["--csl="@ + s@],
        PandocOption::CitationAbbreviations(s) => seq!["--citation-abbreviations="@ + s@],
        PandocOption::Natbib => seq!["--natbib"@],
        PandocOption::Biblatex => seq!["--biblatex"@],
        PandocOption::LatexMathML(u) => match u {
            Some(u) => seq!["--latexmathml="@ + u@],
            None => seq!["--latexmathml"@],
        },
        PandocOption::AsciiMathML(u) => match u {
            Some(u) => seq!["--asciimathml="@ + u@],
            None => seq!["--asciimathml"@],
        },
        PandocOption::MathML(u) => match u {
            Some(u) => seq!["--mathml="@ + u@],
            None => seq!["--mathml"@],
        },
        PandocOption::MimeTex(u) => match u {
            Some(u) => seq!["--mimetex="@ + u@],
            None => seq!["--mimetex"@],
        },
        PandocOption::WebTex(u) => match u {
            Some(u) => seq!["--webtex="@ + u@],
            None => seq!["--webtex"@],
        },
        PandocOption::JsMath(u) => match u {
            Some(u) => seq!["--jsmath="@ + u@],
            None => seq!["--jsmath"@],
        },
        PandocOption::MathJax(u) => match u {
            Some(u) => seq!["--mathjax="@ + u@],
            None => seq!["--mathjax"@],
        },
        PandocOption::Katex(u) => match u {
            Some(u) => seq!["--katex="@ + u@],
            None => seq!["--katex"@],
        },
        PandocOption::KatexStylesheet(s) => seq!["--katex-stylesheet="@ + s@],
        PandocOption::GladTex => seq!["--gladtex"@],
        PandocOption::Trace => seq!["--trace"@],
        PandocOption::DumpArgs => seq!["--dump-args"@],
        PandocOption::IgnoreArgs => seq!["--ignore-args"@],
        PandocOption::Verbose => seq!["--verbose"@],
        PandocOption::ResourcePath(ps) => seq!["--resource-path="@ + join_with(ps.deep_view(), path_delim(windows))],
        PandocOption::RuntimeSystem(rs) => seq!["+RTS"@] + rs@.map_values(|r: PandocRuntimeSystemOption| rts_token(r))
            + seq!["-RTS"@],
        PandocOption::Sandbox => seq!["--sandbox"@],
        PandocOption::EOL(s) => seq!["--eol="@ + s@],
    }
}

/// A one-token list.
pub(crate) fn one_token(t: String) -> (r: Vec<String>)
    ensures
        r.deep_view() == seq![t@],
{
    let mut v: Vec<String> = Vec::new();
    v.push(t);
    proof {
        assert(v.deep_view() =~= seq![v@[0]@]);
    }
    v
}

/// A two-token list.
pub(crate) fn two_tokens(a: String, b: String) -> (r: Vec<String>)
    ensures
        r.deep_view() == seq![a@, b@],
{
    let mut v: Vec<String> = Vec::new();
    v.push(a);
    v.push(b);
    proof {
        assert(v.deep_view() =~= seq![v@[0]@, v@[1]@]);
    }
    v
}

/// The decimal numerals of a list of values.
fn render_u32_list(ns: &Vec<u32>) -> (r: Vec<String>)
    ensures
        r.deep_view() == ns@.map_values(|n: u32| dec_nat(n as int)),
{
    let mut r: Vec<String> = Vec::new();
    let mut i: usize = 0;
    while i < ns.len()
        invariant
            i <= ns.len(),
            r@.len() == i,
            forall|j: int| 0 <= j < i ==> #[trigger] r@[j]@ == dec_nat(ns@[j] as int),
        decreases ns.len() - i,
    {
        r.push(render_u64(ns[i] as u64));
        i = i + 1;
    }
    proof {
        assert(r.deep_view() =~= ns@.map_values(|n: u32| dec_nat(n as int)));
    }
    r
}

/// The bracketed token list of a runtime-system option list.
fn render_rts(rs: &Vec<PandocRuntimeSystemOption>) -> (r: Vec<String>)
    ensures
        r.deep_view() == seq!["+RTS"@] + rs@.map_values(|r: PandocRuntimeSystemOption| rts_token(r))
            + seq!["-RTS"@],
{
    let mut v: Vec<String> = Vec::new();
    v.push("+RTS".to_owned());
    let mut i: usize = 0;
    while i < rs.len()
        invariant
            i <= rs.len(),
            v@.len() == i + 1,
            v@[0]@ == "+RTS"@,
            forall|j: int| 1 <= j < i + 1 ==> #[trigger] v@[j]@ == rts_token(rs@[j - 1]),
        decreases rs.len() - i,
    {
        match &rs[i] {
            PandocRuntimeSystemOption::MaximumHeapMemory(s) => {
                v.push(concat("-M", s.as_str()));
            },
        }
        i = i + 1;
    }
    v.push("-RTS".to_owned());
    proof {
        assert(v.deep_view() =~= seq!["+RTS"@] + rs@.map_values(
            |r: PandocRuntimeSystemOption| rts_token(r),
        ) + seq!["-RTS"@]);
    }
    v
}

impl PandocOption {
    /// The option's command-line tokens, in order. Rendering is total and
    /// deterministic: the tokens are a function of the option value and the
    /// platform alone.
    pub fn apply(&self, windows: bool) -> (r: Vec<String>)
        ensures
            r.deep_view() == opt_tokens(*self, windows),
    {
        match self {
            PandocOption::DataDir(s) => one_token(concat("--data-dir=", s.as_str())),
            PandocOption::Defaults(s) => one_token(concat("--defaults=", s.as_str())),
            PandocOption::Strict => one_token("--strict".to_owned()),
            PandocOption::ParseRaw => one_token("--parse-raw".to_owned()),
            PandocOption::Smart => one_token("--smart".to_owned()),
            PandocOption::OldDashes => one_token("--old-dashes".to_owned()),
            PandocOption::BaseHeaderLevel(n) => one_token(concat("--base-header-level=", render_u64(*n as u64).as_str())),
            PandocOption::ShiftHeadingLevelBy(n) => one_token(concat("--shift-heading-level-by=", render_i64(*n as i64).as_str())),
            PandocOption::IndentedCodeClasses(s) => one_token(concat("--indented-code-classes=", s.as_str())),
            PandocOption::Filter(s) => one_token(concat("--filter=", s.as_str())),
            PandocOption::LuaFilter(s) => one_token(concat("--lua-filter=", s.as_str())),
            PandocOption::Normalize => one_token("--normalize".to_owned()),
            PandocOption::PreserveTabs => one_token("--preserve-tabs".to_owned()),
            PandocOption::TabStop(n) => one_token(concat("--tab-stop=", render_u64(*n as u64).as_str())),
            PandocOption::TrackChanges(t) => one_token(concat("--track-changes=", t.name().as_str())),
            PandocOption::ExtractMedia(s) => one_token(concat("--extract-media=", s.as_str())),
            PandocOption::Standalone => one_token("--standalone".to_owned()),
            PandocOption::Template(s) => one_token(concat("--template=", s.as_str())),
            PandocOption::Meta(k, v) => match v {
                Some(v) => two_tokens("-M".to_owned(), concat3(k.as_str(), ":", v.as_str())),
                None => two_tokens("-M".to_owned(), k.clone()),
            },
            PandocOption::Var(k, v) => match v {
                Some(v) => two_tokens("-V".to_owned(), concat3(k.as_str(), ":", v.as_str())),
                None => two_tokens("-V".to_owned(), k.clone()),
            },
            PandocOption::PrintDefaultTemplate(s) => one_token(concat("--print-default-template=", s.as_str())),
            PandocOption::PrintDefaultDataFile(s) => one_token(concat("--print-default-data-file=", s.as_str())),
            PandocOption::NoWrap => one_token("--wrap=none".to_owned()),
            PandocOption::Columns(n) => one_token(concat("--columns=", render_u64(*n as u64).as_str())),
            PandocOption::TableOfContents => one_token("--table-of-contents".to_owned()),
            PandocOption::TableOfContentsDepth(n) => one_token(concat("--toc-depth=", render_u64(*n as u64).as_str())),
            PandocOption::NoHighlight => one_token("--no-highlight".to_owned()),
            PandocOption::HighlightStyle(s) => one_token(concat("--highlight-style=", s.as_str())),
            PandocOption::IncludeInHeader(s) => one_token(concat("--include-in-header=", s.as_str())),
            PandocOption::IncludeBeforeBody(s) => one_token(concat("--include-before-body=", s.as_str())),
            PandocOption::IncludeAfterBody(s) => one_token(concat("--include-after-body=", s.as_str())),
            PandocOption::SelfContained => one_token("--self-contained".to_owned()),
            PandocOption::Offline => one_token("--offline".to_owned()),
            PandocOption::Html5 => one_token("--html5".to_owned()),
            PandocOption::HtmlQTags => one_token("--html-q-tags".to_owned()),
            PandocOption::Ascii => one_token("--ascii".to_owned()),
            PandocOption::ReferenceLinks => one_token("--reference-links".to_owned()),
            PandocOption::AtxHeaders => one_token("--markdown-headings=atx".to_owned()),
            PandocOption::TopLevelDivision(t) => one_token(concat("--top-level-division=", t.name().as_str())),
            PandocOption::NumberSections => one_token("--number-sections".to_owned()),
            PandocOption::NumberOffset(ns) => {
                let parts = render_u32_list(ns);
                one_token(concat("--number-offset=", join_parts(&parts, ", ").as_str()))
            },
            PandocOption::NoTexLigatures => one_token("--no-tex-ligatures".to_owned()),
            PandocOption::Listings => one_token("--listings".to_owned()),
            PandocOption::Incremental => one_token("--incremental".to_owned()),
            PandocOption::SlideLevel(n) => one_token(concat("--slide-level=", render_u64(*n as u64).as_str())),
            PandocOption::SectionDivs => one_token("--section-divs".to_owned()),
            PandocOption::DefaultImageExtension(s) => one_token(concat("--default-image-extension=", s.as_str())),
            PandocOption::EmailObfuscation(o) => one_token(concat("--email-obfuscation=", o.name().as_str())),
            PandocOption::IdPrefix(s) => one_token(concat("--id-prefix=", s.as_str())),
            PandocOption::TitlePrefix(s) => one_token(concat("--title-prefix=", s.as_str())),
            PandocOption::Css(s) => one_token(concat("--css=", s.as_str())),
            PandocOption::ReferenceOdt(s) => one_token(concat("--reference-odt=", s.as_str())),
            PandocOption::ReferenceDocx(s) => one_token(concat("--reference-doc=", s.as_str())),
            PandocOption::ReferenceDoc(s) => one_token(concat("--reference-doc=", s.as_str())),
            PandocOption::EpubStylesheet(s) => one_token(concat("--epub-stylesheet=", s.as_str())),
            PandocOption::EpubCoverImage(s) => one_token(concat("--epub-cover-image=", s.as_str())),
            PandocOption::EpubMetadata(s) => one_token(concat("--epub-metadata=", s.as_str())),
            PandocOption::EpubEmbedFont(s) => one_token(concat("--epub-embed-font=", s.as_str())),
            PandocOption::EpubChapterLevel(n) => one_token(concat("--epub-chapter-level=", render_u64(*n as u64).as_str())),
            PandocOption::PdfEngine(s) => one_token(concat("--pdf-engine=", s.as_str())),
            PandocOption::PdfEngineOpt(s) => one_token(concat("--pdf-engine-opt=", s.as_str())),
            PandocOption::Citeproc => one_token("--citeproc".to_owned()),
            PandocOption::Bibliography(s) => one_token(concat("--bibliography=", s.as_str())),
            PandocOption::Csl(s) => one_token(concat("--csl=", s.as_str())),
            PandocOption::CitationAbbreviations(s) => one_token(concat("--citation-abbreviations=", s.as_str())),
            PandocOption::Natbib => one_token("--natbib".to_owned()),
            PandocOption::Biblatex => one_token("--biblatex".to_owned()),
            PandocOption::LatexMathML(u) => match u {
                Some(u) => one_token(concat("--latexmathml=", u.as_str())),
                None => one_token("--latexmathml".to_owned()),
            },
            PandocOption::AsciiMathML(u) => match u {
                Some(u) => one_token(concat("--asciimathml=", u.as_str())),
                None => one_token("--asciimathml".to_owned()),
            },
            PandocOption::MathML(u) => match u {
                Some(u) => one_token(concat("--mathml=", u.as_str())),
                None => one_token("--mathml".to_owned()),
            },
            PandocOption::MimeTex(u) => match u {
                Some(u) => one_token(concat("--mimetex=", u.as_str())),
                None => one_token("--mimetex".to_owned()),
            },
            PandocOption::WebTex(u) => match u {
                Some(u) => one_token(concat("--webtex=", u.as_str())),
                None => one_token("--webtex".to_owned()),
            },
            PandocOption::JsMath(u) => match u {
                Some(u) => one_token(concat("--jsmath=", u.as_str())),
                None => one_token("--jsmath".to_owned()),
            },
            PandocOption::MathJax(u) => match u {
                Some(u) => one_token(concat("--mathjax=", u.as_str())),
                None => one_token("--mathjax".to_owned()),
            },
            PandocOption::Katex(u) => match u {
                Some(u) => one_token(concat("--katex=", u.as_str())),
                None => one_token("--katex".to_owned()),
            },
            PandocOption::KatexStylesheet(s) => one_token(concat("--katex-stylesheet=", s.as_str())),
            PandocOption::GladTex => one_token("--gladtex".to_owned()),
            PandocOption::Trace => one_token("--trace".to_owned()),
            PandocOption::DumpArgs => one_token("--dump-args".to_owned()),
            PandocOption::IgnoreArgs => one_token("--ignore-args".to_owned()),
            PandocOption::Verbose => one_token("--verbose".to_owned()),
            PandocOption::ResourcePath(ps) => {
                one_token(concat("--resource-path=", join(ps, path_delim_str(windows)).as_str()))
            },
            PandocOption::RuntimeSystem(rs) => render_rts(rs),
            PandocOption::Sandbox => one_token("--sandbox".to_owned()),
            PandocOption::EOL(s) => one_token(concat("--eol=", s.as_str())),
        }
    }
}


/// Rendering is deterministic and total: every constructed option value
/// has a rendering ([`PandocOption::apply`] asks nothing of its caller),
/// and any two renderings of the same value on the same platform carry the
/// same tokens.
pub proof fn lemma_rendering_deterministic(
    o: &PandocOption,
    windows: bool,
    r1: Vec<String>,
    r2: Vec<String>,
)
    requires
        call_ensures(PandocOption::apply, (o, windows), r1),
        call_ensures(PandocOption::apply, (o, windows), r2),
    ensures
        r1.deep_view() == r2.deep_view(),
{
}

/// Rendering never comes up empty: every constructed option value, the
/// deprecated and escape-hatch ones included, renders to at least one
/// token on either platform.
pub proof fn lemma_rendering_total(o: PandocOption, windows: bool)
    ensures
        opt_tokens(o, windows).len() >= 1,
{
}

} // verus!
