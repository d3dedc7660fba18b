//! The configuration builder: inputs, outputs, formats, options, filters,
//! and search-path hints for one conversion.
//!
//! A configuration starts empty, is grown by value-mutation calls, and is
//! consumed exactly once when an invocation is planned. It holds at most
//! one input source and at most one output sink; the option list keeps its
//! insertion order, which the rendered argument list preserves verbatim.

use vstd::prelude::*;

use crate::filters::TextFilter;
use crate::formats::InputFormat;
use crate::formats::MarkdownExtension;
use crate::formats::OutputFormat;
use crate::options::DocumentClass;
use crate::options::PandocOption;
use crate::options::Tld;

verus! {

/// Where the document comes from: named files, or a literal payload piped
/// through the child's standard input. A configuration holds at most one.
#[derive(Clone, Debug)]
pub enum InputKind {
    /// ordered input file paths, each a positional argument
    Files(Vec<String>),
    /// a literal document, written to the converter's standard input
    Pipe(String),
}

/// Where the result goes: a named file, or the child's standard output
/// captured into a buffer.
#[derive(Clone, Debug)]
pub enum OutputKind {
    /// write to the named file
    File(String),
    /// capture the child's standard output
    Pipe,
}

/// The argument builder: one conversion's accumulated configuration. It is
/// consumed by the terminal planning call; a caller who wants to run two
/// conversions from one configuration clones it beforehand (the clone is
/// unspecified to the verifier, like any derived clone).
#[derive(Clone)]
pub struct Pandoc {
    /// the input source, if one was configured
    pub input: Option<InputKind>,
    /// the input format with its extension list, if set
    pub input_format: Option<(InputFormat, Vec<MarkdownExtension>)>,
    /// the output sink, if one was configured
    pub output: Option<OutputKind>,
    /// the output format with its extension list, if set
    pub output_format: Option<(OutputFormat, Vec<MarkdownExtension>)>,
    /// directories searched for the typesetting engine before the
    /// environment's search path
    pub latex_path_hint: Vec<String>,
    /// directories searched for the converter before the environment's
    /// search path
    pub pandoc_path_hint: Vec<String>,
    /// caller-supplied transformations for the filter pre-pass
    pub filters: Vec<TextFilter>,
    /// raw passthrough arguments, each rendered as `--key=value`
    pub args: Vec<(String, String)>,
    /// catalog options, rendered in insertion order
    pub options: Vec<PandocOption>,
    /// when set, the assembled command line is echoed before execution
    pub print_pandoc_cmdline: bool,
}

/// The two configurations agree on every field but the option list.
pub open spec fn unchanged_but_options(pre: Pandoc, post: Pandoc) -> bool {
    &&& post.input == pre.input
    &&& post.input_format == pre.input_format
    &&& post.output == pre.output
    &&& post.output_format == pre.output_format
    &&& post.latex_path_hint == pre.latex_path_hint
    &&& post.pandoc_path_hint == pre.pandoc_path_hint
    &&& post.filters == pre.filters
    &&& post.args == pre.args
    &&& post.print_pandoc_cmdline == pre.print_pandoc_cmdline
}

/// The second list is the first with one more entry at the end.
pub open spec fn pushed<T>(pre: Seq<T>, post: Seq<T>) -> bool {
    post.len() > 0 && post == pre.push(post.last())
}

/// The configuration's input file list: the named files, or empty when the
/// input is a pipe payload or not yet set.
pub open spec fn input_files(p: Pandoc) -> Seq<String> {
    match p.input {
        Some(InputKind::Files(fs)) => fs@,
        _ => seq![],
    }
}

/// A fresh, empty configuration.
pub fn new() -> (p: Pandoc)
    ensures
        p.input is None,
        p.input_format is None,
        p.output is None,
        p.output_format is None,
        p.latex_path_hint@ == Seq::<String>::empty(),
        p.pandoc_path_hint@ == Seq::<String>::empty(),
        p.filters@ == Seq::<TextFilter>::empty(),
        p.args@ == Seq::<(String, String)>::empty(),
        p.options@ == Seq::<PandocOption>::empty(),
        !p.print_pandoc_cmdline,
{
    Pandoc::new()
}

impl Pandoc {
    /// A fresh, empty configuration: no input, no output, no formats, no
    /// options, no filters, no path hints, no command-line echo.
    pub fn new() -> (p: Pandoc)
        ensures
            p.input is None,
            p.input_format is None,
            p.output is None,
            p.output_format is None,
            p.latex_path_hint@ == Seq::<String>::empty(),
            p.pandoc_path_hint@ == Seq::<String>::empty(),
            p.filters@ == Seq::<TextFilter>::empty(),
            p.args@ == Seq::<(String, String)>::empty(),
            p.options@ == Seq::<PandocOption>::empty(),
            !p.print_pandoc_cmdline,
    {
        Pandoc {
            input: None,
            input_format: None,
            output: None,
            output_format: None,
            latex_path_hint: Vec::new(),
            pandoc_path_hint: Vec::new(),
            filters: Vec::new(),
            args: Vec::new(),
            options: Vec::new(),
            print_pandoc_cmdline: false,
        }
    }

    /// Adds a directory searched for the typesetting engine, before the
    /// environment's search path and the hard-coded locations.
    pub fn add_latex_path_hint(&mut self, path: &str)
        ensures
            pushed(old(self).latex_path_hint@, final(self).latex_path_hint@),
            final(self).latex_path_hint@.last()@ == path@,
            final(self).input == old(self).input,
            final(self).input_format == old(self).input_format,
            final(self).output == old(self).output,
            final(self).output_format == old(self).output_format,
            final(self).pandoc_path_hint == old(self).pandoc_path_hint,
            final(self).filters == old(self).filters,
            final(self).args == old(self).args,
            final(self).options == old(self).options,
            final(self).print_pandoc_cmdline == old(self).print_pandoc_cmdline,
    {
        self.latex_path_hint.push(path.to_owned());
    }

    /// Adds a directory searched for the converter, before the
    /// environment's search path and the hard-coded locations.
    pub fn add_pandoc_path_hint(&mut self, path: &str)
        ensures
            pushed(old(self).pandoc_path_hint@, final(self).pandoc_path_hint@),
            final(self).pandoc_path_hint@.last()@ == path@,
            final(self).input == old(self).input,
            final(self).input_format == old(self).input_format,
            final(self).output == old(self).output,
            final(self).output_format == old(self).output_format,
            final(self).latex_path_hint == old(self).latex_path_hint,
            final(self).filters == old(self).filters,
            final(self).args == old(self).args,
            final(self).options == old(self).options,
            final(self).print_pandoc_cmdline == old(self).print_pandoc_cmdline,
    {
        self.pandoc_path_hint.push(path.to_owned());
    }

    /// Sets the document class, as a `documentclass` variable option.
    pub fn set_doc_class(&mut self, class: DocumentClass)
        ensures
            unchanged_but_options(*old(self), *final(self)),
            pushed(old(self).options@, final(self).options@),
            final(self).options@.last() matches PandocOption::Var(k, Some(v))
                && k@ == "documentclass"@
                && v@ == crate::options::document_class_name(class),
    {
        self.options.push(PandocOption::Var("documentclass".to_owned(), Some(class.name())));
    }

    /// Sets whether the assembled command line is echoed before execution.
    /// Diagnostic only: it has no effect on the invocation itself.
    pub fn set_show_cmdline(&mut self, flag: bool)
        ensures
            final(self).print_pandoc_cmdline == flag,
            final(self).input == old(self).input,
            final(self).input_format == old(self).input_format,
            final(self).output == old(self).output,
            final(self).output_format == old(self).output_format,
            final(self).latex_path_hint == old(self).latex_path_hint,
            final(self).pandoc_path_hint == old(self).pandoc_path_hint,
            final(self).filters == old(self).filters,
            final(self).args == old(self).args,
            final(self).options == old(self).options,
    {
        self.print_pandoc_cmdline = flag;
    }

    /// Sets or overwrites the output format and its extension list.
    pub fn set_output_format(
        &mut self,
        format: OutputFormat,
        extensions: Vec<MarkdownExtension>,
    )
        ensures
            final(self).output_format == Some((format, extensions)),
            final(self).input == old(self).input,
            final(self).input_format == old(self).input_format,
            final(self).output == old(self).output,
            final(self).latex_path_hint == old(self).latex_path_hint,
            final(self).pandoc_path_hint == old(self).pandoc_path_hint,
            final(self).filters == old(self).filters,
            final(self).args == old(self).args,
            final(self).options == old(self).options,
            final(self).print_pandoc_cmdline == old(self).print_pandoc_cmdline,
    {
        self.output_format = Some((format, extensions));
    }

    /// Sets or overwrites the input format and its extension list.
    pub fn set_input_format(
        &mut self,
        format: InputFormat,
        extensions: Vec<MarkdownExtension>,
    )
        ensures
            final(self).input_format == Some((format, extensions)),
            final(self).input == old(self).input,
            final(self).output == old(self).output,
            final(self).output_format == old(self).output_format,
            final(self).latex_path_hint == old(self).latex_path_hint,
            final(self).pandoc_path_hint == old(self).pandoc_path_hint,
            final(self).filters == old(self).filters,
            final(self).args == old(self).args,
            final(self).options == old(self).options,
            final(self).print_pandoc_cmdline == old(self).print_pandoc_cmdline,
    {
        self.input_format = Some((format, extensions));
    }

    /// Adds one more input file. The files are processed in the order they
    /// were added. A configuration whose input is already a pipe payload
    /// admits no input files: the two input sources are mutually exclusive,
    /// and mixing them is a caller error this contract rules out.
    pub fn add_input(&mut self, filename: &str)
        requires
            !(old(self).input matches Some(InputKind::Pipe(_))),
        ensures
            final(self).input matches Some(InputKind::Files(fs)) && pushed(
                input_files(*old(self)),
                fs@,
            ) && fs@.last()@ == filename@,
            final(self).input_format == old(self).input_format,
            final(self).output == old(self).output,
            final(self).output_format == old(self).output_format,
            final(self).latex_path_hint == old(self).latex_path_hint,
            final(self).pandoc_path_hint == old(self).pandoc_path_hint,
            final(self).filters == old(self).filters,
            final(self).args == old(self).args,
            final(self).options == old(self).options,
            final(self).print_pandoc_cmdline == old(self).print_pandoc_cmdline,
    {
        let filename = filename.to_owned();
        let cur = self.input.take();
        match cur {
            Some(InputKind::Files(mut files)) => {
                files.push(filename);
                self.input = Some(InputKind::Files(files));
            },
            Some(InputKind::Pipe(p)) => {
                // ruled out by the precondition; kept as it was
                self.input = Some(InputKind::Pipe(p));
            },
            None => {
                let mut files: Vec<String> = Vec::new();
                files.push(filename);
                self.input = Some(InputKind::Files(files));
            },
        }
    }

    /// Sets or overwrites the input source.
    pub fn set_input(&mut self, input: InputKind)
        ensures
            final(self).input == Some(input),
            final(self).input_format == old(self).input_format,
            final(self).output == old(self).output,
            final(self).output_format == old(self).output_format,
            final(self).latex_path_hint == old(self).latex_path_hint,
            final(self).pandoc_path_hint == old(self).pandoc_path_hint,
            final(self).filters == old(self).filters,
            final(self).args == old(self).args,
            final(self).options == old(self).options,
            final(self).print_pandoc_cmdline == old(self).print_pandoc_cmdline,
    {
        self.input = Some(input);
    }

    /// Sets or overwrites the output sink.
    pub fn set_output(&mut self, output: OutputKind)
        ensures
            final(self).output == Some(output),
            final(self).input == old(self).input,
            final(self).input_format == old(self).input_format,
            final(self).output_format == old(self).output_format,
            final(self).latex_path_hint == old(self).latex_path_hint,
            final(self).pandoc_path_hint == old(self).pandoc_path_hint,
            final(self).filters == old(self).filters,
            final(self).args == old(self).args,
            final(self).options == old(self).options,
            final(self).print_pandoc_cmdline == old(self).print_pandoc_cmdline,
    {
        self.output = Some(output);
    }

    /// Sets the bibliography database file, as a catalog option.
    pub fn set_bibliography(&mut self, filename: &str)
        ensures
            unchanged_but_options(*old(self), *final(self)),
            pushed(old(self).options@, final(self).options@),
            final(self).options@.last() matches PandocOption::Bibliography(f) && f@ == filename@,
    {
        self.options.push(PandocOption::Bibliography(filename.to_owned()));
    }

    /// Sets the citation style file, as a catalog option.
    pub fn set_csl(&mut self, filename: &str)
        ensures
            unchanged_but_options(*old(self), *final(self)),
            pushed(old(self).options@, final(self).options@),
            final(self).options@.last() matches PandocOption::Csl(f) && f@ == filename@,
    {
        self.options.push(PandocOption::Csl(filename.to_owned()));
    }

    /// Asks for a table of contents in front of the document.
    pub fn set_toc(&mut self)
        ensures
            unchanged_but_options(*old(self), *final(self)),
            final(self).options@ == old(self).options@.push(PandocOption::TableOfContents),
    {
        self.options.push(PandocOption::TableOfContents);
    }

    /// Treats top-level headers as chapters in LaTeX, ConTeXt, and DocBook
    /// output.
    pub fn set_chapters(&mut self)
        ensures
            unchanged_but_options(*old(self), *final(self)),
            final(self).options@ == old(self).options@.push(
                PandocOption::TopLevelDivision(Tld::Chapter),
            ),
    {
        self.options.push(PandocOption::TopLevelDivision(Tld::Chapter));
    }

    /// Numbers the sections, which are unnumbered by default in LaTeX,
    /// ConTeXt, HTML, and EPUB output.
    pub fn set_number_sections(&mut self)
        ensures
            unchanged_but_options(*old(self), *final(self)),
            final(self).options@ == old(self).options@.push(PandocOption::NumberSections),
    {
        self.options.push(PandocOption::NumberSections);
    }

    /// Sets a custom LaTeX template, as a catalog option.
    pub fn set_latex_template(&mut self, filename: &str)
        ensures
            unchanged_but_options(*old(self), *final(self)),
            pushed(old(self).options@, final(self).options@),
            final(self).options@.last() matches PandocOption::Template(f) && f@ == filename@,
    {
        self.options.push(PandocOption::Template(filename.to_owned()));
    }

    /// Sets the header level at which a new slide is started.
    pub fn set_slide_level(&mut self, level: u32)
        ensures
            unchanged_but_options(*old(self), *final(self)),
            final(self).options@ == old(self).options@.push(PandocOption::SlideLevel(level)),
    {
        self.options.push(PandocOption::SlideLevel(level));
    }

    /// Sets a custom variable, as a catalog option.
    pub fn set_variable(&mut self, key: &str, value: &str)
        ensures
            unchanged_but_options(*old(self), *final(self)),
            pushed(old(self).options@, final(self).options@),
            final(self).options@.last() matches PandocOption::Var(k, Some(v)) && k@ == key@ && v@
                == value@,
    {
        self.options.push(PandocOption::Var(key.to_owned(), Some(value.to_owned())));
    }

    /// Registers a filter for the pre-pass. The filter receives the
    /// serialized document representation and returns a transformed one;
    /// filters run in registration order. Nothing is assumed of what the
    /// filter computes.
    pub fn add_filter<F: 'static + Fn(String) -> String>(&mut self, filter: F)
        ensures
            pushed(old(self).filters@, final(self).filters@),
            final(self).input == old(self).input,
            final(self).input_format == old(self).input_format,
            final(self).output == old(self).output,
            final(self).output_format == old(self).output_format,
            final(self).latex_path_hint == old(self).latex_path_hint,
            final(self).pandoc_path_hint == old(self).pandoc_path_hint,
            final(self).args == old(self).args,
            final(self).options == old(self).options,
            final(self).print_pandoc_cmdline == old(self).print_pandoc_cmdline,
    {
        self.filters.push(TextFilter::new(filter));
    }

    /// Appends one catalog option.
    pub fn add_option(&mut self, option: PandocOption)
        ensures
            unchanged_but_options(*old(self), *final(self)),
            final(self).options@ == old(self).options@.push(option),
    {
        self.options.push(option);
    }

    /// Appends a list of catalog options, in order.
    pub fn add_options(&mut self, options: Vec<PandocOption>)
        ensures
            unchanged_but_options(*old(self), *final(self)),
            final(self).options@ == old(self).options@ + options@,
    {
        let mut rest = options;
        self.options.append(&mut rest);
    }

    /// Appends a raw passthrough argument, rendered as `--key=value`. The
    /// typed catalog options are generally preferable.
    pub fn arg(&mut self, key: &str, value: &str)
        ensures
            pushed(old(self).args@, final(self).args@),
            final(self).args@.last().0@ == key@,
            final(self).args@.last().1@ == value@,
            final(self).input == old(self).input,
            final(self).input_format == old(self).input_format,
            final(self).output == old(self).output,
            final(self).output_format == old(self).output_format,
            final(self).latex_path_hint == old(self).latex_path_hint,
            final(self).pandoc_path_hint == old(self).pandoc_path_hint,
            final(self).filters == old(self).filters,
            final(self).options == old(self).options,
            final(self).print_pandoc_cmdline == old(self).print_pandoc_cmdline,
    {
        self.args.push((key.to_owned(), value.to_owned()));
    }
}

} // verus!
