//! The execution engine: turning a configuration into invocations of the
//! converter and classifying what the child process left behind.
//!
//! The library computes; the host performs. An [`Invocation`] holds
//! everything a host needs to run the converter once: the argument vector,
//! the search path to install for the child, the standard-input payload,
//! and whether standard output is captured. The host reports back a
//! [`ProcessOutcome`], which the library classifies into a success value or
//! a typed error. With filters registered, execution has two phases: a
//! pre-pass through the interchange format, the filters, then the main
//! invocation fed by pipe.

use vstd::prelude::*;
use vstd::utf8::decode_utf8;
use vstd::utf8::valid_utf8;

use crate::builder::InputKind;
use crate::builder::OutputKind;
use crate::builder::Pandoc;
use crate::error::PandocError;
use crate::error::ProcessOutcome;
use crate::filters::TextFilter;
use crate::filters::apply_filters;
use crate::formats::InputFormat;
use crate::formats::MarkdownExtension;
use crate::formats::OutputFormat;
use crate::formats::duplicate_extensions;
use crate::formats::ext_suffix;
use crate::formats::format_token;
use crate::formats::input_format_name;
use crate::formats::output_format_name;
use crate::formats::render_format_token;
use crate::options::PandocOption;
use crate::options::opt_tokens;
use crate::options::two_tokens;
use crate::text::clone_string_vec;
use crate::text::join;
use crate::text::join_with;
use crate::text::path_delim;
use crate::text::path_delim_str;
use crate::text::string_from_utf8;
use crate::text::valid_prefix_len;

verus! {

/// What the host tells the library about the machine it runs on.
pub struct HostEnv {
    /// whether this is a Windows host; picks the path-list delimiter and
    /// the hard-coded engine directories
    pub windows: bool,
    /// the converter's per-user install directory, when the host has one
    /// (Windows); consulted after the explicit hints
    pub user_local_dir: Option<String>,
    /// the process's inherited search path, consulted last
    pub search_path: String,
}

/// One ready invocation of the converter: everything a host needs to run
/// the child once.
pub struct Invocation {
    /// the argument vector, in order
    pub args: Vec<String>,
    /// the value to install as the child's search-path variable, replacing
    /// the inherited one for the child alone
    pub path_env: String,
    /// a literal document for the child's standard input; the input files
    /// are positional arguments instead when this is absent
    pub stdin_payload: Option<String>,
    /// whether the child's standard output is captured into a buffer
    pub capture_stdout: bool,
    /// whether the host should echo the command line before running it
    pub show_cmdline: bool,
}

/// The configured sink and format, remembered past argument assembly: they
/// decide what a successful run's value is.
pub struct OutputIntent {
    /// the configured output sink
    pub kind: OutputKind,
    /// the configured output format, if any
    pub format: Option<(OutputFormat, Vec<MarkdownExtension>)>,
}

/// What a successful conversion hands back.
pub enum PandocOutput {
    /// the conversion wrote the named file
    ToFile(String),
    /// the captured output, decoded as UTF-8 text
    ToBuffer(String),
    /// the captured output as raw bytes, for the binary and office formats
    ToBufferRaw(Vec<u8>),
}

// ---------------------------------------------------------------------------
// The argument vector, segment by segment.
// ---------------------------------------------------------------------------

/// The input-format flag: `-f` and the format token, when a format is set.
pub open spec fn input_format_args(f: Option<(InputFormat, Vec<MarkdownExtension>)>) -> Seq<
    Seq<char>,
> {
    match f {
        Some((fmt, exts)) => seq!["-f"@, format_token(input_format_name(fmt), exts@)],
        None => seq![],
    }
}

/// The output-format flag: `-t` and the format token, when a format is set.
pub open spec fn output_format_args(f: Option<(OutputFormat, Vec<MarkdownExtension>)>) -> Seq<
    Seq<char>,
> {
    match f {
        Some((fmt, exts)) => seq!["-t"@, format_token(output_format_name(fmt), exts@)],
        None => seq![],
    }
}

/// The raw passthrough arguments, each rendered as `--key=value`.
pub open spec fn raw_args(args: Seq<(String, String)>) -> Seq<Seq<char>> {
    args.map_values(|kv: (String, String)| "--"@ + kv.0@ + "="@ + kv.1@)
}

/// The output sink designation: `-o FILE` for a file; for a capture pipe,
/// `-o -` when the output format is the one binary-producing format that
/// must be steered to standard output explicitly, and nothing otherwise.
pub open spec fn output_sink_args(
    output: OutputKind,
    output_format: Option<(OutputFormat, Vec<MarkdownExtension>)>,
) -> Seq<Seq<char>> {
    match output {
        OutputKind::File(name) => seq!["-o"@, name@],
        OutputKind::Pipe => if output_format matches Some((OutputFormat::Pdf, _)) {
            seq!["-o"@, "-"@]
        } else {
            seq![]
        },
    }
}

/// The catalog options' tokens, in insertion order.
pub open spec fn catalog_args(opts: Seq<PandocOption>, windows: bool) -> Seq<Seq<char>>
    decreases opts.len(),
{
    if opts.len() == 0 {
        seq![]
    } else {
        opt_tokens(opts[0], windows) + catalog_args(opts.skip(1), windows)
    }
}

/// One more option appends exactly its own tokens.
pub proof fn lemma_catalog_args_push(opts: Seq<PandocOption>, o: PandocOption, windows: bool)
    ensures
        catalog_args(opts.push(o), windows) == catalog_args(opts, windows) + opt_tokens(
            o,
            windows,
        ),
    decreases opts.len(),
{
    if opts.len() == 0 {
        assert(opts.push(o)[0] == o);
        assert(opts.push(o).skip(1) =~= Seq::<PandocOption>::empty());
        assert(catalog_args(Seq::<PandocOption>::empty(), windows) == Seq::<Seq<char>>::empty());
        assert(catalog_args(opts, windows) == Seq::<Seq<char>>::empty());
        assert(catalog_args(opts.push(o), windows) =~= catalog_args(opts, windows) + opt_tokens(
            o,
            windows,
        ));
    } else {
        lemma_catalog_args_push(opts.skip(1), o, windows);
        assert(opts.push(o).skip(1) =~= opts.skip(1).push(o));
        assert(catalog_args(opts.push(o), windows) =~= catalog_args(opts, windows) + opt_tokens(
            o,
            windows,
        ));
    }
}

/// The positional input arguments: the input files, in order; a piped
/// input contributes no argument.
pub open spec fn input_args(input: Option<InputKind>) -> Seq<Seq<char>> {
    match input {
        Some(InputKind::Files(fs)) => fs.deep_view(),
        _ => seq![],
    }
}

/// The argument vector up to, but not including, the positional inputs:
/// input-format flag, raw passthrough arguments, output sink designation,
/// output-format flag, then every catalog option in insertion order.
pub open spec fn front_argv(p: Pandoc, windows: bool) -> Seq<Seq<char>> {
    input_format_args(p.input_format) + raw_args(p.args@) + (match p.output {
        Some(o) => output_sink_args(o, p.output_format),
        None => seq![],
    }) + output_format_args(p.output_format) + catalog_args(p.options@, windows)
}

/// The complete argument vector, in assembly order: the front, then the
/// positional input files.
pub open spec fn argv(p: Pandoc, windows: bool) -> Seq<Seq<char>> {
    front_argv(p, windows) + input_args(p.input)
}

// ---------------------------------------------------------------------------
// The child's search path.
// ---------------------------------------------------------------------------

/// The hard-coded typesetting-engine install directories of the platform.
pub open spec fn engine_dirs(windows: bool) -> Seq<Seq<char>> {
    if windows {
        seq![
            "C:\\Program Files (x86)\\MiKTeX 2.9\\miktex\\bin"@,
            "C:\\Program Files\\MiKTeX 2.9\\miktex\\bin"@,
        ]
    } else {
        seq!["/usr/local/bin"@, "/usr/local/texlive/2015/bin/i386-linux"@]
    }
}

/// The host's per-user converter directory as a path-list entry, when there
/// is one.
pub open spec fn user_dir_entries(env: HostEnv) -> Seq<Seq<char>> {
    match env.user_local_dir {
        Some(d) => seq![d@],
        None => seq![],
    }
}

/// Every directory of the child's search path, in consultation order:
/// engine hints, converter hints, the per-user install directory, the
/// hard-coded engine directories, then the inherited search path.
pub open spec fn search_dirs(p: Pandoc, env: HostEnv) -> Seq<Seq<char>> {
    p.latex_path_hint.deep_view() + p.pandoc_path_hint.deep_view() + user_dir_entries(env)
        + engine_dirs(env.windows) + seq![env.search_path@]
}

/// The value installed as the child's search-path variable: the search
/// directories joined by the platform delimiter, nothing deduplicated or
/// reordered.
pub open spec fn search_path_text(p: Pandoc, env: HostEnv) -> Seq<char> {
    join_with(search_dirs(p, env), path_delim(env.windows))
}

// ---------------------------------------------------------------------------
// Invocation assembly.
// ---------------------------------------------------------------------------

/// The payload written to the child's standard input, if the input is a
/// piped document.
pub open spec fn stdin_payload_of(p: Pandoc) -> Option<Seq<char>> {
    match p.input {
        Some(InputKind::Pipe(t)) => Some(t@),
        _ => None,
    }
}

/// Whether the configuration captures the child's standard output.
pub open spec fn captures_stdout(p: Pandoc) -> bool {
    p.output matches Some(OutputKind::Pipe)
}

/// The not-specified error a refused configuration earns: a missing
/// output sink is reported first, then a missing input source.
pub open spec fn refusal_of(p: Pandoc, e: PandocError) -> bool {
    &&& (p.output is None || p.input is None)
    &&& (e is NoOutputSpecified <==> p.output is None)
    &&& (e is NoInputSpecified <==> (p.output is Some && p.input is None))
    &&& (e is NoOutputSpecified || e is NoInputSpecified)
}

/// The invocation a configuration assembles, pinned field by field.
pub open spec fn invocation_of(p: Pandoc, env: HostEnv, inv: Invocation) -> bool {
    &&& inv.args.deep_view() == argv(p, env.windows)
    &&& inv.path_env@ == search_path_text(p, env)
    &&& match stdin_payload_of(p) {
        Some(t) => inv.stdin_payload matches Some(s) && s@ == t,
        None => inv.stdin_payload is None,
    }
    &&& inv.capture_stdout == captures_stdout(p)
    &&& inv.show_cmdline == p.print_pandoc_cmdline
}

/// Appends the source tokens to the destination, in order.
fn append_tokens(dst: &mut Vec<String>, src: Vec<String>)
    ensures
        final(dst).deep_view() == old(dst).deep_view() + src.deep_view(),
{
    let ghost s0 = src.deep_view();
    let mut moved = src;
    dst.append(&mut moved);
    proof {
        assert(dst.deep_view() =~= old(dst).deep_view() + s0);
    }
}

/// The `-f` segment of the argument vector.
fn input_format_flag(f: &Option<(InputFormat, Vec<MarkdownExtension>)>) -> (r: Vec<String>)
    ensures
        r.deep_view() == input_format_args(*f),
{
    match f {
        Some((fmt, exts)) => two_tokens("-f".to_owned(), render_format_token(fmt.name(), exts)),
        None => Vec::new(),
    }
}

/// The `-t` segment of the argument vector.
fn output_format_flag(f: &Option<(OutputFormat, Vec<MarkdownExtension>)>) -> (r: Vec<String>)
    ensures
        r.deep_view() == output_format_args(*f),
{
    match f {
        Some((fmt, exts)) => two_tokens("-t".to_owned(), render_format_token(fmt.name(), exts)),
        None => Vec::new(),
    }
}

/// The raw passthrough segment of the argument vector.
fn raw_arg_tokens(args: &Vec<(String, String)>) -> (r: Vec<String>)
    ensures
        r.deep_view() == raw_args(args@),
{
    let mut r: Vec<String> = Vec::new();
    let mut i: usize = 0;
    while i < args.len()
        invariant
            i <= args.len(),
            r@.len() == i,
            forall|j: int|
                0 <= j < i ==> #[trigger] r@[j]@ == "--"@ + args@[j].0@ + "="@ + args@[j].1@,
        decreases args.len() - i,
    {
        let mut t = "--".to_owned();
        t.append(args[i].0.as_str());
        t.append("=");
        t.append(args[i].1.as_str());
        r.push(t);
        i = i + 1;
    }
    proof {
        assert(r.deep_view() =~= raw_args(args@));
    }
    r
}

/// The output sink segment of the argument vector. The file name is moved
/// into the tokens; the caller keeps its own copy.
fn output_sink_tokens(
    output: OutputKind,
    output_format: &Option<(OutputFormat, Vec<MarkdownExtension>)>,
) -> (r: Vec<String>)
    ensures
        r.deep_view() == output_sink_args(output, *output_format),
{
    match output {
        OutputKind::File(name) => two_tokens("-o".to_owned(), name),
        OutputKind::Pipe => {
            match output_format {
                Some((OutputFormat::Pdf, _)) => two_tokens("-o".to_owned(), "-".to_owned()),
                _ => Vec::new(),
            }
        },
    }
}

/// The catalog segment of the argument vector: every option's tokens, in
/// insertion order.
fn catalog_tokens(opts: &Vec<PandocOption>, windows: bool) -> (r: Vec<String>)
    ensures
        r.deep_view() == catalog_args(opts@, windows),
{
    let mut r: Vec<String> = Vec::new();
    let mut i: usize = 0;
    while i < opts.len()
        invariant
            i <= opts.len(),
            r.deep_view() =~= catalog_args(opts@.take(i as int), windows),
        decreases opts.len() - i,
    {
        let tokens = opts[i].apply(windows);
        append_tokens(&mut r, tokens);
        proof {
            lemma_catalog_args_push(opts@.take(i as int), opts@[i as int], windows);
            assert(opts@.take(i as int + 1) =~= opts@.take(i as int).push(opts@[i as int]));
            assert(r.deep_view() =~= catalog_args(opts@.take(i as int + 1), windows));
        }
        i = i + 1;
    }
    proof {
        assert(opts@.take(opts@.len() as int) =~= opts@);
    }
    r
}

/// The child's search path, assembled from the hints and the host: hints
/// first, then the per-user directory, the hard-coded engine directories,
/// and the inherited path last.
fn assemble_search_path(
    latex_hints: &Vec<String>,
    pandoc_hints: &Vec<String>,
    env: &HostEnv,
) -> (r: String)
    ensures
        r@ == join_with(
            latex_hints.deep_view() + pandoc_hints.deep_view() + user_dir_entries(*env)
                + engine_dirs(env.windows) + seq![env.search_path@],
            path_delim(env.windows),
        ),
{
    let mut dirs = clone_string_vec(latex_hints);
    let mut more = clone_string_vec(pandoc_hints);
    dirs.append(&mut more);
    match &env.user_local_dir {
        Some(d) => dirs.push(d.clone()),
        None => {},
    }
    if env.windows {
        dirs.push("C:\\Program Files (x86)\\MiKTeX 2.9\\miktex\\bin".to_owned());
        dirs.push("C:\\Program Files\\MiKTeX 2.9\\miktex\\bin".to_owned());
    } else {
        dirs.push("/usr/local/bin".to_owned());
        dirs.push("/usr/local/texlive/2015/bin/i386-linux".to_owned());
    }
    dirs.push(env.search_path.clone());
    proof {
        assert(dirs.deep_view() =~= latex_hints.deep_view() + pandoc_hints.deep_view()
            + user_dir_entries(*env) + engine_dirs(env.windows) + seq![env.search_path@]);
    }
    join(&dirs, path_delim_str(env.windows))
}

impl Pandoc {
    /// Assembles the one invocation this configuration describes, consuming
    /// it. The output sink is checked first: without one the distinct
    /// no-output error comes back; with a sink but no input source, the
    /// distinct no-input error. With both set, assembly always succeeds and
    /// the invocation is pinned by [`invocation_of`].
    pub fn build_invocation(self, env: &HostEnv) -> (r: Result<
        (Invocation, OutputIntent),
        PandocError,
    >)
        ensures
            match r {
                Ok((inv, intent)) => {
                    &&& self.output is Some
                    &&& self.input is Some
                    &&& invocation_of(self, *env, inv)
                    &&& Some(intent.kind) == self.output
                    &&& intent.format == self.output_format
                },
                Err(e) => refusal_of(self, e),
            },
    {
        let path_env = assemble_search_path(&self.latex_path_hint, &self.pandoc_path_hint, env);
        let Pandoc {
            input,
            input_format,
            output,
            output_format,
            latex_path_hint: _,
            pandoc_path_hint: _,
            filters: _,
            args,
            options,
            print_pandoc_cmdline,
        } = self;
        let output = match output {
            Some(o) => o,
            None => {
                return Err(PandocError::NoOutputSpecified);
            },
        };
        let input = match input {
            Some(i) => i,
            None => {
                return Err(PandocError::NoInputSpecified);
            },
        };
        let capture_stdout = match &output {
            OutputKind::Pipe => true,
            OutputKind::File(_) => false,
        };
        // the intent keeps the sink; the tokens get a copy of the file name
        let sink_tokens_src = match &output {
            OutputKind::File(name) => OutputKind::File(name.clone()),
            OutputKind::Pipe => OutputKind::Pipe,
        };
        let mut argv_acc = input_format_flag(&input_format);
        append_tokens(&mut argv_acc, raw_arg_tokens(&args));
        append_tokens(&mut argv_acc, output_sink_tokens(sink_tokens_src, &output_format));
        append_tokens(&mut argv_acc, output_format_flag(&output_format));
        append_tokens(&mut argv_acc, catalog_tokens(&options, env.windows));
        let stdin_payload = match input {
            InputKind::Files(fs) => {
                append_tokens(&mut argv_acc, fs);
                None
            },
            InputKind::Pipe(text) => Some(text),
        };
        proof {
            assert(argv_acc.deep_view() =~= argv(self, env.windows));
        }
        let invocation = Invocation {
            args: argv_acc,
            path_env,
            stdin_payload,
            capture_stdout,
            show_cmdline: print_pandoc_cmdline,
        };
        let intent = OutputIntent { kind: output, format: output_format };
        Ok((invocation, intent))
    }
}

/// The pre-pass argument vector: the original input format, the
/// interchange format to a capture pipe, and the original input.
pub open spec fn prepass_argv(p: Pandoc) -> Seq<Seq<char>> {
    input_format_args(p.input_format) + seq!["-t"@, "json"@] + input_args(p.input)
}

/// The extension list of the configured input format, or empty.
pub open spec fn orig_ext_list(p: Pandoc) -> Seq<MarkdownExtension> {
    match p.input_format {
        Some((_, ex)) => ex@,
        None => seq![],
    }
}

/// What planning a filtered conversion leaves behind. The pre-pass
/// invocation consumes the original input and input format and writes the
/// interchange format to a capture pipe, under the same search path and
/// echo flag. The main configuration keeps everything else: its input is
/// cleared (the filtered text will be piped in), and its input format is
/// forced to the interchange format, preserving the original extension
/// list.
pub open spec fn filtered_plan_of(
    p: Pandoc,
    env: HostEnv,
    prepass: Invocation,
    main: Pandoc,
    filters: Seq<TextFilter>,
) -> bool {
    &&& prepass.args.deep_view() == prepass_argv(p)
    &&& prepass.path_env@ == search_path_text(p, env)
    &&& match stdin_payload_of(p) {
        Some(t) => prepass.stdin_payload matches Some(s) && s@ == t,
        None => prepass.stdin_payload is None,
    }
    &&& prepass.capture_stdout
    &&& prepass.show_cmdline == p.print_pandoc_cmdline
    &&& filters == p.filters@
    &&& main.input is None
    &&& (main.input_format matches Some((f, ex)) && f is Json && ex@ == orig_ext_list(p))
    &&& main.output == p.output
    &&& main.output_format == p.output_format
    &&& main.latex_path_hint@ == p.latex_path_hint@
    &&& main.pandoc_path_hint@ == p.pandoc_path_hint@
    &&& main.filters@.len() == 0
    &&& main.args == p.args
    &&& main.options == p.options
    &&& main.print_pandoc_cmdline == p.print_pandoc_cmdline
}

/// What the terminal call decided: either one invocation carries the whole
/// conversion, or a pre-pass runs first and the conversion resumes with
/// its outcome.
pub enum ExecPlan {
    /// no filters: one invocation does everything
    Direct {
        /// the invocation to run
        invocation: Invocation,
        /// what the run's success value is
        output: OutputIntent,
    },
    /// filters are registered: run the pre-pass, then resume
    Filtered {
        /// the pre-pass invocation
        prepass: Invocation,
        /// the remaining main configuration
        main: Pandoc,
        /// the registered filters, applied between the phases
        filters: Vec<TextFilter>,
    },
}

impl Pandoc {
    /// The terminal call's first step, consuming the configuration. The
    /// output sink is checked first, then the input source; on a refused
    /// configuration the distinct not-specified error comes back and
    /// nothing is handed to the host to run. With no filters registered
    /// this plans the one direct invocation; with filters, the pre-pass
    /// invocation is planned from the original input.
    pub fn plan(self, env: &HostEnv) -> (r: Result<ExecPlan, PandocError>)
        ensures
            self.filters@.len() == 0 ==> match r {
                Ok(plan) => plan matches ExecPlan::Direct { invocation, output } && {
                    &&& self.output is Some
                    &&& self.input is Some
                    &&& invocation_of(self, *env, invocation)
                    &&& Some(output.kind) == self.output
                    &&& output.format == self.output_format
                },
                Err(e) => refusal_of(self, e),
            },
            self.filters@.len() > 0 ==> match r {
                Ok(plan) => plan matches ExecPlan::Filtered { prepass, main, filters } && {
                    &&& self.output is Some
                    &&& self.input is Some
                    &&& filtered_plan_of(self, *env, prepass, main, filters@)
                },
                Err(e) => refusal_of(self, e),
            },
    {
        if self.filters.len() == 0 {
            match self.build_invocation(env) {
                Ok((invocation, output)) => Ok(ExecPlan::Direct { invocation, output }),
                Err(e) => Err(e),
            }
        } else {
            if self.output.is_none() {
                return Err(PandocError::NoOutputSpecified);
            }
            let Pandoc {
                input,
                input_format,
                output,
                output_format,
                latex_path_hint,
                pandoc_path_hint,
                filters,
                args,
                options,
                print_pandoc_cmdline,
            } = self;
            let (pre_input_format, main_ext) = match input_format {
                Some((fmt, ex)) => {
                    let ex_copy = duplicate_extensions(&ex);
                    (Some((fmt, ex)), ex_copy)
                },
                None => (None, Vec::new()),
            };
            let empty_ext: Vec<MarkdownExtension> = Vec::new();
            let pre = Pandoc {
                input,
                input_format: pre_input_format,
                output: Some(OutputKind::Pipe),
                output_format: Some((OutputFormat::Json, empty_ext)),
                latex_path_hint: clone_string_vec(&latex_path_hint),
                pandoc_path_hint: clone_string_vec(&pandoc_path_hint),
                filters: Vec::new(),
                args: Vec::new(),
                options: Vec::new(),
                print_pandoc_cmdline,
            };
            let ghost pre_snapshot = pre;
            let prepass = match pre.build_invocation(env) {
                Ok((inv, _intent)) => inv,
                Err(e) => {
                    return Err(e);
                },
            };
            proof {
                assert(ext_suffix(Seq::<MarkdownExtension>::empty()) == Seq::<char>::empty());
                assert(format_token("json"@, Seq::<MarkdownExtension>::empty()) =~= "json"@);
                assert(raw_args(Seq::<(String, String)>::empty())
                    =~= Seq::<Seq<char>>::empty());
                assert(catalog_args(Seq::<PandocOption>::empty(), env.windows)
                    == Seq::<Seq<char>>::empty());
                assert(prepass.args.deep_view() =~= prepass_argv(self));
                assert(pre_snapshot.latex_path_hint.deep_view()
                    =~= self.latex_path_hint.deep_view());
                assert(pre_snapshot.pandoc_path_hint.deep_view()
                    =~= self.pandoc_path_hint.deep_view());
                assert(search_dirs(pre_snapshot, *env) =~= search_dirs(self, *env));
            }
            let main = Pandoc {
                input: None,
                input_format: Some((InputFormat::Json, main_ext)),
                output,
                output_format,
                latex_path_hint,
                pandoc_path_hint,
                filters: Vec::new(),
                args,
                options,
                print_pandoc_cmdline,
            };
            Ok(ExecPlan::Filtered { prepass, main, filters })
        }
    }
}

/// The run's collected standard output, when the child succeeded; the
/// child's whole outcome as the failure error otherwise. A non-zero exit
/// is never swallowed.
pub fn collect_output(outcome: ProcessOutcome) -> (r: Result<Vec<u8>, PandocError>)
    ensures
        outcome.success ==> (r matches Ok(b) && b == outcome.stdout),
        !outcome.success ==> (r matches Err(e) && e matches PandocError::Failure(o) && o
            == outcome),
{
    if outcome.success {
        Ok(outcome.stdout)
    } else {
        Err(PandocError::Failure(outcome))
    }
}

/// Resumes a filtered conversion once the host has run the pre-pass. A
/// failed pre-pass becomes the failure error with the child's outcome
/// whole; its captured output must decode as UTF-8, every registered
/// filter is applied in order, and the filtered text becomes the piped
/// input of the main invocation, which is assembled as usual.
pub fn resume_filtered(
    main: Pandoc,
    filters: Vec<TextFilter>,
    prepass: ProcessOutcome,
    env: &HostEnv,
) -> (r: Result<(Invocation, OutputIntent), PandocError>)
    ensures
        !prepass.success ==> (r matches Err(e) && e matches PandocError::Failure(o) && o
            == prepass),
        prepass.success && !valid_utf8(prepass.stdout@) ==> (r matches Err(e)
            && e matches PandocError::BadUtf8Conversion(n) && valid_prefix_len(
            prepass.stdout@,
            n as int,
        )),
        prepass.success && valid_utf8(prepass.stdout@) ==> match r {
            Ok((inv, intent)) => {
                &&& main.output is Some
                &&& inv.args.deep_view() == front_argv(main, env.windows)
                &&& inv.path_env@ == search_path_text(main, *env)
                &&& inv.stdin_payload is Some
                &&& (filters@.len() == 0 ==> (inv.stdin_payload matches Some(t) && t@
                    == decode_utf8(prepass.stdout@)))
                &&& inv.capture_stdout == captures_stdout(main)
                &&& inv.show_cmdline == main.print_pandoc_cmdline
                &&& Some(intent.kind) == main.output
                &&& intent.format == main.output_format
            },
            Err(e) => e is NoOutputSpecified && main.output is None,
        },
{
    let bytes = match collect_output(prepass) {
        Ok(b) => b,
        Err(e) => {
            return Err(e);
        },
    };
    let text = match string_from_utf8(bytes) {
        Ok(s) => s,
        Err(n) => {
            return Err(PandocError::BadUtf8Conversion(n));
        },
    };
    let filtered = apply_filters(&filters, text);
    let mut fed = main;
    fed.input = Some(InputKind::Pipe(filtered));
    let ghost fed_snapshot = fed;
    match fed.build_invocation(env) {
        Ok((inv, intent)) => {
            proof {
                assert(front_argv(fed_snapshot, env.windows) == front_argv(main, env.windows));
                assert(input_args(fed_snapshot.input) == Seq::<Seq<char>>::empty());
                assert(inv.args.deep_view() =~= front_argv(main, env.windows));
                assert(search_dirs(fed_snapshot, *env) == search_dirs(main, *env));
            }
            Ok((inv, intent))
        },
        Err(e) => Err(e),
    }
}

/// Whether captured output of this format comes back as raw bytes: the
/// binary-producing format and the office-document format.
pub open spec fn raw_output_format(f: Option<(OutputFormat, Vec<MarkdownExtension>)>) -> bool {
    f matches Some((fmt, _)) && (fmt is Pdf || fmt is Docx)
}

/// Classifies the main invocation's outcome into the configured success
/// value: the destination path for a file sink; for a capture pipe, raw
/// bytes for the binary and office formats, and UTF-8 text otherwise, with
/// a distinct error carrying the count of valid leading bytes when the
/// bytes are not UTF-8. A failed child becomes the failure error, its outcome carried
/// whole.
pub fn finish(intent: OutputIntent, outcome: ProcessOutcome) -> (r: Result<
    PandocOutput,
    PandocError,
>)
    ensures
        !outcome.success ==> (r matches Err(e) && e matches PandocError::Failure(o) && o
            == outcome),
        outcome.success ==> match intent.kind {
            OutputKind::File(name) => r matches Ok(out) && out matches PandocOutput::ToFile(f)
                && f == name,
            OutputKind::Pipe => {
                if raw_output_format(intent.format) {
                    r matches Ok(out) && out matches PandocOutput::ToBufferRaw(b) && b
                        == outcome.stdout
                } else if valid_utf8(outcome.stdout@) {
                    r matches Ok(out) && out matches PandocOutput::ToBuffer(s) && s@
                        == decode_utf8(outcome.stdout@)
                } else {
                    r matches Err(e) && e matches PandocError::BadUtf8Conversion(n)
                        && valid_prefix_len(outcome.stdout@, n as int)
                }
            },
        },
{
    let bytes = match collect_output(outcome) {
        Ok(b) => b,
        Err(e) => {
            return Err(e);
        },
    };
    match intent.kind {
        OutputKind::File(name) => Ok(PandocOutput::ToFile(name)),
        OutputKind::Pipe => {
            let raw = match &intent.format {
                Some((OutputFormat::Pdf, _)) => true,
                Some((OutputFormat::Docx, _)) => true,
                _ => false,
            };
            if raw {
                Ok(PandocOutput::ToBufferRaw(bytes))
            } else {
                match string_from_utf8(bytes) {
                    Ok(s) => Ok(PandocOutput::ToBuffer(s)),
                    Err(n) => Err(PandocError::BadUtf8Conversion(n)),
                }
            }
        },
    }
}

impl Pandoc {
    /// The fully rendered output-format token, when an output format is
    /// set: what a template dump asks the converter to print.
    pub fn rendered_output_format(&self) -> (r: Option<String>)
        ensures
            match r {
                Some(s) => self.output_format matches Some((f, ex)) && s@ == format_token(
                    output_format_name(f),
                    ex@,
                ),
                None => self.output_format is None,
            },
    {
        match &self.output_format {
            Some((fmt, exts)) => Some(render_format_token(fmt.name(), exts)),
            None => None,
        }
    }
}


/// Rendering preserves insertion order: the catalog segment of the
/// argument vector splits at any point of the option list into the tokens
/// of the options before that point, followed by the tokens of the options
/// after it. No option's tokens move past another's.
pub proof fn lemma_catalog_order(opts: Seq<PandocOption>, i: int, windows: bool)
    requires
        0 <= i <= opts.len(),
    ensures
        catalog_args(opts, windows) == catalog_args(opts.take(i), windows) + catalog_args(
            opts.skip(i),
            windows,
        ),
    decreases i,
{
    if i == 0 {
        assert(opts.take(0) =~= Seq::<PandocOption>::empty());
        assert(opts.skip(0) =~= opts);
        assert(catalog_args(Seq::<PandocOption>::empty(), windows) == Seq::<Seq<char>>::empty());
        assert(catalog_args(opts, windows) =~= catalog_args(opts.take(0), windows) + catalog_args(
            opts.skip(0),
            windows,
        ));
    } else {
        lemma_catalog_order(opts.skip(1), i - 1, windows);
        assert(opts.take(i)[0] == opts[0]);
        assert(opts.take(i).skip(1) =~= opts.skip(1).take(i - 1));
        assert(opts.skip(i) =~= opts.skip(1).skip(i - 1));
        assert(catalog_args(opts, windows) =~= catalog_args(opts.take(i), windows) + catalog_args(
            opts.skip(i),
            windows,
        ));
    }
}

/// With no output sink configured, the terminal call returns the distinct
/// no-output error — whether or not filters are registered — and hands the
/// host nothing to run.
pub proof fn lemma_no_output_is_refused(p: Pandoc, env: &HostEnv, r: Result<ExecPlan, PandocError>)
    requires
        call_ensures(Pandoc::plan, (p, env), r),
        p.output is None,
    ensures
        r matches Err(e) && e is NoOutputSpecified,
{
}

/// With an output sink but no input source configured, the terminal call
/// returns the distinct no-input error. (The missing output sink is
/// reported first when both are absent.)
pub proof fn lemma_no_input_is_refused(p: Pandoc, env: &HostEnv, r: Result<ExecPlan, PandocError>)
    requires
        call_ensures(Pandoc::plan, (p, env), r),
        p.input is None,
        p.output is Some,
    ensures
        r matches Err(e) && e is NoInputSpecified,
{
}

/// Explicit hint directories stand before the inherited search path: the
/// assembled string is the hints joined in order, then the delimiter, then
/// the fixed directories and the inherited path — nothing deduplicated,
/// nothing reordered.
pub proof fn lemma_hints_precede_inherited_path(p: Pandoc, env: HostEnv)
    requires
        p.latex_path_hint@.len() + p.pandoc_path_hint@.len() > 0,
    ensures
        search_path_text(p, env) == join_with(
            p.latex_path_hint.deep_view() + p.pandoc_path_hint.deep_view(),
            path_delim(env.windows),
        ) + path_delim(env.windows) + join_with(
            user_dir_entries(env) + engine_dirs(env.windows) + seq![env.search_path@],
            path_delim(env.windows),
        ),
{
    let hints = p.latex_path_hint.deep_view() + p.pandoc_path_hint.deep_view();
    let rest = user_dir_entries(env) + engine_dirs(env.windows) + seq![env.search_path@];
    assert(search_dirs(p, env) =~= hints + rest);
    crate::text::lemma_join_with_concat(hints, rest, path_delim(env.windows));
}

} // verus!
