//! Planning invocations: argument assembly, search-path construction, and
//! the refusal of incomplete configurations.

use pandoc::ExecPlan;
use pandoc::HostEnv;
use pandoc::InputKind;
use pandoc::OutputFormat;
use pandoc::OutputKind;
use pandoc::PandocError;
use pandoc::PandocOption;

fn unix_env() -> HostEnv {
    HostEnv {
        windows: false,
        user_local_dir: None,
        search_path: "INHERITED".to_string(),
    }
}

#[test]
fn no_output_sink_is_refused_before_anything_runs() {
    let mut p = pandoc::new();
    p.add_input("cake");
    match p.plan(&unix_env()) {
        Err(PandocError::NoOutputSpecified) => {}
        _ => panic!("expected the no-output error"),
    }
}

#[test]
fn no_input_source_is_refused() {
    let mut p = pandoc::new();
    p.set_output(OutputKind::Pipe);
    match p.plan(&unix_env()) {
        Err(PandocError::NoInputSpecified) => {}
        _ => panic!("expected the no-input error"),
    }
}

#[test]
fn no_output_sink_is_refused_on_a_filtered_configuration() {
    let mut p = pandoc::new();
    p.set_input(InputKind::Pipe("doc".to_string()));
    p.add_filter(|s| s);
    match p.plan(&unix_env()) {
        Err(PandocError::NoOutputSpecified) => {}
        _ => panic!("expected the no-output error, before any pre-pass runs"),
    }
}

#[test]
fn no_input_source_is_refused_on_a_filtered_configuration() {
    let mut p = pandoc::new();
    p.set_output(OutputKind::Pipe);
    p.add_filter(|s| s);
    match p.plan(&unix_env()) {
        Err(PandocError::NoInputSpecified) => {}
        _ => panic!("expected the no-input error"),
    }
}

fn direct_invocation(p: pandoc::Pandoc, env: &HostEnv) -> pandoc::Invocation {
    match p.plan(env) {
        Ok(ExecPlan::Direct { invocation, .. }) => invocation,
        _ => panic!("expected a direct plan"),
    }
}

#[test]
fn assembled_argument_vector_for_a_full_scenario() {
    let mut p = pandoc::new();
    p.add_input("cake");
    p.set_output(OutputKind::File("lie".to_string()));
    p.set_chapters();
    p.set_number_sections();
    p.set_latex_template("template.tex");
    p.set_output_format(OutputFormat::Beamer, Vec::new());
    p.add_latex_path_hint("D:\\texlive\\2015\\bin\\win32");
    p.set_slide_level(3);
    p.set_toc();
    p.add_option(PandocOption::Strict);
    p.add_option(PandocOption::IndentedCodeClasses("cake".to_string()));
    let inv = direct_invocation(p, &unix_env());
    let args = &inv.args;
    let has = |t: &str| args.iter().any(|a| a == t);
    assert!(has("--template=template.tex"));
    assert!(has("--top-level-division=chapter"));
    assert!(has("--number-sections"));
    assert!(has("--slide-level=3"));
    assert!(has("--table-of-contents"));
    assert!(has("--strict"));
    assert!(has("--indented-code-classes=cake"));
    assert!(has("cake"));
    let t_at = args.iter().position(|a| a == "-t").expect("-t missing");
    assert_eq!(args[t_at + 1], "beamer");
    let o_at = args.iter().position(|a| a == "-o").expect("-o missing");
    assert_eq!(args[o_at + 1], "lie");
    // the input file is positional: it comes last
    assert_eq!(args.last().map(|s| s.as_str()), Some("cake"));
}

#[test]
fn options_keep_their_insertion_order_in_the_token_stream() {
    let mut p = pandoc::new();
    p.add_input("doc.md");
    p.set_output(OutputKind::Pipe);
    p.add_option(PandocOption::Verbose);
    p.add_option(PandocOption::Strict);
    p.add_options(vec![PandocOption::Trace, PandocOption::Listings]);
    let inv = direct_invocation(p, &unix_env());
    let pos = |t: &str| {
        inv.args
            .iter()
            .position(|a| a == t)
            .unwrap_or_else(|| panic!("missing token {}", t))
    };
    assert!(pos("--verbose") < pos("--strict"));
    assert!(pos("--strict") < pos("--trace"));
    assert!(pos("--trace") < pos("--listings"));
}

#[test]
fn path_hints_come_before_the_inherited_search_path() {
    let mut p = pandoc::new();
    p.add_latex_path_hint("h1");
    p.add_pandoc_path_hint("h2");
    p.add_input("doc.md");
    p.set_output(OutputKind::Pipe);
    let inv = direct_invocation(p, &unix_env());
    assert_eq!(
        inv.path_env,
        "h1:h2:/usr/local/bin:/usr/local/texlive/2015/bin/i386-linux:INHERITED"
    );
}

#[test]
fn windows_search_path_uses_semicolons_and_windows_directories() {
    let env = HostEnv {
        windows: true,
        user_local_dir: Some("C:\\Users\\me\\AppData\\Local\\Pandoc".to_string()),
        search_path: "C:\\Windows".to_string(),
    };
    let mut p = pandoc::new();
    p.add_latex_path_hint("h1");
    p.add_input("doc.md");
    p.set_output(OutputKind::Pipe);
    let inv = direct_invocation(p, &env);
    assert_eq!(
        inv.path_env,
        "h1;C:\\Users\\me\\AppData\\Local\\Pandoc;\
         C:\\Program Files (x86)\\MiKTeX 2.9\\miktex\\bin;\
         C:\\Program Files\\MiKTeX 2.9\\miktex\\bin;C:\\Windows"
    );
}

#[test]
fn piped_input_becomes_the_stdin_payload_and_no_positional_argument() {
    let mut p = pandoc::new();
    p.set_input(InputKind::Pipe("**doc**".to_string()));
    p.set_output(OutputKind::Pipe);
    let inv = direct_invocation(p, &unix_env());
    assert_eq!(inv.stdin_payload.as_deref(), Some("**doc**"));
    assert!(inv.capture_stdout);
    assert!(inv.args.is_empty());
}

#[test]
fn file_input_leaves_standard_input_alone() {
    let mut p = pandoc::new();
    p.add_input("a.md");
    p.add_input("b.md");
    p.set_output(OutputKind::File("out.html".to_string()));
    let inv = direct_invocation(p, &unix_env());
    assert!(inv.stdin_payload.is_none());
    assert!(!inv.capture_stdout);
    let n = inv.args.len();
    assert_eq!(inv.args[n - 2], "a.md");
    assert_eq!(inv.args[n - 1], "b.md");
}

#[test]
fn pdf_to_a_capture_pipe_is_steered_to_standard_output() {
    let mut p = pandoc::new();
    p.add_input("doc.md");
    p.set_output(OutputKind::Pipe);
    p.set_output_format(OutputFormat::Pdf, Vec::new());
    let inv = direct_invocation(p, &unix_env());
    let o_at = inv.args.iter().position(|a| a == "-o").expect("-o missing");
    assert_eq!(inv.args[o_at + 1], "-");
    assert!(inv.capture_stdout);
}

#[test]
fn format_extensions_join_the_format_token_with_plus_signs() {
    let mut p = pandoc::new();
    p.add_input("doc.md");
    p.set_output(OutputKind::Pipe);
    p.set_input_format(
        pandoc::InputFormat::Markdown,
        vec![
            pandoc::MarkdownExtension::Smart,
            pandoc::MarkdownExtension::HardLineBreaks,
        ],
    );
    let inv = direct_invocation(p, &unix_env());
    let f_at = inv.args.iter().position(|a| a == "-f").expect("-f missing");
    assert_eq!(inv.args[f_at + 1], "markdown+smart+hard_line_breaks");
}

#[test]
fn raw_arguments_render_as_long_flags() {
    let mut p = pandoc::new();
    p.add_input("doc.md");
    p.set_output(OutputKind::Pipe);
    p.arg("print-default-template", "latex");
    let inv = direct_invocation(p, &unix_env());
    assert!(inv.args.iter().any(|a| a == "--print-default-template=latex"));
}

#[test]
fn doc_class_and_variables_become_variable_options() {
    let mut p = pandoc::new();
    p.add_input("doc.md");
    p.set_output(OutputKind::Pipe);
    p.set_doc_class(pandoc::DocumentClass::Report);
    p.set_variable("geometry", "margin=1in");
    p.set_bibliography("refs.bib");
    p.set_csl("style.csl");
    let inv = direct_invocation(p, &unix_env());
    let args = &inv.args;
    let v_at = args.iter().position(|a| a == "-V").expect("-V missing");
    assert_eq!(args[v_at + 1], "documentclass:report");
    assert!(args.iter().any(|a| a == "--bibliography=refs.bib"));
    assert!(args.iter().any(|a| a == "--csl=style.csl"));
    let geom = args.iter().position(|a| a == "geometry:margin=1in");
    assert!(geom.is_some());
}

#[test]
fn show_cmdline_flag_is_carried_to_the_invocation() {
    let mut p = pandoc::new();
    p.add_input("doc.md");
    p.set_output(OutputKind::Pipe);
    p.set_show_cmdline(true);
    let inv = direct_invocation(p, &unix_env());
    assert!(inv.show_cmdline);
}

#[test]
fn rendered_output_format_names_the_template_to_dump() {
    let mut p = pandoc::new();
    p.set_output_format(OutputFormat::Latex, vec![pandoc::MarkdownExtension::Smart]);
    assert_eq!(p.rendered_output_format().as_deref(), Some("latex+smart"));
    let q = pandoc::new();
    assert!(q.rendered_output_format().is_none());
}

#[test]
fn a_cloned_configuration_plans_the_same_invocation() {
    let mut p = pandoc::new();
    p.add_input("doc.md");
    p.set_output(OutputKind::Pipe);
    p.add_option(PandocOption::Strict);
    p.add_filter(|s| s);
    let q = p.clone();
    let env = unix_env();
    let first = match p.plan(&env) {
        Ok(ExecPlan::Filtered { prepass, .. }) => prepass,
        _ => panic!("expected a filtered plan"),
    };
    let second = match q.plan(&env) {
        Ok(ExecPlan::Filtered { prepass, .. }) => prepass,
        _ => panic!("expected a filtered plan"),
    };
    assert_eq!(first.args, second.args);
    assert_eq!(first.path_env, second.path_env);
}
