//! Classifying what the child left behind, the filter pre-pass round trip,
//! and the error texts.

use pandoc::ExecPlan;
use pandoc::HostEnv;
use pandoc::InputKind;
use pandoc::OutputFormat;
use pandoc::OutputKind;
use pandoc::PandocError;
use pandoc::PandocOutput;
use pandoc::ProcessOutcome;
use pandoc::TextFilter;

fn unix_env() -> HostEnv {
    HostEnv {
        windows: false,
        user_local_dir: None,
        search_path: "INHERITED".to_string(),
    }
}

fn ok_outcome(stdout: &[u8]) -> ProcessOutcome {
    ProcessOutcome {
        success: true,
        code: Some(0),
        stdout: stdout.to_vec(),
        stderr: Vec::new(),
    }
}

fn failed_outcome(code: i32, stdout: &[u8], stderr: &[u8]) -> ProcessOutcome {
    ProcessOutcome {
        success: false,
        code: Some(code),
        stdout: stdout.to_vec(),
        stderr: stderr.to_vec(),
    }
}

fn intent_for(kind: OutputKind, format: Option<OutputFormat>) -> pandoc::OutputIntent {
    pandoc::OutputIntent {
        kind,
        format: format.map(|f| (f, Vec::new())),
    }
}

#[test]
fn identity_filters_leave_the_text_unchanged() {
    let filters = vec![
        TextFilter::new(|s| s),
        TextFilter::new(|s| s),
        TextFilter::new(|s| s),
    ];
    let out = pandoc::apply_filters(&filters, "{\"doc\": 1}".to_string());
    assert_eq!(out, "{\"doc\": 1}");
    let none: Vec<TextFilter> = Vec::new();
    assert_eq!(pandoc::apply_filters(&none, "x".to_string()), "x");
}

#[test]
fn filters_run_in_registration_order() {
    let filters = vec![
        TextFilter::new(|s| s + "a"),
        TextFilter::new(|s| s + "b"),
    ];
    assert_eq!(pandoc::apply_filters(&filters, "-".to_string()), "-ab");
}

#[test]
fn filtered_execution_round_trips_through_the_interchange_format() {
    let mut p = pandoc::new();
    p.set_input(InputKind::Pipe("**doc**".to_string()));
    p.set_input_format(pandoc::InputFormat::Markdown, Vec::new());
    p.set_output(OutputKind::Pipe);
    p.add_filter(|s| s);
    p.add_filter(|s| s);
    let env = unix_env();
    let (prepass, main, filters) = match p.plan(&env) {
        Ok(ExecPlan::Filtered { prepass, main, filters }) => (prepass, main, filters),
        _ => panic!("expected a filtered plan"),
    };
    // the pre-pass reads the original input and writes the interchange format
    assert_eq!(prepass.stdin_payload.as_deref(), Some("**doc**"));
    assert!(prepass.capture_stdout);
    let f_at = prepass.args.iter().position(|a| a == "-f").expect("-f missing");
    assert_eq!(prepass.args[f_at + 1], "markdown");
    let t_at = prepass.args.iter().position(|a| a == "-t").expect("-t missing");
    assert_eq!(prepass.args[t_at + 1], "json");
    // identity filters feed the pre-pass output through unchanged
    let interchange = b"{\"blocks\": []}";
    let (inv, intent) = pandoc::resume_filtered(main, filters, ok_outcome(interchange), &env)
        .expect("resume should succeed");
    assert_eq!(inv.stdin_payload.as_deref(), Some("{\"blocks\": []}"));
    let f_at = inv.args.iter().position(|a| a == "-f").expect("-f missing");
    assert_eq!(inv.args[f_at + 1], "json");
    // and the final outcome decodes like an unfiltered conversion's
    match pandoc::finish(intent, ok_outcome(b"result")) {
        Ok(PandocOutput::ToBuffer(s)) => assert_eq!(s, "result"),
        _ => panic!("expected decoded text output"),
    }
}

#[test]
fn forced_interchange_input_keeps_the_extension_list() {
    let mut p = pandoc::new();
    p.set_input(InputKind::Pipe("doc".to_string()));
    p.set_input_format(
        pandoc::InputFormat::Markdown,
        vec![pandoc::MarkdownExtension::Smart],
    );
    p.set_output(OutputKind::Pipe);
    p.add_filter(|s| s);
    let env = unix_env();
    let (prepass, main, filters) = match p.plan(&env) {
        Ok(ExecPlan::Filtered { prepass, main, filters }) => (prepass, main, filters),
        _ => panic!("expected a filtered plan"),
    };
    let f_at = prepass.args.iter().position(|a| a == "-f").expect("-f missing");
    assert_eq!(prepass.args[f_at + 1], "markdown+smart");
    let (inv, _intent) = pandoc::resume_filtered(main, filters, ok_outcome(b"{}"), &env)
        .expect("resume should succeed");
    let f_at = inv.args.iter().position(|a| a == "-f").expect("-f missing");
    assert_eq!(inv.args[f_at + 1], "json+smart");
}

#[test]
fn resuming_without_an_output_sink_is_refused() {
    // a main configuration built by hand, with no output sink
    let main = pandoc::Pandoc {
        input: None,
        input_format: None,
        output: None,
        output_format: None,
        latex_path_hint: Vec::new(),
        pandoc_path_hint: Vec::new(),
        filters: Vec::new(),
        args: Vec::new(),
        options: Vec::new(),
        print_pandoc_cmdline: false,
    };
    let env = unix_env();
    match pandoc::resume_filtered(main, Vec::new(), ok_outcome(b"{}"), &env) {
        Err(PandocError::NoOutputSpecified) => {}
        _ => panic!("expected the no-output error"),
    }
}

#[test]
fn failed_prepass_stops_the_conversion_with_the_child_outcome() {
    let mut p = pandoc::new();
    p.set_input(InputKind::Pipe("doc".to_string()));
    p.set_output(OutputKind::Pipe);
    p.add_filter(|s| s);
    let env = unix_env();
    let (main, filters) = match p.plan(&env) {
        Ok(ExecPlan::Filtered { main, filters, .. }) => (main, filters),
        _ => panic!("expected a filtered plan"),
    };
    match pandoc::resume_filtered(main, filters, failed_outcome(2, b"", b"boom"), &env) {
        Err(PandocError::Failure(o)) => {
            assert_eq!(o.code, Some(2));
            assert_eq!(o.stderr, b"boom".to_vec());
        }
        _ => panic!("expected the failure error"),
    }
}

#[test]
fn file_sink_success_names_the_destination() {
    let intent = intent_for(OutputKind::File("out.pdf".to_string()), Some(OutputFormat::Pdf));
    match pandoc::finish(intent, ok_outcome(b"")) {
        Ok(PandocOutput::ToFile(name)) => assert_eq!(name, "out.pdf"),
        _ => panic!("expected the destination path"),
    }
}

#[test]
fn binary_and_office_formats_come_back_raw() {
    let intent = intent_for(OutputKind::Pipe, Some(OutputFormat::Pdf));
    match pandoc::finish(intent, ok_outcome(&[0xff, 0x00, 0x07])) {
        Ok(PandocOutput::ToBufferRaw(b)) => assert_eq!(b, vec![0xff, 0x00, 0x07]),
        _ => panic!("expected raw bytes"),
    }
    let intent = intent_for(OutputKind::Pipe, Some(OutputFormat::Docx));
    match pandoc::finish(intent, ok_outcome(&[0xfe])) {
        Ok(PandocOutput::ToBufferRaw(b)) => assert_eq!(b, vec![0xfe]),
        _ => panic!("expected raw bytes"),
    }
}

#[test]
fn text_formats_decode_as_utf8() {
    let intent = intent_for(OutputKind::Pipe, Some(OutputFormat::Html));
    match pandoc::finish(intent, ok_outcome("<p>d\u{00e9}j\u{00e0}</p>".as_bytes())) {
        Ok(PandocOutput::ToBuffer(s)) => assert_eq!(s, "<p>d\u{00e9}j\u{00e0}</p>"),
        _ => panic!("expected decoded text"),
    }
}

#[test]
fn invalid_utf8_reports_the_valid_prefix_length() {
    let intent = intent_for(OutputKind::Pipe, None);
    match pandoc::finish(intent, ok_outcome(&[0x66, 0x6f, 0xff, 0x6f])) {
        Err(PandocError::BadUtf8Conversion(n)) => assert_eq!(n, 2),
        _ => panic!("expected the UTF-8 error"),
    }
}

#[test]
fn nonzero_exit_is_reported_with_both_streams() {
    let intent = intent_for(OutputKind::Pipe, None);
    match pandoc::finish(intent, failed_outcome(64, b"partial", b"bad input")) {
        Err(PandocError::Failure(o)) => {
            assert_eq!(o.code, Some(64));
            assert_eq!(o.stdout, b"partial".to_vec());
            assert_eq!(o.stderr, b"bad input".to_vec());
        }
        _ => panic!("expected the failure error"),
    }
}

#[test]
fn failure_message_contains_the_captured_stderr() {
    let intent = intent_for(OutputKind::Pipe, None);
    let err = match pandoc::finish(intent, failed_outcome(1, b"", b"pandoc: unknown option")) {
        Err(e) => e,
        Ok(_) => panic!("expected an error"),
    };
    let text = err.message();
    assert!(text.contains("pandoc: unknown option"));
    assert!(text.contains("exit_code: Some(1)"));
}

#[test]
fn error_messages_render_exactly() {
    assert_eq!(
        PandocError::NoOutputSpecified.message(),
        "No output file was specified"
    );
    assert_eq!(
        PandocError::NoInputSpecified.message(),
        "No input files were specified"
    );
    assert_eq!(
        PandocError::PandocNotFound.message(),
        "Pandoc not found, did you forget to install pandoc?"
    );
    assert_eq!(
        PandocError::BadUtf8Conversion(17).message(),
        "UTF-8 conversion of pandoc output failed after byte 17."
    );
    let failure = PandocError::Failure(failed_outcome(3, b"out", b"err"));
    assert_eq!(failure.message(), "exit_code: Some(3)stdout: outstderr: err");
}

#[test]
fn io_failures_are_told_apart_from_a_missing_converter() {
    match PandocError::from_io(true, "anything".to_string()) {
        PandocError::PandocNotFound => {}
        _ => panic!("expected the not-found kind"),
    }
    match PandocError::from_io(false, "broken pipe".to_string()) {
        PandocError::IoErr(m) => assert_eq!(m, "broken pipe"),
        _ => panic!("expected the plain I/O kind"),
    }
}

#[test]
fn collected_output_is_the_captured_stdout() {
    match pandoc::collect_output(ok_outcome(b"bytes")) {
        Ok(b) => assert_eq!(b, b"bytes".to_vec()),
        Err(_) => panic!("expected the captured bytes"),
    }
    assert!(matches!(
        pandoc::collect_output(failed_outcome(1, b"", b"")),
        Err(PandocError::Failure(_))
    ));
}
