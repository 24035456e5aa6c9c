use contributions_tracker::dispatch::{cli, Action, Command, OpenapiParams, ServeParams};
use contributions_tracker::errors::Error;
use contributions_tracker::logging::{init, severity_for_verbosity, Severity};
use contributions_tracker::openapi::{
    generate_openapi, stub_api_description, PathItem, SpecDocument,
};
use contributions_tracker::report::{failure_line, report_outcome};

const EXPECTED_DOCUMENT: &str = "{\n  \"title\": \"Contributions Tracker API\",\n  \"version\": \"0.1.0\",\n  \"paths\": {}\n}\n";

#[test]
fn verbosity_zero_to_three_selects_increasing_severities() {
    assert!(matches!(severity_for_verbosity(0), Ok(Severity::Warning)));
    assert!(matches!(severity_for_verbosity(1), Ok(Severity::Info)));
    assert!(matches!(severity_for_verbosity(2), Ok(Severity::Debug)));
    assert!(matches!(severity_for_verbosity(3), Ok(Severity::Trace)));
}

#[test]
fn logger_initialization_succeeds_for_allowed_verbosity() {
    for verbose in 0u8..=3u8 {
        assert!(init(verbose).is_ok());
    }
}

#[test]
fn verbosity_four_fails_with_exact_message_and_no_logger() {
    let r = init(4);
    match r {
        Ok(_) => panic!("a verbosity of four must not produce a logger"),
        Err(Error::Config { message }) => {
            assert_eq!(message, "-v is only allowed up to 3 times.");
        }
        Err(_) => panic!("a verbosity of four must fail as a configuration error"),
    }
    match severity_for_verbosity(255) {
        Err(Error::Config { message }) => {
            assert_eq!(message, "-v is only allowed up to 3 times.");
        }
        _ => panic!("any verbosity above three must fail as a configuration error"),
    }
}

#[test]
fn openapi_without_output_path_prints_document_with_title_and_version() {
    let action = generate_openapi(&OpenapiParams { output: None });
    let contents = match action {
        Action::PrintStdout { contents } => contents,
        _ => panic!("without an output path the document goes to standard output"),
    };
    assert_eq!(contents, EXPECTED_DOCUMENT);
    let parsed: serde_json::Value = serde_json::from_str(&contents).unwrap();
    assert_eq!(
        parsed.get("title").and_then(|v| v.as_str()),
        Some("Contributions Tracker API")
    );
    assert_eq!(parsed.get("version").and_then(|v| v.as_str()), Some("0.1.0"));
}

#[test]
fn openapi_with_output_path_carries_identical_bytes() {
    let to_file = generate_openapi(&OpenapiParams {
        output: Some(String::from("spec.json")),
    });
    let to_stdout = generate_openapi(&OpenapiParams { output: None });
    let (path, file_contents) = match to_file {
        Action::WriteFile { path, contents } => (path, contents),
        _ => panic!("with an output path the document goes to a file"),
    };
    assert_eq!(path, "spec.json");
    let stdout_contents = match to_stdout {
        Action::PrintStdout { contents } => contents,
        _ => panic!("without an output path the document goes to standard output"),
    };
    assert_eq!(file_contents.as_bytes(), stdout_contents.as_bytes());
}

#[test]
fn stub_description_lists_no_routes() {
    assert!(stub_api_description().paths.is_empty());
}

#[test]
fn serve_command_hands_on_exactly_the_selected_parameters() {
    let command = Command::Serve(ServeParams {
        bind: String::from("127.0.0.1:0"),
        github_client_id: String::from("A"),
        github_client_secret: String::from("B"),
    });
    let plan = cli(0, command).unwrap();
    match plan.action {
        Action::Serve {
            bind,
            github_client_id,
            github_client_secret,
        } => {
            assert_eq!(bind, "127.0.0.1:0");
            assert_eq!(github_client_id, "A");
            assert_eq!(github_client_secret, "B");
        }
        _ => panic!("the serve command must select the serve action"),
    }
}

#[test]
fn dispatch_rejects_excessive_verbosity_before_any_work() {
    let command = Command::Openapi(OpenapiParams { output: None });
    match cli(4, command) {
        Err(Error::Config { message }) => {
            assert_eq!(message, "-v is only allowed up to 3 times.");
        }
        _ => panic!("a verbosity of four must fail the whole run"),
    }
}

#[test]
fn success_reports_exit_code_zero_and_no_line() {
    let (code, line) = report_outcome(&Ok(()));
    assert_eq!(code, 0);
    assert!(line.is_none());
}

#[test]
fn failure_reports_exit_code_one_and_one_prefixed_line() {
    let outcome = Err(Error::Service {
        message: String::from("connection refused"),
    });
    let (code, line) = report_outcome(&outcome);
    assert_eq!(code, 1);
    assert_eq!(line.as_deref(), Some("Error: connection refused\n"));
}

#[test]
fn failure_message_already_starting_with_error_keeps_its_form() {
    assert_eq!(failure_line("error: busy"), "error: busy\n");
    assert_eq!(failure_line("ERROR busy"), "ERROR busy\n");
    assert_eq!(failure_line("ErRoR"), "ErRoR\n");
    assert_eq!(failure_line("errant"), "Error: errant\n");
    assert_eq!(failure_line("err"), "Error: err\n");
    assert_eq!(failure_line(""), "Error: \n");
    assert_eq!(failure_line("\u{c9}rror x"), "Error: \u{c9}rror x\n");
}

#[test]
fn rendered_document_escapes_route_texts() {
    let document = SpecDocument {
        title: String::from("T"),
        version: String::from("9.8.7"),
        paths: vec![
            PathItem {
                path: String::from("/a\"b\\c"),
                summary: String::from("line\nbreak\ttab\rret"),
            },
            PathItem {
                path: String::from("/plain"),
                summary: String::from("bell\u{0007}end"),
            },
        ],
    };
    let text = document.render_pretty();
    let parsed: serde_json::Value = serde_json::from_str(&text).unwrap();
    assert_eq!(parsed.get("title").and_then(|v| v.as_str()), Some("T"));
    assert_eq!(parsed.get("version").and_then(|v| v.as_str()), Some("9.8.7"));
    let paths = parsed.get("paths").unwrap();
    let first = paths.get("/a\"b\\c").unwrap();
    assert_eq!(
        first.get("summary").and_then(|v| v.as_str()),
        Some("line\nbreak\ttab\rret")
    );
    let second = paths.get("/plain").unwrap();
    assert_eq!(
        second.get("summary").and_then(|v| v.as_str()),
        Some("bell\u{0007}end")
    );
    assert!(text.contains("\\u0007"));
}

#[test]
fn rendered_document_with_one_route_is_pretty_printed() {
    let description = stub_api_description();
    let mut document = description.openapi("T", String::from("0.0.1"));
    document.paths.push(PathItem {
        path: String::from("/contributions"),
        summary: String::from("List contributions"),
    });
    let text = document.render_pretty();
    let expected = "{\n  \"title\": \"T\",\n  \"version\": \"0.0.1\",\n  \"paths\": {\n    \"/contributions\": {\n      \"summary\": \"List contributions\"\n    }\n  }\n}\n";
    assert_eq!(text, expected);
}
