use pretty::bootstrap::{setup_outcome, should_write_asset};
use pretty::config::{merge_opt, merge_text, output_location, CliArgs, Config};
use pretty::error::{CompilationError, DownloadError, PrettyError};
use pretty::paths::join;
use pretty::pipeline::{check_status, conversion, download_url, Action, Pipeline, Stage};
use pretty::text::decimal;

fn s(x: &str) -> String {
    x.to_string()
}

fn base() -> Config {
    Config::with_config_dir(&s("/home/u/.config/pretty"))
}

fn empty_layer() -> Config {
    let mut c = base();
    c.config_dir = String::new();
    c.config_file = String::new();
    c.output_file_name = String::new();
    c.title = String::new();
    c.font = String::new();
    c.toc_title = String::new();
    c
}

#[test]
fn defaults_are_fixed() {
    let c = base();
    assert_eq!(c.output_file_name, "pretty");
    assert_eq!(c.title, "Pretty Document");
    assert_eq!(c.font, "Ubuntu");
    assert_eq!(c.toc_title, "Table of Contents");
    assert_eq!(c.config_file, "/home/u/.config/pretty/pretty.yaml");
    assert!(!c.show && !c.keep && !c.hedgedoc);
    assert!(c.input_path.is_none() && c.domain.is_none() && c.document_id.is_none());
    assert_eq!(c.get_author(), "");
}

#[test]
fn new_uses_a_pretty_directory() {
    match Config::new() {
        Ok(c) => {
            assert!(c.config_dir.ends_with("/pretty"));
            assert!(c.config_file.ends_with("/pretty/pretty.yaml"));
        }
        Err(e) => assert_eq!(e, PrettyError::ConfigDirNotFound),
    }
}

#[test]
fn merge_text_and_option_rules() {
    assert_eq!(merge_text(&s("a"), &s("b")), "a");
    assert_eq!(merge_text(&s(""), &s("b")), "b");
    assert_eq!(merge_opt(&Some(s("a")), &Some(s("b"))), Some(s("a")));
    assert_eq!(merge_opt(&None, &Some(s("b"))), Some(s("b")));
    assert_eq!(merge_opt(&None, &None), None);
}

#[test]
fn merge_keeps_fields_set_by_higher_layer() {
    let mut hi = empty_layer();
    hi.title = s("Mine");
    hi.domain = Some(s("https://a.example"));
    hi.show = true;
    let mut lo = base();
    lo.domain = Some(s("https://b.example"));
    let r = hi.merge(&lo);
    assert_eq!(r.title, "Mine");
    assert_eq!(r.domain, Some(s("https://a.example")));
    assert!(r.show);
}

#[test]
fn merge_fills_zero_fields_from_lower_layer() {
    let hi = empty_layer();
    let mut lo = base();
    lo.author = Some(s("Ada"));
    lo.keep = true;
    let r = hi.merge(&lo);
    assert_eq!(r.title, "Pretty Document");
    assert_eq!(r.font, "Ubuntu");
    assert_eq!(r.author, Some(s("Ada")));
    assert!(r.keep);
    assert_eq!(r.config_dir, "/home/u/.config/pretty");
}

#[test]
fn files_override_defaults_in_order() {
    let mut c = base();
    let mut persisted = empty_layer();
    persisted.title = s("Persisted");
    persisted.font = s("Serif");
    let mut local = empty_layer();
    local.title = s("Local");
    c.load_config(&Some(persisted), &Some(local));
    assert_eq!(c.title, "Local");
    assert_eq!(c.font, "Serif");
    assert_eq!(c.toc_title, "Table of Contents");
}

#[test]
fn missing_files_leave_configuration() {
    let mut c = base();
    c.load_config(&None, &None);
    assert_eq!(c.title, "Pretty Document");
}

#[test]
fn cli_overrides_only_given_fields() {
    let mut c = base();
    c.domain = Some(s("https://file.example"));
    c.document_id = Some(s("abc"));
    c.hedgedoc = true;
    let args = CliArgs {
        input_path: Some(s("in.md")),
        output_path: None,
        show: true,
        hedgedoc: false,
        domain: Some(s("https://cli.example")),
        document_id: None,
        keep: false,
    };
    c.apply_cli(&args);
    assert_eq!(c.input_path, Some(s("in.md")));
    assert_eq!(c.domain, Some(s("https://cli.example")));
    assert_eq!(c.document_id, Some(s("abc")));
    assert!(c.hedgedoc);
    assert!(c.show);
    assert!(!c.keep);
}

#[test]
fn join_adds_one_separator() {
    assert_eq!(join(&s("/tmp"), "a.pdf"), "/tmp/a.pdf");
    assert_eq!(join(&s("/tmp/"), "a.pdf"), "/tmp/a.pdf");
    assert_eq!(join(&s(""), "a.pdf"), "a.pdf");
    assert_eq!(join(&s("/tmp"), "/abs/a.pdf"), "/abs/a.pdf");
}

#[test]
fn location_of_directory_uses_default_name() {
    let r = output_location(&s("/d"), true, Some(s("/")), Some(s("d")), None);
    assert_eq!(r, Ok((s("/d"), s("pretty"))));
}

#[test]
fn location_of_file_uses_parent_and_stem() {
    let r = output_location(&s("/d/report.pdf"), false, Some(s("/d")), Some(s("report")), None);
    assert_eq!(r, Ok((s("/d"), s("report"))));
}

#[test]
fn location_without_parent_uses_working_directory() {
    let r = output_location(&s("report.pdf"), false, Some(s("")), Some(s("report")), Some(s("/w")));
    assert_eq!(r, Ok((s("/w"), s("report"))));
    let r = output_location(&s("report.pdf"), false, None, None, Some(s("/w")));
    assert_eq!(r, Ok((s("/w"), s("pretty"))));
}

#[test]
fn location_fails_without_any_directory() {
    let r = output_location(&s("report.pdf"), false, Some(s("")), Some(s("report")), None);
    assert_eq!(r, Err(PrettyError::InvalidPath(s("report.pdf"))));
}

#[test]
fn existing_directory_resolves_to_default_name() {
    let mut c = base();
    assert_eq!(c.set_output_path(&s("/tmp"), None), Ok(()));
    assert_eq!(c.output_dir, "/tmp");
    assert_eq!(c.output_file_name, "pretty");
    assert_eq!(c.get_output_pdf(), "/tmp/pretty.pdf");
}

#[test]
fn file_path_resolves_to_parent_and_stem() {
    let mut c = base();
    assert_eq!(c.set_output_path(&s("/tmp/report.pdf"), None), Ok(()));
    assert_eq!(c.output_dir, "/tmp");
    assert_eq!(c.output_file_name, "report");
    assert_eq!(c.get_output_pdf(), "/tmp/report.pdf");
    assert_eq!(c.get_output_md(), "/tmp/report.md");
}

#[test]
fn relative_file_resolves_against_working_directory() {
    let mut c = base();
    assert_eq!(c.set_output_path(&s("summary.pdf"), Some(s("/tmp"))), Ok(()));
    assert_eq!(c.get_output_pdf(), "/tmp/summary.pdf");
}

#[test]
fn missing_parent_directory_fails() {
    let mut c = base();
    let r = c.set_output_path(&s("/no/such/dir/for/pretty/report.pdf"), None);
    assert_eq!(r, Err(PrettyError::InvalidPath(s("/no/such/dir/for/pretty"))));
    assert!(matches!(r, Err(PrettyError::InvalidPath(_))));
    assert_eq!(c.output_file_name, "pretty");
    assert_eq!(c.output_dir, "");
}

#[test]
fn getters_and_setters() {
    let mut c = base();
    c.set_input_path(s("a.md"));
    assert_eq!(c.get_input_path(), Some(s("a.md")));
    c.set_domain(&s("https://h.example"));
    assert_eq!(c.get_domain(), Some(s("https://h.example")));
    c.set_document_id(&s("xyz"));
    assert_eq!(c.get_document_id(), Some(s("xyz")));
    c.set_hedgedoc(true);
    assert!(c.is_hedgedoc());
    c.set_keep(true);
    assert!(c.should_keep());
    c.set_show(true);
    assert!(c.should_show());
    assert_eq!(c.get_title(), "Pretty Document");
    assert_eq!(c.get_font(), "Ubuntu");
    assert_eq!(c.get_toc_title(), "Table of Contents");
    assert_eq!(c.get_config_dir(), "/home/u/.config/pretty");
    c.author = Some(s("Ada"));
    assert_eq!(c.get_author(), "Ada");
}

#[test]
fn decimal_rendering() {
    assert_eq!(decimal(0), "0");
    assert_eq!(decimal(404), "404");
    assert_eq!(decimal(65535), "65535");
}

#[test]
fn error_messages() {
    assert_eq!(
        DownloadError::StatusCode(404).message(),
        "DownloadError occurred: Unexpected status code: 404 Not Found"
    );
    assert_eq!(
        DownloadError::Reqwest(s("x")).message(),
        "DownloadError occurred: Failed to request content url \"x\""
    );
    assert_eq!(
        DownloadError::IO(s("disk")).message(),
        "DownloadError occurred: Couldn't save to file \"disk\""
    );
    assert_eq!(
        CompilationError::Pandoc(s("exit 1")).message(),
        "CompilationError occurred: Failed to run pandoc: exit 1"
    );
    assert_eq!(
        PrettyError::ConfigDirNotFound.message(),
        "An Error occurred during execution: Config directory could not be found"
    );
    assert_eq!(
        PrettyError::Download(DownloadError::StatusCode(500)).message(),
        "An Error occurred during execution: DownloadError occurred: Unexpected status code: 500 Internal Server Error"
    );
    assert_eq!(
        DownloadError::StatusCode(599).message(),
        "DownloadError occurred: Unexpected status code: 599 <unknown status code>"
    );
    assert!(PrettyError::Copy(s("denied")).message().contains("The PDF was produced"));
    assert!(PrettyError::Open(s("no viewer")).message().contains("The PDF was produced"));
}

#[test]
fn error_conversions() {
    assert_eq!(
        PrettyError::from(DownloadError::StatusCode(404)),
        PrettyError::Download(DownloadError::StatusCode(404))
    );
    assert_eq!(
        PrettyError::from(CompilationError::OSUnsupported),
        PrettyError::Compilation(CompilationError::OSUnsupported)
    );
}

#[test]
fn status_check() {
    assert_eq!(check_status(200), Ok(()));
    assert_eq!(check_status(299), Ok(()));
    assert_eq!(check_status(199), Err(DownloadError::StatusCode(199)));
    assert_eq!(check_status(404), Err(DownloadError::StatusCode(404)));
    assert_eq!(check_status(300), Err(DownloadError::StatusCode(300)));
}

#[test]
fn url_of_remote_document() {
    assert_eq!(download_url(&s("https://md.example"), &s("abc")), "https://md.example/abc/download");
}

#[test]
fn conversion_arguments() {
    let mut c = base();
    c.output_dir = s("/out");
    c.set_input_path(s("doc.md"));
    let job = conversion(&c).unwrap();
    assert_eq!(job.output_pdf, "/out/pretty.pdf");
    assert_eq!(job.template, "/home/u/.config/pretty/template.tex");
    let args = job.arguments();
    assert_eq!(
        args,
        vec![
            s("doc.md"),
            s("-f"),
            s("markdown"),
            s("-t"),
            s("pdf"),
            s("--template=/home/u/.config/pretty/template.tex"),
            s("-V"),
            s("mainfont=Ubuntu"),
            s("-V"),
            s("title:Pretty Document"),
            s("-V"),
            s("toc-title:Table of Contents"),
            s("--pdf-engine=xelatex"),
            s("-o"),
            s("/out/pretty.pdf"),
        ]
    );
}

#[test]
fn conversion_without_input_fails() {
    assert!(matches!(conversion(&base()), Err(CompilationError::FileNotFound)));
}

fn remote_config() -> Config {
    let mut c = base();
    c.output_dir = s("/out");
    c.hedgedoc = true;
    c.domain = Some(s("https://md.example"));
    c.document_id = Some(s("abc"));
    c
}

#[test]
fn remote_not_found_fails_without_conversion() {
    let mut p = Pipeline::new(remote_config(), s("/tmp/pretty.md"));
    match p.start() {
        Action::Fetch { url, dest } => {
            assert_eq!(url, "https://md.example/abc/download");
            assert_eq!(dest, "/tmp/pretty.md");
        }
        other => panic!("unexpected {:?}", other),
    }
    let e = PrettyError::Download(check_status(404).unwrap_err());
    let a = p.advance(Err(e));
    assert!(matches!(a, Action::Fail(PrettyError::Download(DownloadError::StatusCode(404)))));
    assert_eq!(p.stage, Stage::Failed);
}

#[test]
fn remote_without_document_id_finishes_quietly() {
    let mut c = remote_config();
    c.document_id = None;
    let mut p = Pipeline::new(c, s("/tmp/pretty.md"));
    let a = p.start();
    assert!(matches!(a, Action::Finish(Some(ref n)) if n == "No document id given."));
    assert_eq!(p.stage, Stage::Done);
}

#[test]
fn remote_without_domain_finishes_quietly() {
    let mut c = remote_config();
    c.domain = None;
    let mut p = Pipeline::new(c, s("/tmp/pretty.md"));
    assert!(matches!(p.start(), Action::Finish(Some(ref n)) if n == "No domain of hedgedoc instance given."));
    assert_eq!(p.stage, Stage::Done);
}

#[test]
fn local_run_converts_once_and_nothing_else() {
    let mut c = base();
    c.output_dir = s("/out");
    c.set_input_path(s("notes.md"));
    let mut p = Pipeline::new(c, s("/tmp/pretty.md"));
    match p.start() {
        Action::Convert(job) => {
            assert_eq!(job.input, "notes.md");
            assert_eq!(job.output_pdf, "/out/pretty.pdf");
        }
        other => panic!("unexpected {:?}", other),
    }
    assert!(matches!(p.advance(Ok(())), Action::Finish(None)));
    assert_eq!(p.stage, Stage::Done);
}

#[test]
fn local_run_without_input_fails() {
    let mut p = Pipeline::new(base(), s("/tmp/pretty.md"));
    assert!(matches!(
        p.start(),
        Action::Fail(PrettyError::Compilation(CompilationError::FileNotFound))
    ));
    assert_eq!(p.stage, Stage::Failed);
}

#[test]
fn remote_run_keeps_and_shows() {
    let mut c = remote_config();
    c.keep = true;
    c.show = true;
    c.set_input_path(s("ignored.md"));
    let mut p = Pipeline::new(c, s("/tmp/pretty.md"));
    assert!(matches!(p.start(), Action::Fetch { .. }));
    match p.advance(Ok(())) {
        Action::Convert(job) => assert_eq!(job.input, "/tmp/pretty.md"),
        other => panic!("unexpected {:?}", other),
    }
    match p.advance(Ok(())) {
        Action::Preserve { from, to } => {
            assert_eq!(from, "/tmp/pretty.md");
            assert_eq!(to, "/out/pretty.md");
        }
        other => panic!("unexpected {:?}", other),
    }
    match p.advance(Ok(())) {
        Action::Open { pdf } => assert_eq!(pdf, "/out/pretty.pdf"),
        other => panic!("unexpected {:?}", other),
    }
    assert!(matches!(p.advance(Ok(())), Action::Finish(None)));
    assert_eq!(p.stage, Stage::Done);
}

#[test]
fn copy_failure_ends_run() {
    let mut c = remote_config();
    c.keep = true;
    let mut p = Pipeline::new(c, s("/tmp/pretty.md"));
    p.start();
    p.advance(Ok(()));
    assert!(matches!(p.advance(Ok(())), Action::Preserve { .. }));
    let a = p.advance(Err(PrettyError::Copy(s("denied"))));
    assert!(matches!(a, Action::Fail(PrettyError::Copy(_))));
    assert_eq!(p.stage, Stage::Failed);
}

#[test]
fn local_keep_does_not_copy() {
    let mut c = base();
    c.keep = true;
    c.set_input_path(s("notes.md"));
    let mut p = Pipeline::new(c, s("/tmp/pretty.md"));
    p.start();
    assert!(matches!(p.advance(Ok(())), Action::Finish(None)));
}

#[test]
fn assets_written_only_when_absent() {
    assert!(should_write_asset(Some(false)));
    assert!(!should_write_asset(Some(true)));
    assert!(!should_write_asset(None));
}

#[test]
fn setup_reports_first_missing_asset() {
    let names = vec![s("pretty.yaml"), s("template.tex")];
    assert_eq!(setup_outcome(&names, &vec![true, true]), Ok(()));
    assert_eq!(
        setup_outcome(&names, &vec![true, false]),
        Err(PrettyError::Initialization(s("missing asset: template.tex")))
    );
    assert_eq!(
        setup_outcome(&names, &vec![false, false]),
        Err(PrettyError::Initialization(s("missing asset: pretty.yaml")))
    );
}

#[test]
fn platform_dir_decides_success() {
    assert_eq!(Config::from_platform_dir(None).unwrap_err(), PrettyError::ConfigDirNotFound);
    let c = Config::from_platform_dir(Some(s("/home/u/.config"))).unwrap();
    assert_eq!(c.config_dir, "/home/u/.config/pretty");
    assert_eq!(c.config_file, "/home/u/.config/pretty/pretty.yaml");
    assert_eq!(c.title, "Pretty Document");
}

#[test]
fn files_cannot_move_configuration_directory() {
    let mut c = base();
    let mut layer = empty_layer();
    layer.config_dir = s("/elsewhere");
    layer.config_file = s("/elsewhere/pretty.yaml");
    c.load_config(&Some(layer.clone()), &Some(layer));
    assert_eq!(c.get_config_dir(), "/home/u/.config/pretty");
    assert_eq!(c.config_file, "/home/u/.config/pretty/pretty.yaml");
}

#[test]
fn existing_directory_ignores_configured_name() {
    let mut c = base();
    c.output_file_name = s("report");
    assert_eq!(c.set_output_path(&s("/tmp"), None), Ok(()));
    assert_eq!(c.output_file_name, "pretty");
    assert_eq!(c.get_output_pdf(), "/tmp/pretty.pdf");
}

#[test]
fn commit_output_needs_existing_directory() {
    let mut c = base();
    assert_eq!(
        c.commit_output(s("/missing"), s("report"), false),
        Err(PrettyError::InvalidPath(s("/missing")))
    );
    assert_eq!(c.output_file_name, "pretty");
    assert_eq!(c.commit_output(s("/out"), s("report"), true), Ok(()));
    assert_eq!(c.get_output_md(), "/out/report.md");
}
