use ptx_builder::error::BuildErrorKind;
use ptx_builder::executable::{find_version, Executable, Output, Step};

fn cargo() -> Executable {
    Executable::new(
        "cargo",
        "Please make sure you have it installed and in PATH",
        "Please update Rust and Cargo",
        Some(">= 1.34.0-nightly"),
    )
}

fn non_existing_command() -> Executable {
    Executable::new(
        "almost-unique-name",
        "Some useful hint",
        "Some useful hint about version",
        None,
    )
}

fn unrealistic_command() -> Executable {
    Executable::new(
        "cargo",
        "Some useful hint",
        "Some useful hint about version",
        Some("> 100.0.0"),
    )
}

#[test]
fn after_exit_drops_the_final_line_feed_of_the_output() {
    let output = cargo().after_exit(0, "sample_ptx_crate\n", "");

    assert!(output.is_ok());
    assert_eq!(output.unwrap().stdout, String::from("sample_ptx_crate"));
}

#[test]
fn should_check_exit_code() {
    let output = cargo().after_exit(
        1,
        "",
        "error: Found argument '--unknown-flag' which wasn't expected, or isn't valid in this context\n",
    );

    match output.unwrap_err() {
        BuildErrorKind::CommandFailed { command, code, stderr } => {
            assert_eq!(command, "cargo");
            assert_eq!(code, 1);

            println!("{stderr}");

            assert!(stderr.contains("argument '--unknown-flag'"));
        }

        _ => unreachable!("it should fail with proper error"),
    }
}

#[test]
fn executable_should_not_provide_output() {
    let output = non_existing_command().after_discovery(false);

    match output.unwrap_err() {
        BuildErrorKind::CommandNotFound { command, hint } => {
            assert_eq!(command, "almost-unique-name");
            assert_eq!(hint, "Some useful hint");
        }

        _ => unreachable!("it should fail with proper error"),
    }
}

#[test]
fn executable_should_not_provide_output_for_an_unfulfilled_version() {
    let output = unrealistic_command().check_version("cargo 1.70.0 (ec8a8a0ca 2023-04-25)\n");

    match output.unwrap_err() {
        BuildErrorKind::CommandVersionNotFulfilled { command, current, required, hint } => {
            assert_eq!(command, "cargo");
            assert_eq!(current, "1.70.0");
            assert_eq!(required, "> 100.0.0");
            assert_eq!(hint, "Some useful hint about version");
        }

        _ => unreachable!("it should fail with proper error"),
    }
}

#[test]
fn after_discovery_asks_for_the_version_where_one_is_required() {
    assert_eq!(cargo().after_discovery(true), Ok(Step::QueryVersion));
    assert_eq!(non_existing_command().after_discovery(true), Ok(Step::Execute));
    assert_eq!(
        cargo().after_discovery(false),
        Err(BuildErrorKind::CommandNotFound {
            command: String::from("cargo"),
            hint: String::from("Please make sure you have it installed and in PATH"),
        })
    );
}

#[test]
fn check_version_admits_a_version_in_the_range() {
    assert_eq!(cargo().check_version("cargo 1.34.0-nightly (4e74e2fc0 2019-02-02)"), Ok(()));
    assert_eq!(cargo().check_version("cargo 1.70.0 (ec8a8a0ca 2023-04-25)\n"), Ok(()));
    assert_eq!(
        cargo().check_version("cargo 1.33.0 (f099fe94b 2019-02-12)"),
        Err(BuildErrorKind::CommandVersionNotFulfilled {
            command: String::from("cargo"),
            current: String::from("1.33.0"),
            required: String::from(">= 1.34.0-nightly"),
            hint: String::from("Please update Rust and Cargo"),
        })
    );
}

#[test]
fn check_version_needs_a_version_in_the_reply() {
    assert_eq!(
        cargo().check_version("cargo (no version here)"),
        Err(BuildErrorKind::InternalError(String::from("Please update Rust and Cargo")))
    );
    assert_eq!(
        cargo().check_version(""),
        Err(BuildErrorKind::InternalError(String::from("Please update Rust and Cargo")))
    );
}

#[test]
fn check_version_needs_a_version_that_can_be_read() {
    assert_eq!(
        cargo().check_version("tool 1.2.3-beta..1"),
        Err(BuildErrorKind::InternalError(String::from("Please update Rust and Cargo")))
    );
    assert_eq!(
        cargo().check_version("tool 01.2.3"),
        Err(BuildErrorKind::InternalError(String::from("Please update Rust and Cargo")))
    );
    let odd = Executable::new("tool", "install it", "update it", Some("not a range"));
    assert_eq!(
        odd.check_version("tool 1.2.3"),
        Err(BuildErrorKind::InternalError(String::from("update it")))
    );
}

#[test]
fn check_version_is_skipped_without_a_requirement() {
    assert_eq!(non_existing_command().check_version("no version at all"), Ok(()));
    assert_eq!(non_existing_command().check_version("v0.0.1"), Ok(()));
}

#[test]
fn version_verdict_follows_the_answer() {
    let exe = unrealistic_command();
    assert_eq!(exe.version_verdict("1.2.3", Some(true)), Ok(()));
    assert_eq!(
        exe.version_verdict("1.2.3", Some(false)),
        Err(BuildErrorKind::CommandVersionNotFulfilled {
            command: String::from("cargo"),
            current: String::from("1.2.3"),
            required: String::from("> 100.0.0"),
            hint: String::from("Some useful hint about version"),
        })
    );
    assert_eq!(
        exe.version_verdict("1.2.3", None),
        Err(BuildErrorKind::InternalError(String::from("Some useful hint about version")))
    );
    assert_eq!(non_existing_command().version_verdict("1.2.3", Some(false)), Ok(()));
    assert_eq!(non_existing_command().version_verdict("1.2.3", None), Ok(()));
}

#[test]
fn after_exit_keeps_both_streams() {
    assert_eq!(
        cargo().after_exit(0, "out\n\n", "warning: unused\n"),
        Ok(Output { stdout: String::from("out\n"), stderr: String::from("warning: unused\n") })
    );
    assert_eq!(
        cargo().after_exit(0, "", ""),
        Ok(Output { stdout: String::new(), stderr: String::new() })
    );
    assert_eq!(
        cargo().after_exit(-1, "out\n", "killed\n"),
        Err(BuildErrorKind::CommandFailed {
            command: String::from("cargo"),
            code: -1,
            stderr: String::from("killed\n"),
        })
    );
}

#[test]
fn find_version_takes_the_first_version() {
    let found = |text: &str| find_version(text);

    assert_eq!(
        found("cargo 1.34.0-nightly (4e74e2fc0 2019-02-02)"),
        Some(String::from("1.34.0-nightly"))
    );
    assert_eq!(found("rustc 1.70.0 (90c541806 2023-05-31)"), Some(String::from("1.70.0")));
    assert_eq!(found("1.2.3"), Some(String::from("1.2.3")));
    assert_eq!(found("v10.20.30"), Some(String::from("10.20.30")));
    assert_eq!(found("a 1.2.x then 3.4.5 and 6.7.8"), Some(String::from("3.4.5")));
    assert_eq!(found("10.20.30-alpha.1+build.5"), Some(String::from("10.20.30-alpha.1")));
    assert_eq!(found("1.2.3-"), Some(String::from("1.2.3")));
    assert_eq!(found("1.2.3- x"), Some(String::from("1.2.3")));
    assert_eq!(found("1.2.3-rc_1"), Some(String::from("1.2.3-rc")));
    assert_eq!(found("1.2.3.4"), Some(String::from("1.2.3")));
    assert_eq!(found("1..2.3.4"), Some(String::from("2.3.4")));
}

#[test]
fn find_version_needs_three_numbers() {
    assert_eq!(find_version(""), None);
    assert_eq!(find_version("no version"), None);
    assert_eq!(find_version("1.2"), None);
    assert_eq!(find_version("1.2."), None);
    assert_eq!(find_version("1.2.x"), None);
    assert_eq!(find_version(".1.2"), None);
    assert_eq!(find_version("1 . 2 . 3"), None);
    assert_eq!(find_version("١.٢.٣"), None);
}
