use commitguard::Check;
use commitguard::CommitGuard;

fn preamble() -> String {
    let mut s = String::new();
    s.push_str("#! /bin/sh\n\n");
    s.push_str(
        "# This hook script was created by commitguard (https://github.com/theduke/commitguard)\n\n",
    );
    s.push_str("echo 'Running commit guards...\n'\n\n");
    s.push_str("FAILED_CHECKS=''\n\n");
    s
}

fn epilogue() -> String {
    let mut s = String::new();
    s.push_str("if [ ! -z \"$FAILED_CHECKS\" ]; then\n");
    s.push_str("    echo \"Failed checks: $FAILED_CHECKS\"\n");
    s.push_str("    exit 1\nfi\n\nexit 0\n");
    s
}

#[test]
fn empty_guard_renders_preamble_and_epilogue_only() {
    let script = CommitGuard::new().build_sh();
    let mut expected = preamble();
    expected.push_str(&epilogue());
    assert_eq!(script, expected);
    assert!(!script.contains("# Check if"));
    assert!(!script.contains("command -v"));
}

#[test]
fn default_check_renders_exact_block() {
    let script = CommitGuard::new().check(Check::new("true")).build_sh();
    let mut expected = preamble();
    expected.push_str("# Check if true command exists\n");
    expected.push_str("echo 'Running check \"true\"\n'\n");
    expected.push_str("command -v true >/dev/null 2>&1\n");
    expected.push_str("if [[ $? -gt 0 ]]; then\n");
    expected.push_str("    # Command not found.\n");
    expected.push_str("    echo 'WARNING: missing command true'\n");
    expected.push_str("\nelse\n");
    expected.push_str("    # Command found, so execute it.\n");
    expected.push_str("    OUTPUT=$(true  2>&1)\n    OK=$?\n");
    expected.push_str("\n    if [ $OK -gt 0 ]; then\n");
    expected.push_str("        echo \"\n$OUTPUT\n\n\"\n");
    expected.push_str("    echo 'ERROR: check true failed!'\n    exit 1\n");
    expected.push_str("\n    else\n");
    expected.push_str("        echo 'Check \"true\" OK'\n    fi\nfi\necho ''\n\n");
    expected.push_str(&epilogue());
    assert_eq!(script, expected);
}

#[test]
fn rendering_is_repeatable() {
    let guard = CommitGuard::new().check(Check::new("ls").args(vec!["-l".to_string()]));
    assert_eq!(guard.build_sh(), guard.build_sh());
}

#[test]
fn equal_check_values_render_identical_scripts() {
    // Different operation orders and overwritten settings, same final values.
    let first = CommitGuard::new().check(
        Check::new("cargo")
            .name("lint")
            .args(vec!["clippy".to_string()])
            .abort()
            .silent(true),
    );
    let second = CommitGuard::new().check(
        Check::new("cargo")
            .args(vec!["clippy".to_string()])
            .warn()
            .abort()
            .name("lint"),
    );
    assert_eq!(first.build_sh(), second.build_sh());
}

#[test]
fn warn_mode_emits_warning_and_no_failure_record() {
    let script = CommitGuard::new()
        .check(Check::new("lint").warn())
        .build_sh();
    assert!(script.contains("    echo 'WARNING: check lint failed!'\n"));
    assert!(!script.contains("FAILED_CHECKS=\"$FAILED_CHECKS"));
}

#[test]
fn abort_mode_records_failed_check_name() {
    let script = CommitGuard::new()
        .check(Check::new("slow").abort())
        .build_sh();
    assert!(script.contains("    echo 'ERROR: check slow failed!'\n"));
    assert!(script.contains("    FAILED_CHECKS=\"$FAILED_CHECKS slow\"\n"));
    // Deferred abort: the block itself must not exit.
    let block = &script[script.find("# Check if").unwrap()..script.find("if [ ! -z").unwrap()];
    assert!(!block.contains("ERROR: check slow failed!'\n    exit 1"));
}

#[test]
fn abort_mode_accumulates_every_failed_check_name() {
    // The recording line expands the accumulator (double quotes), so each
    // deferred failure appends its name instead of overwriting the others.
    let script = CommitGuard::new()
        .check(Check::new("alpha").abort())
        .check(Check::new("beta").abort())
        .build_sh();
    assert!(script.contains("    FAILED_CHECKS=\"$FAILED_CHECKS alpha\"\n"));
    assert!(script.contains("    FAILED_CHECKS=\"$FAILED_CHECKS beta\"\n"));
    assert!(!script.contains("FAILED_CHECKS='$FAILED_CHECKS"));
}

#[test]
fn abort_immediate_mode_exits_in_the_block() {
    let script = CommitGuard::new()
        .check(Check::new("vet").abort_immediate())
        .build_sh();
    assert!(script.contains("    echo 'ERROR: check vet failed!'\n    exit 1\n"));
}

#[test]
fn required_command_missing_is_fatal() {
    let script = CommitGuard::new()
        .check(Check::new("mytool").require_command())
        .build_sh();
    assert!(script.contains("echo 'ERROR: missing required command mytool'\n"));
    let missing_at = script.find("ERROR: missing required command").unwrap();
    let exit_at = script.find("    exit 1").unwrap();
    assert!(missing_at < exit_at);
}

#[test]
fn optional_command_missing_is_a_warning() {
    let script = CommitGuard::new().check(Check::new("mytool")).build_sh();
    assert!(script.contains("echo 'WARNING: missing command mytool'\n"));
    assert!(!script.contains("ERROR: missing required command"));
}

#[test]
fn probe_target_differs_from_command() {
    let script = CommitGuard::new()
        .check(
            Check::new("cargo")
                .args(vec!["fmt".to_string()])
                .check_for_command("cargo-fmt"),
        )
        .build_sh();
    assert!(script.contains("# Check if cargo-fmt command exists\n"));
    assert!(script.contains("command -v cargo-fmt >/dev/null 2>&1\n"));
    assert!(script.contains("OUTPUT=$(cargo fmt 2>&1)\n"));
}

#[test]
fn args_join_in_order_with_spaces() {
    let script = CommitGuard::new()
        .check(
            Check::new("cargo")
                .args(vec![
                    "fmt".to_string(),
                    "--".to_string(),
                    "--write-mode=overwrite".to_string(),
                ])
                .silent(false),
        )
        .build_sh();
    assert!(script.contains("    cargo fmt -- --write-mode=overwrite\n    OK=$?\n"));
}

#[test]
fn install_instructions_are_escaped() {
    let script = CommitGuard::new()
        .check(
            Check::new("mytool")
                .install_instructions("get it here:\nit's at https://example.com"),
        )
        .build_sh();
    assert!(script.contains(
        "    echo 'Install it like this: get it here:\\nit\\'s at https://example.com'\n"
    ));
}

#[test]
fn install_instructions_shown_for_required_and_optional() {
    let required = CommitGuard::new()
        .check(Check::new("a").require_command().install_instructions("apt install a"))
        .build_sh();
    assert!(required.contains("ERROR: missing required command a'\n    echo 'Install it like this: apt install a'\n    exit 1"));
    let optional = CommitGuard::new()
        .check(Check::new("b").install_instructions("apt install b"))
        .build_sh();
    assert!(optional.contains("WARNING: missing command b'\n    echo 'Install it like this: apt install b'\n"));
}

#[test]
fn silent_check_captures_output_and_echoes_it_on_failure() {
    let script = CommitGuard::new()
        .check(Check::new("quiet").silent(true))
        .build_sh();
    assert!(script.contains("OUTPUT=$(quiet  2>&1)\n"));
    assert!(script.contains("echo \"\n$OUTPUT\n\n\"\n"));
}

#[test]
fn non_silent_check_streams_output_without_failure_echo() {
    // A non-silent check never captured anything, so its failure branch
    // echoes no capture variable; output streamed live instead.
    let script = CommitGuard::new()
        .check(Check::new("loud").silent(false))
        .build_sh();
    assert!(!script.contains("OUTPUT=$("));
    assert!(!script.contains("$OUTPUT\n\n\""));
    assert!(script.contains("    loud \n    OK=$?\n"));
}

#[test]
fn custom_name_is_used_in_messages() {
    let script = CommitGuard::new()
        .check(Check::new("cargo").name("format").warn())
        .build_sh();
    assert!(script.contains("echo 'Running check \"format\"\n'\n"));
    assert!(script.contains("WARNING: check format failed!"));
    assert!(script.contains("echo 'Check \"format\" OK'\n"));
}

#[test]
fn checks_render_in_insertion_order() {
    let script = CommitGuard::new()
        .check(Check::new("first"))
        .check(Check::new("second"))
        .check(Check::new("third"))
        .build_sh();
    let a = script.find("# Check if first command exists").unwrap();
    let b = script.find("# Check if second command exists").unwrap();
    let c = script.find("# Check if third command exists").unwrap();
    assert!(a < b && b < c);
    let end = script.find("if [ ! -z \"$FAILED_CHECKS\" ]").unwrap();
    assert!(c < end);
}

#[test]
fn two_check_scenario_encodes_expected_flow() {
    // A formatting check probing a helper binary, warning on failure, and a
    // lint check aborting the whole hook at once on failure.
    let guard = CommitGuard::new()
        .check(
            Check::new("cargo")
                .args(vec![
                    "fmt".to_string(),
                    "--".to_string(),
                    "--write-mode=overwrite".to_string(),
                ])
                .check_for_command("cargo-fmt")
                .require_command()
                .warn()
                .name("format")
                .silent(false),
        )
        .check(
            Check::new("cargo")
                .name("clippy")
                .args(vec!["clippy".to_string()])
                .check_for_command("cargo-clippy")
                .abort_immediate(),
        );
    let script = guard.build_sh();

    // Both success confirmations, format before clippy.
    let format_ok = script.find("echo 'Check \"format\" OK'").unwrap();
    let clippy_ok = script.find("echo 'Check \"clippy\" OK'").unwrap();
    assert!(format_ok < clippy_ok);

    // The format probe precedes the clippy probe.
    let format_probe = script.find("command -v cargo-fmt >/dev/null 2>&1").unwrap();
    let clippy_probe = script.find("command -v cargo-clippy >/dev/null 2>&1").unwrap();
    assert!(format_probe < clippy_probe);

    // A missing cargo-fmt is fatal; format failure itself only warns.
    assert!(script.contains("echo 'ERROR: missing required command cargo-fmt'\n"));
    assert!(script.contains("    echo 'WARNING: check format failed!'\n"));

    // A clippy failure is fatal at once.
    assert!(script.contains("    echo 'ERROR: check clippy failed!'\n    exit 1\n"));

    // Making the clippy probe required turns its missing branch fatal too.
    let strict = CommitGuard::new()
        .check(
            Check::new("cargo")
                .name("clippy")
                .args(vec!["clippy".to_string()])
                .check_for_command("cargo-clippy")
                .require_command()
                .abort_immediate(),
        )
        .build_sh();
    assert!(strict.contains("echo 'ERROR: missing required command cargo-clippy'\n"));
}
