use song_meta_bridge::bridge::interpret_outcome;
use song_meta_bridge::bridge::plan_fetch;
use song_meta_bridge::bridge::ProcessOutcome;
use song_meta_bridge::errors::FetchError;
use song_meta_bridge::jsonval::decode_metadata;

fn exited(success: bool, stdout: &[u8], stderr: &[u8]) -> ProcessOutcome {
    ProcessOutcome::Exited { success, stdout: stdout.to_vec(), stderr: stderr.to_vec() }
}

#[test]
fn planned_command_holds_interpreter_script_and_url() {
    let c = plan_fetch(Ok(String::from("/p/map_song.py")), String::from("https://v/1")).unwrap();
    assert_eq!(c.program, "python3");
    assert_eq!(c.script, "/p/map_song.py");
    assert_eq!(c.url, "https://v/1");
}

#[test]
fn failed_resolution_plans_no_spawn() {
    let r = plan_fetch(Err(String::from("no resource dir")), String::from("https://v/1"));
    match r {
        Err(FetchError::PathResolution(m)) => assert_eq!(m, "no resource dir"),
        _ => panic!("a failed resolution must become a path-resolution error"),
    }
}

#[test]
fn failing_exit_reports_stderr_whatever_stdout_held() {
    let r = interpret_outcome(exited(false, b"{\"song_name\":\"A\"}", b"boom"));
    match r {
        Err(FetchError::ScriptExecution(m)) => assert!(m.contains("boom")),
        _ => panic!("a failing exit must become a script-execution error"),
    }
}

#[test]
fn failing_exit_decodes_stderr_permissively() {
    let r = interpret_outcome(exited(false, b"", &[b'b', 0xff, b'm']));
    match r {
        Err(FetchError::ScriptExecution(m)) => {
            assert!(m.contains('\u{FFFD}'));
            assert!(m.starts_with('b'));
            assert!(m.ends_with('m'));
        },
        _ => panic!("a failing exit must become a script-execution error"),
    }
}

#[test]
fn round_trip_decode_fills_the_record() {
    let payload = "{\"song_name\":\"A\",\"artist\":\"B\",\"icon_url\":null,\"language_fetched\":null,\"lyrics\":null,\"error\":null}";
    let rec = interpret_outcome(exited(true, payload.as_bytes(), b"")).unwrap();
    assert_eq!(rec.song_name, Some(String::from("A")));
    assert_eq!(rec.artist, Some(String::from("B")));
    assert_eq!(rec.icon_url, None);
    assert_eq!(rec.language_fetched, None);
    assert_eq!(rec.lyrics, None);
    assert_eq!(rec.error, None);
}

#[test]
fn malformed_payload_is_terminal() {
    let r = interpret_outcome(exited(true, b"not json", b""));
    assert!(matches!(r, Err(FetchError::MalformedOutput(_))));
}

#[test]
fn non_object_payloads_are_malformed() {
    for text in ["[1]", "null", "42", "\"song\""] {
        let r = decode_metadata(text);
        assert!(matches!(r, Err(FetchError::MalformedOutput(_))), "payload {text}");
    }
}

#[test]
fn wrongly_typed_known_field_is_malformed() {
    let r = decode_metadata("{\"song_name\":5}");
    assert!(matches!(r, Err(FetchError::MalformedOutput(_))));
}

#[test]
fn invalid_stdout_encoding_is_terminal() {
    let r = interpret_outcome(exited(true, &[0xff, 0xfe, b'{'], b""));
    assert!(matches!(r, Err(FetchError::InvalidEncoding(_))));
}

#[test]
fn scheduling_failure_keeps_its_message() {
    let r = interpret_outcome(ProcessOutcome::SchedulingFailed(String::from("pool gone")));
    match r {
        Err(FetchError::Scheduling(m)) => assert_eq!(m, "pool gone"),
        _ => panic!("a dispatch failure must become a scheduling error"),
    }
}

#[test]
fn launch_failure_keeps_its_message() {
    let r = interpret_outcome(ProcessOutcome::LaunchFailed(String::from("no such file")));
    match r {
        Err(FetchError::ProcessLaunch(m)) => assert_eq!(m, "no such file"),
        _ => panic!("a spawn failure must become a process-launch error"),
    }
}

#[test]
fn absent_and_null_fields_decode_alike() {
    let absent = decode_metadata("{}").unwrap();
    let null = decode_metadata("{\"lyrics\":null}").unwrap();
    assert_eq!(absent.lyrics, None);
    assert_eq!(null.lyrics, None);
    assert_eq!(absent.song_name, None);
}

#[test]
fn unrecognized_fields_are_ignored() {
    let rec = decode_metadata("{\"artist\":\"B\",\"extra\":{\"deep\":[1,2]},\"n\":7}").unwrap();
    assert_eq!(rec.artist, Some(String::from("B")));
    assert_eq!(rec.song_name, None);
}

#[test]
fn error_field_is_advisory_only() {
    let rec = decode_metadata("{\"error\":\"upstream said no\",\"artist\":\"B\"}").unwrap();
    assert_eq!(rec.error, Some(String::from("upstream said no")));
    assert_eq!(rec.artist, Some(String::from("B")));
}

#[test]
fn invocations_are_independent() {
    let bad = interpret_outcome(exited(false, b"", b"boom"));
    let good = interpret_outcome(exited(true, b"{\"song_name\":\"A\"}", b""));
    assert!(matches!(bad, Err(FetchError::ScriptExecution(_))));
    assert_eq!(good.unwrap().song_name, Some(String::from("A")));
    let again = interpret_outcome(exited(true, b"{\"song_name\":\"A\"}", b""));
    assert_eq!(again.unwrap().song_name, Some(String::from("A")));
}

#[test]
fn messages_follow_the_flattened_format() {
    let cases = [
        (FetchError::PathResolution(String::from("m")), "m"),
        (FetchError::Scheduling(String::from("m")), "m"),
        (FetchError::ProcessLaunch(String::from("m")), "Failed to run yt-dlp script: m"),
        (FetchError::ScriptExecution(String::from("m")), "Script error: m"),
        (FetchError::InvalidEncoding(String::from("m")), "Invalid UTF-8 output: m"),
        (FetchError::MalformedOutput(String::from("m")), "Parse error: m"),
    ];
    for (e, want) in cases {
        assert_eq!(e.message(), want);
    }
}
