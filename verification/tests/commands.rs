use ramopt::apps::{close_background_apps, exit_failure, parse_counts};
use ramopt::cleanup::SingleFlight;
use ramopt::command::{wait_for_command, ChildStatus, CommandOutput, WaitAction};
use ramopt::update::{
    begin_update, check_update, latest_release_version, release_name, release_script, start_update,
    update_answer, updater_argument, UpdateMenu, UpdateReply, UpdateStage,
};
use ramopt::version::{current_version, newer_than, shown_version, version_is_newer};

fn output(success: bool, stdout: &[u8], stderr: &[u8]) -> Result<CommandOutput, String> {
    Ok(CommandOutput {
        success,
        status: "exit code: 1".to_string(),
        stdout: stdout.to_vec(),
        stderr: stderr.to_vec(),
    })
}

fn failure(text: &str) -> Result<(u32, u32), String> {
    Err(text.to_string())
}

#[test]
fn waiting_for_a_command() {
    assert!(matches!(wait_for_command(ChildStatus::Exited, true, 20), WaitAction::Collect));
    assert!(matches!(wait_for_command(ChildStatus::Exited, false, 20), WaitAction::Collect));
    assert!(matches!(wait_for_command(ChildStatus::Running, false, 20), WaitAction::Sleep));
    assert!(matches!(
        wait_for_command(ChildStatus::Running, true, 20),
        WaitAction::Kill(reason) if reason == "command timed out after 20 seconds"
    ));
    assert!(matches!(
        wait_for_command(ChildStatus::Unknown("gone".to_string()), false, 20),
        WaitAction::Kill(reason) if reason == "gone"
    ));
}

#[test]
fn counts_of_the_script() {
    assert_eq!(parse_counts("RAMOPT_COUNTS:3:14"), Ok((3, 14)));
    assert_eq!(parse_counts("noise\r\nRAMOPT_COUNTS:3:14\r\n"), Ok((3, 14)));
    assert_eq!(parse_counts("RAMOPT_COUNTS:1:2:rest"), Ok((1, 2)));
    assert_eq!(parse_counts("RAMOPT_COUNTS:RAMOPT_COUNTS:1:2"), Ok((1, 2)));
    assert_eq!(parse_counts("RAMOPT_COUNTS:1:2\nRAMOPT_COUNTS:3:4"), Ok((1, 2)));
    assert_eq!(parse_counts(""), failure("background-app cleanup returned no result"));
    assert_eq!(
        parse_counts(" RAMOPT_COUNTS:1:2"),
        failure("background-app cleanup returned no result")
    );
    assert_eq!(
        parse_counts("RAMOPT_COUNTS:"),
        failure("invalid closed count: cannot parse integer from empty string")
    );
    assert_eq!(
        parse_counts("RAMOPT_COUNTS:x:1"),
        failure("invalid closed count: invalid digit found in string")
    );
    assert_eq!(
        parse_counts("RAMOPT_COUNTS:7"),
        failure("background-app cleanup missing orphan count")
    );
    assert_eq!(
        parse_counts("RAMOPT_COUNTS:7:4294967296"),
        failure("invalid orphan count: number too large to fit in target type")
    );
}

#[test]
fn what_the_script_came_to() {
    assert_eq!(close_background_apps(output(true, b"RAMOPT_COUNTS:0:2\n", b"")), Ok((0, 2)));
    assert_eq!(
        close_background_apps(output(true, "\u{e9}\nRAMOPT_COUNTS:5:6\n".as_bytes(), b"")),
        Ok((5, 6))
    );
    assert_eq!(
        close_background_apps(Err("no shell".to_string())),
        failure("background-app cleanup failed: no shell")
    );
    assert_eq!(
        close_background_apps(output(false, b"RAMOPT_COUNTS:0:2\n", b" \r\n")),
        failure("background-app cleanup exited with exit code: 1")
    );
    assert_eq!(
        close_background_apps(output(false, b"", b" broken\xff \r\n")),
        failure("background-app cleanup exited with exit code: 1: broken\u{fffd}")
    );
    let broken = vec![b'a', 0xff, b'b'];
    let said = String::from_utf8(broken.clone()).expect_err("not UTF-8").to_string();
    assert_eq!(
        close_background_apps(output(true, &broken, b"")),
        Err(format!("background-app cleanup output was not UTF-8: {said}"))
    );
    assert_eq!(exit_failure("s", " e "), "background-app cleanup exited with s: e");
}

#[test]
fn version_comparison_accepts_v_prefix() {
    assert!(version_is_newer("v999.0.0"));
    assert!(!version_is_newer(current_version()));
    assert!(!version_is_newer("not-a-version"));
}

#[test]
fn versions_are_compared_by_their_numbers() {
    assert!(newer_than("1.0.1", "1.0.0"));
    assert!(newer_than("1.10", "1.9.9"));
    assert!(newer_than("1.0.0.0", "1.0.0"));
    assert!(!newer_than("1.0", "1.0.0"));
    assert!(newer_than("vv2", "v1"));
    assert!(!newer_than("1.0.0", "v1.0.0"));
    assert!(!newer_than("", "1.0.0"));
    assert!(!newer_than("2..0", "1.0.0"));
    assert!(!newer_than("2.0.0-beta", "1.0.0"));
    assert!(!newer_than("2.0.0", "none"));
    assert!(!newer_than("V2.0.0", "1.0.0"));
    assert!(!newer_than("4294967296.0", "1.0.0"));
    assert_eq!(shown_version(), format!("v{}", current_version()));
}

#[test]
fn newer_is_an_order_on_samples() {
    let versions = ["0.9", "1", "1.0", "v1.0.0", "1.0.1", "1.2", "2", "x", ""];
    for a in versions {
        assert!(!newer_than(a, a));
        for b in versions {
            assert!(!(newer_than(a, b) && newer_than(b, a)));
            for c in versions {
                if newer_than(a, b) && newer_than(b, c) {
                    assert!(newer_than(a, c));
                }
            }
        }
    }
}

#[test]
fn latest_release() {
    assert_eq!(latest_release_version(output(true, b" v1.2.3\r\n", b"x")), Ok("v1.2.3".to_string()));
    assert_eq!(latest_release_version(output(false, b"v1", b" offline\n")), Err("offline".to_string()));
    assert_eq!(latest_release_version(output(true, b"v\xfe\n", b"")), Ok("v\u{fffd}".to_string()));
    assert_eq!(latest_release_version(Err("slow".to_string())), Err("slow".to_string()));
    assert_eq!(release_name(true, " a "), Ok("a".to_string()));
    assert_eq!(release_name(false, " a "), Err("a".to_string()));
    assert_eq!(
        release_script(),
        "$ErrorActionPreference='Stop'; (Invoke-RestMethod -Headers @{'User-Agent'='RAMOpt'} -Uri 'https://api.github.com/repos/thnonl/RAMOpt/releases/latest').tag_name"
    );
}

#[test]
fn looks_for_an_update() {
    let newer = check_update(false, Ok("v999.0.0".to_string()));
    assert!(newer.available);
    assert_eq!(newer.version, Some("v999.0.0".to_string()));
    assert_eq!(newer.log, None);
    let same = check_update(true, Ok(current_version().to_string()));
    assert!(!same.available);
    assert_eq!(same.version, None);
    for available in [true, false] {
        let failed = check_update(available, Err("offline".to_string()));
        assert_eq!(failed.available, available);
        assert_eq!(failed.version, None);
        assert_eq!(failed.log, Some("Update check failed: offline".to_string()));
    }
}

#[test]
fn the_update_entry_is_inserted_once() {
    let mut menu = UpdateMenu::new();
    let inserted: Vec<bool> = [false, true, true, false, true]
        .into_iter()
        .map(|available| menu.tick(available))
        .collect();
    assert_eq!(inserted, vec![false, true, false, false, false]);
}

fn attempt(gate: &mut SingleFlight, found: bool, launched: Result<(), String>) -> Result<(), String> {
    let mut stage = begin_update(gate);
    for reply in [UpdateReply::Updater { found }, UpdateReply::Launched(launched)] {
        stage = start_update(gate, r"C:\Tools\RAMOpt-updater.bat", stage, reply);
    }
    match stage {
        UpdateStage::Finished(result) => result,
        other => panic!("{other:?}"),
    }
}

#[test]
fn an_update_starts_at_most_once() {
    let mut gate = SingleFlight::new();
    assert_eq!(
        attempt(&mut gate, false, Ok(())),
        Err(r"Updater not found: C:\Tools\RAMOpt-updater.bat".to_string())
    );
    assert!(!gate.running);
    assert_eq!(attempt(&mut gate, true, Err("denied".to_string())), Err("denied".to_string()));
    assert!(!gate.running);
    assert_eq!(attempt(&mut gate, true, Ok(())), Ok(()));
    assert!(gate.running);
    assert_eq!(
        attempt(&mut gate, true, Ok(())),
        Err("Update is already starting.".to_string())
    );
    assert!(gate.running);
}

#[test]
fn what_the_window_says_of_an_update() {
    assert_eq!(
        update_answer(Ok(())),
        ("Downloading update... RAMOpt will restart automatically.".to_string(), true)
    );
    assert_eq!(
        update_answer(Err("denied".to_string())),
        ("Update failed to start: denied".to_string(), false)
    );
    assert_eq!(updater_argument(r"C:\My Tools\u.bat"), "/D /S /C \"\"C:\\My Tools\\u.bat\"\"");
}
