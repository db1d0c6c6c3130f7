use conpty_oxide::command::environment::{CaseTable, EnvKey};
use conpty_oxide::command::program::{
    check_program, chosen_executable, executable_candidates, is_bare, ProgramPath, SearchPlaces,
    BATCH_FILE, EMPTY_PROGRAM, NO_FILE_NAME, PROGRAM_NOT_FOUND,
};
use conpty_oxide::io_error::IoErrorKind;
use conpty_oxide::wide::{to_wide_nul, WideString};
use conpty_oxide::Command;

fn wide(text: &str) -> WideString {
    WideString::from_text(text)
}

fn words(texts: &[&str]) -> Vec<WideString> {
    texts.iter().map(|text| wide(text)).collect()
}

fn vars(pairs: &[(&str, &str)]) -> Vec<(WideString, WideString)> {
    pairs.iter().map(|(k, v)| (wide(k), wide(v))).collect()
}

fn parent() -> Vec<(WideString, WideString)> {
    vars(&[
        ("Path", "C:\\Windows"),
        ("=C:", "C:\\work"),
        ("TEMP", "C:\\temp"),
        ("windir", "C:\\Windows"),
        ("alpha", "a"),
    ])
}

fn block(cmd: &Command) -> Option<Vec<u16>> {
    cmd.build_environment_block(&parent(), &CaseTable::ascii())
        .unwrap()
}

fn cmdline(cmd: &Command) -> String {
    let wide = cmd.build_command_line().expect("build_command_line failed");
    assert_eq!(wide.last(), Some(&0), "command line must be NUL-terminated");
    String::from_utf16(&wide[..wide.len() - 1]).expect("command line is not valid UTF-16")
}

fn parse_env_block(block: &[u16]) -> Vec<(String, String)> {
    assert!(block.len() >= 2, "block too short: {block:?}");
    assert_eq!(
        &block[block.len() - 2..],
        &[0, 0],
        "block must end with two NULs"
    );
    let mut pairs = Vec::new();
    let mut rest = &block[..block.len() - 1];
    while !rest.is_empty() {
        let end = rest.iter().position(|&u| u == 0).expect("missing NUL");
        if end == 0 {
            // Leading NUL of the empty-environment representation.
            break;
        }
        let entry = String::from_utf16(&rest[..end]).expect("entry is not valid UTF-16");
        // A drive variable such as `=C:` starts with the separator.
        let eq = entry
            .char_indices()
            .skip(1)
            .find(|(_, c)| *c == '=')
            .map(|(at, _)| at)
            .expect("entry has no `=`");
        pairs.push((entry[..eq].to_string(), entry[eq + 1..].to_string()));
        rest = &rest[end + 1..];
    }
    pairs
}

#[test]
fn cmdline_quoting_table() {
    let cases: [(&str, &str, &str); 14] = [
        ("empty argument is quoted", "", r#""""#),
        ("plain argument is unquoted", "hello", "hello"),
        ("space forces quoting", "hello world", r#""hello world""#),
        ("tab forces quoting", "a\tb", "\"a\tb\""),
        (
            "inner quotes are backslash-escaped",
            r#"he said "hi""#,
            r#""he said \"hi\"""#,
        ),
        (
            "one backslash before quote doubles to 2n+1",
            r#"a\"b"#,
            r#""a\\\"b""#,
        ),
        (
            "two backslashes before quote double to 2n+1",
            r#"a\\"b"#,
            r#""a\\\\\"b""#,
        ),
        (
            "trailing backslash doubles inside quotes",
            r"C:\dir with space\",
            r#""C:\dir with space\\""#,
        ),
        (
            "trailing backslash unquoted passes through",
            r"C:\dir\",
            r"C:\dir\",
        ),
        (
            "inner backslashes not before a quote are untouched",
            r"C:\a b\c",
            r#""C:\a b\c""#,
        ),
        (
            "non-ascii with ascii space is quoted",
            "こんにちは 世界",
            "\"こんにちは 世界\"",
        ),
        ("non-ascii without triggers is unquoted", "日本語", "日本語"),
        (
            "ideographic space does not force quoting",
            "日\u{3000}本",
            "日\u{3000}本",
        ),
        ("vertical bar forces quoting", "a|b", r#""a|b""#),
    ];
    for (name, arg, expected) in cases {
        let mut cmd = Command::new(wide("prog"));
        cmd.arg(wide(arg));
        assert_eq!(cmdline(&cmd), format!("\"prog\" {expected}"), "case: {name}");
    }
}

#[test]
fn cmdline_program_is_always_quoted() {
    let cmd = Command::new(wide(r"C:\Program Files\app.exe"));
    assert_eq!(cmdline(&cmd), r#""C:\Program Files\app.exe""#);
}

#[test]
fn cmdline_raw_arg_passes_through_verbatim() {
    let mut cmd = Command::new(wide(r"C:\Windows\System32\cmd.exe"));
    cmd.raw_arg(wide(r#"/c "echo he said \"hi\"" | more"#));
    assert_eq!(
        cmdline(&cmd),
        r#""C:\Windows\System32\cmd.exe" /c "echo he said \"hi\"" | more"#
    );
}

#[test]
fn cmdline_mixes_regular_and_raw_args_in_order() {
    let mut cmd = Command::new(wide("prog"));
    cmd.args(words(&["one", "two words"]))
        .raw_arg(wide("three|raw"))
        .arg(wide(""));
    assert_eq!(cmdline(&cmd), r#""prog" one "two words" three|raw """#);
}

#[test]
fn cmdline_rejects_nul_everywhere() {
    let kind = |cmd: &Command| cmd.build_command_line().unwrap_err().kind();

    let cmd = Command::new(wide("pro\0g"));
    assert_eq!(kind(&cmd), IoErrorKind::InvalidInput);

    let mut cmd = Command::new(wide("prog"));
    cmd.arg(wide("a\0b"));
    assert_eq!(kind(&cmd), IoErrorKind::InvalidInput);

    let mut cmd = Command::new(wide("prog"));
    cmd.raw_arg(wide("a\0b"));
    assert_eq!(kind(&cmd), IoErrorKind::InvalidInput);
}

#[test]
fn cmdline_rejects_quote_in_program() {
    let cmd = Command::new(wide(r#"pro"g"#));
    let err = cmd.build_command_line().unwrap_err();
    assert_eq!(err.kind(), IoErrorKind::InvalidInput);
}

#[test]
fn env_no_changes_returns_none() {
    let mut cmd = Command::new(wide("prog"));
    cmd.arg(wide("x")).current_dir(wide(r"C:\"));
    assert!(block(&cmd).is_none());
}

#[test]
fn working_directory_getter_returns_the_configured_path() {
    let mut cmd = Command::new(wide("prog"));
    assert_eq!(cmd.get_current_dir(), None);
    cmd.current_dir(wide(r"C:\configured-directory"));
    assert_eq!(
        cmd.get_current_dir(),
        Some(&wide(r"C:\configured-directory"))
    );
}

#[test]
fn kill_on_drop_getter_returns_the_configured_policy() {
    let mut cmd = Command::new(wide("prog"));
    assert!(!cmd.get_kill_on_drop());
    cmd.kill_on_drop(true);
    assert!(cmd.get_kill_on_drop());
    cmd.kill_on_drop(false);
    assert!(!cmd.get_kill_on_drop());
}

#[test]
fn env_inherits_parent_and_sorts_case_insensitively() {
    let table = CaseTable::ascii();
    let mut cmd = Command::new(wide("prog"));
    cmd.env(wide("CONPTY_OXIDE_TEST_INHERIT"), wide("value1"));
    let block = block(&cmd).unwrap();
    let pairs = parse_env_block(&block);
    assert!(
        pairs
            .iter()
            .any(|(k, v)| k == "CONPTY_OXIDE_TEST_INHERIT" && v == "value1"),
        "override missing from block"
    );
    assert!(pairs.len() > 1, "parent environment was not inherited");
    let keys: Vec<EnvKey> = pairs
        .iter()
        .map(|(k, _)| EnvKey::inherited(&wide(k), &table))
        .collect();
    assert!(
        keys.windows(2).all(|w| w[0].sorts_before(&w[1])),
        "block is not sorted case-insensitively: {pairs:?}"
    );
    let names: Vec<&str> = pairs.iter().map(|(k, _)| k.as_str()).collect();
    assert_eq!(
        names,
        vec![
            "=C:",
            "alpha",
            "CONPTY_OXIDE_TEST_INHERIT",
            "Path",
            "TEMP",
            "windir"
        ]
    );
}

#[test]
fn env_clear_alone_yields_empty_double_nul_block() {
    let mut cmd = Command::new(wide("prog"));
    cmd.env_clear();
    let block = block(&cmd).unwrap();
    assert_eq!(block, vec![0, 0]);
    assert!(parse_env_block(&block).is_empty());
}

#[test]
fn env_clear_then_set_sorts_case_insensitively() {
    let mut cmd = Command::new(wide("prog"));
    cmd.env_clear()
        .envs(vars(&[("b", "2"), ("A", "1"), ("C", "3")]));
    let block = block(&cmd).unwrap();
    let pairs = parse_env_block(&block);
    // "b" sorts between "A" and "C" because comparison is done on
    // uppercased units; a case-sensitive sort would put it last.
    assert_eq!(
        pairs,
        vec![
            ("A".to_string(), "1".to_string()),
            ("b".to_string(), "2".to_string()),
            ("C".to_string(), "3".to_string()),
        ]
    );
}

#[test]
fn env_override_is_case_insensitive_and_keeps_first_casing() {
    let mut cmd = Command::new(wide("prog"));
    cmd.env_clear()
        .env(wide("FOO"), wide("1"))
        .env(wide("foo"), wide("2"));
    let block = block(&cmd).unwrap();
    assert_eq!(
        parse_env_block(&block),
        vec![("FOO".to_string(), "2".to_string())]
    );
}

#[test]
fn env_uses_windows_case_folding_for_non_ascii_keys() {
    // Unicode uppercasing maps long-s to S and micro-sign to Greek mu, but the
    // system's ordinal comparison treats both pairs as distinct keys.
    let mut cmd = Command::new(wide("prog"));
    cmd.env_clear()
        .env(wide("S"), wide("latin-s"))
        .env(wide("ſ"), wide("long-s"))
        .env(wide("Μ"), wide("greek-mu"))
        .env(wide("µ"), wide("micro-sign"));
    let pairs = parse_env_block(&block(&cmd).unwrap());

    assert_eq!(pairs.len(), 4, "Windows-distinct keys were overwritten");
    for expected in [
        ("S", "latin-s"),
        ("ſ", "long-s"),
        ("Μ", "greek-mu"),
        ("µ", "micro-sign"),
    ] {
        assert!(
            pairs
                .iter()
                .any(|(key, value)| key == expected.0 && value == expected.1),
            "missing Windows-distinct environment entry {expected:?}: {pairs:?}"
        );
    }
}

#[test]
fn env_key_equality_matches_windows_ordinal_comparison() {
    let table = CaseTable::ascii();
    let key = |text: &str| EnvKey::new(&wide(text), &table).unwrap();

    assert_eq!(key("PATH"), key("path"));
    assert_ne!(key("S"), key("ſ"));
}

#[test]
fn env_remove_is_case_insensitive() {
    let mut cmd = Command::new(wide("prog"));
    cmd.env_clear()
        .env(wide("FOO"), wide("1"))
        .env(wide("BAR"), wide("2"))
        .env_remove(wide("foo"));
    let block = block(&cmd).unwrap();
    assert_eq!(
        parse_env_block(&block),
        vec![("BAR".to_string(), "2".to_string())]
    );
}

#[test]
fn env_set_after_remove_reinstates_variable() {
    let mut cmd = Command::new(wide("prog"));
    cmd.env_clear()
        .env(wide("A"), wide("1"))
        .env_remove(wide("a"))
        .env(wide("a"), wide("2"));
    let block = block(&cmd).unwrap();
    assert_eq!(
        parse_env_block(&block),
        vec![("a".to_string(), "2".to_string())]
    );
}

#[test]
fn env_rejects_invalid_names_and_nuls() {
    let kind = |cmd: &Command| {
        cmd.build_environment_block(&parent(), &CaseTable::ascii())
            .unwrap_err()
            .kind()
    };

    let mut cmd = Command::new(wide("prog"));
    cmd.env(wide("BAD=KEY"), wide("v"));
    assert_eq!(kind(&cmd), IoErrorKind::InvalidInput);

    let mut cmd = Command::new(wide("prog"));
    cmd.env(wide(""), wide("v"));
    assert_eq!(kind(&cmd), IoErrorKind::InvalidInput);

    let mut cmd = Command::new(wide("prog"));
    cmd.env(wide("A\0B"), wide("v"));
    assert_eq!(kind(&cmd), IoErrorKind::InvalidInput);

    let mut cmd = Command::new(wide("prog"));
    cmd.env(wide("KEY"), wide("va\0lue"));
    assert_eq!(kind(&cmd), IoErrorKind::InvalidInput);

    let mut cmd = Command::new(wide("prog"));
    cmd.env_remove(wide("BAD=KEY"));
    assert_eq!(kind(&cmd), IoErrorKind::InvalidInput);
}

#[test]
fn to_wide_nul_appends_terminator() {
    let wide = to_wide_nul(&wide("C:\\dir")).unwrap();
    let expected: Vec<u16> = "C:\\dir".encode_utf16().chain(Some(0)).collect();
    assert_eq!(wide, expected);
}

#[test]
fn to_wide_nul_rejects_embedded_nul() {
    let err = to_wide_nul(&wide("a\0b")).unwrap_err();
    assert_eq!(err.kind(), IoErrorKind::InvalidInput);
}

#[test]
fn records_program_and_test_drop_policy() {
    let mut command = Command::new(wide("cmd.exe"));
    command.kill_on_drop(true);
    assert_eq!(command.get_program(), &wide("cmd.exe"));
    assert!(command.get_kill_on_drop());
}

#[test]
fn command_builder_delegates_every_configuration_category() {
    let mut command = Command::new(wide("cmd.exe"));
    command
        .arg(wide("/c"))
        .args(words(&["echo", "two words"]))
        .raw_arg(wide("%PATH%"))
        .env_clear()
        .env(wide("ONE"), wide("1"))
        .envs(vars(&[("TWO", "2"), ("THREE", "3")]))
        .env_remove(wide("TWO"))
        .current_dir(wide("C:\\"))
        .creation_flags(0x0000_0200)
        .kill_on_drop(true);
    assert_eq!(
        cmdline(&command),
        r#""cmd.exe" /c echo "two words" %PATH%"#
    );
    assert_eq!(
        parse_env_block(&block(&command).unwrap()),
        vec![
            ("ONE".to_string(), "1".to_string()),
            ("THREE".to_string(), "3".to_string()),
        ]
    );
    assert_eq!(command.get_current_dir(), Some(&wide("C:\\")));
    assert_eq!(command.process_creation_flags(), 0x0008_0600);
    assert!(command.get_kill_on_drop());
}

#[test]
fn invalid_input_is_described() {
    let line = |cmd: &Command| cmd.build_command_line().unwrap_err().message;
    assert_eq!(
        line(&Command::new(wide("a\0b"))),
        "program contains an interior NUL"
    );
    assert_eq!(
        line(&Command::new(wide("a\"b"))),
        "program must not contain a double quote"
    );
    let mut cmd = Command::new(wide("prog"));
    cmd.arg(wide("\0"));
    assert_eq!(line(&cmd), "argument contains an interior NUL");

    let table = CaseTable::ascii();
    let name = |text: &str| EnvKey::new(&wide(text), &table).unwrap_err().message;
    assert_eq!(name(""), "environment variable name must not be empty");
    assert_eq!(
        name("A\0B"),
        "environment variable name contains an interior NUL"
    );
    assert_eq!(
        name("A=B"),
        "environment variable name must not contain `=`"
    );
}

// The C runtime's rules for splitting a command line into arguments.
fn split(line: &str) -> Vec<String> {
    let chars: Vec<char> = line.chars().collect();
    let mut args = Vec::new();
    let mut i = 0;
    while i < chars.len() {
        if chars[i] == ' ' || chars[i] == '\t' {
            i += 1;
            continue;
        }
        let mut arg = String::new();
        let mut quoted = false;
        while i < chars.len() && (quoted || (chars[i] != ' ' && chars[i] != '\t')) {
            let mut slashes = 0;
            while i < chars.len() && chars[i] == '\\' {
                slashes += 1;
                i += 1;
            }
            if i < chars.len() && chars[i] == '"' {
                arg.extend(std::iter::repeat('\\').take(slashes / 2));
                if slashes % 2 == 1 {
                    arg.push('"');
                } else {
                    quoted = !quoted;
                }
                i += 1;
            } else {
                arg.extend(std::iter::repeat('\\').take(slashes));
                if i < chars.len() && (quoted || (chars[i] != ' ' && chars[i] != '\t')) {
                    arg.push(chars[i]);
                    i += 1;
                }
            }
        }
        args.push(arg);
    }
    args
}

#[test]
fn arguments_survive_the_command_line() {
    let args = [
        "",
        "plain",
        "two words",
        "tab\there",
        "quote\"inside",
        "\\",
        "\\\\",
        "end\\",
        "end of words\\",
        "end of words\\\\",
        "\\\"",
        "\\\\\" \\\"",
        "a|b",
        "\"",
        "\"\"",
    ];
    let mut cmd = Command::new(wide("C:\\Program Files\\prog.exe"));
    cmd.args(words(&args));
    let mut expected = vec!["C:\\Program Files\\prog.exe".to_string()];
    expected.extend(args.iter().map(|arg| arg.to_string()));
    assert_eq!(split(&cmdline(&cmd)), expected);
}

#[test]
fn the_last_change_to_a_variable_decides() {
    let mut cmd = Command::new(wide("prog"));
    cmd.env(wide("PATH"), wide("first"))
        .env_remove(wide("temp"))
        .env(wide("path"), wide("second"))
        .env(wide("Temp"), wide("back"));
    let pairs = parse_env_block(&block(&cmd).unwrap());
    let value = |name: &str| {
        pairs
            .iter()
            .find(|(k, _)| k == name)
            .map(|(_, v)| v.as_str())
    };
    // The parent's spelling is kept; a removed name is spelled anew.
    assert_eq!(value("Path"), Some("second"));
    assert_eq!(value("Temp"), Some("back"));
    assert_eq!(value("TEMP"), None);
    assert_eq!(value("alpha"), Some("a"));
}

#[test]
fn clearing_forgets_earlier_changes_and_the_parent() {
    let mut cmd = Command::new(wide("prog"));
    cmd.env(wide("A"), wide("1"))
        .env_clear()
        .env(wide("B"), wide("2"));
    assert_eq!(
        parse_env_block(&block(&cmd).unwrap()),
        vec![("B".to_string(), "2".to_string())]
    );
}

#[test]
fn a_case_table_folds_by_its_units() {
    let mut upper: Vec<u16> = (0..=u16::MAX).collect();
    upper[0xE9] = 0xC9;
    let table = CaseTable::from_units(upper).expect("a full table is accepted");
    let key = |text: &str| EnvKey::new(&wide(text), &table).unwrap();
    assert_eq!(key("\u{e9}"), key("\u{c9}"));
    assert_ne!(key("a"), key("A"));
    assert!(CaseTable::from_units(vec![0; 10]).is_none());
    assert_eq!(
        CaseTable::ascii().fold(&[0x61, 0x7A, 0x7B, 0x41, 0xE9]),
        vec![0x41, 0x5A, 0x7B, 0x41, 0xE9]
    );
}

fn program_path(file_name: Option<&str>, extension: Option<&str>) -> ProgramPath {
    ProgramPath {
        file_name: file_name.map(wide),
        extension: extension.map(wide),
    }
}

#[test]
fn programs_that_cannot_be_launched_are_refused() {
    let refusal = |program: &str, path: ProgramPath| {
        let err = check_program(&wide(program), &path).unwrap_err();
        assert_eq!(err.kind(), IoErrorKind::InvalidInput);
        err.message
    };
    assert_eq!(refusal("", program_path(None, None)), EMPTY_PROGRAM);
    assert_eq!(
        refusal("a\0b", program_path(Some("a\0b"), None)),
        "program contains an interior NUL"
    );
    assert_eq!(
        refusal("a\"b", program_path(Some("a\"b"), None)),
        "program must not contain a double quote"
    );
    assert_eq!(refusal("C:\\", program_path(None, None)), NO_FILE_NAME);
    for extension in ["bat", "BAT", "cmd", "CmD"] {
        assert_eq!(
            refusal("run.bat", program_path(Some("run.bat"), Some(extension))),
            BATCH_FILE
        );
    }
    assert!(check_program(&wide("cmd.exe"), &program_path(Some("cmd.exe"), Some("exe"))).is_ok());
    assert!(check_program(&wide("cmd"), &program_path(Some("cmd"), None)).is_ok());
}

#[test]
fn a_bare_name_is_searched_in_order_and_nowhere_else() {
    let dirs = SearchPlaces {
        child_path: words(&["C:\\child", ""]),
        application: Some(wide("C:\\app")),
        system: wide("C:\\Windows\\System32"),
        windows: wide("C:\\Windows"),
        path: words(&["D:\\tools\\", "E:\0"]),
    }
    .into_dirs();
    assert_eq!(dirs.len(), 7);

    let name = wide("cmd");
    assert!(is_bare(&name, &program_path(Some("cmd"), None)));
    assert_eq!(
        executable_candidates(&name, true, &dirs),
        words(&[
            "C:\\child\\cmd.exe",
            "C:\\app\\cmd.exe",
            "C:\\Windows\\System32\\cmd.exe",
            "C:\\Windows\\cmd.exe",
            "D:\\tools\\cmd.exe",
        ])
    );
    // A name with a dot is searched as it is.
    assert_eq!(
        executable_candidates(&wide("a.b"), true, &dirs[..1]),
        words(&["C:\\child\\a.b"])
    );

    let err = chosen_executable(&name, true, None).unwrap_err();
    assert_eq!(err.kind(), IoErrorKind::NotFound);
    assert_eq!(err.message, PROGRAM_NOT_FOUND);
    let found = wide("C:\\app\\cmd.exe");
    assert_eq!(
        chosen_executable(&name, true, Some(found.clone())).unwrap(),
        found
    );
}

#[test]
fn a_program_with_a_directory_is_not_searched() {
    let program = wide("C:\\tools\\run");
    let path = program_path(Some("run"), None);
    assert!(!is_bare(&program, &path));
    assert_eq!(
        executable_candidates(&program, false, &words(&["C:\\dir"])),
        words(&["C:\\tools\\run.exe"])
    );
    assert_eq!(chosen_executable(&program, false, None).unwrap(), program);
    assert!(executable_candidates(&wide("C:\\tools\\RUN.Exe"), false, &[]).is_empty());
    assert!(!is_bare(&program, &program_path(None, None)));
    assert!(!is_bare(&wide("rum"), &path));
}

#[test]
fn the_path_of_a_changed_environment_is_searched_first() {
    let table = CaseTable::ascii();
    let mut command = Command::new(wide("cmd"));
    assert_eq!(command.child_path(&parent(), &table).unwrap(), None);
    command.env(wide("other"), wide("value"));
    assert_eq!(
        command.child_path(&parent(), &table).unwrap(),
        Some(wide("C:\\Windows"))
    );
    command.env(wide("path"), wide("D:\\tools"));
    assert_eq!(
        command.child_path(&parent(), &table).unwrap(),
        Some(wide("D:\\tools"))
    );
    command.env_remove(wide("PATH"));
    assert_eq!(command.child_path(&parent(), &table).unwrap(), None);
    command.env(wide("BAD=KEY"), wide("x"));
    assert_eq!(
        command.child_path(&parent(), &table).unwrap_err().kind(),
        IoErrorKind::InvalidInput
    );
}

#[test]
fn a_cloned_command_launches_the_same_process() {
    let mut command = Command::new(wide("prog"));
    command
        .arg(wide("two words"))
        .raw_arg(wide("|raw"))
        .env(wide("KEY"), wide("value"))
        .env_remove(wide("TEMP"))
        .current_dir(wide("C:\\work"))
        .creation_flags(0x200)
        .kill_on_drop(true);
    let clone = command.clone();
    command.arg(wide("later")).env_clear();

    assert_eq!(cmdline(&clone), r#""prog" "two words" |raw"#);
    let pairs = parse_env_block(&block(&clone).unwrap());
    assert!(pairs.contains(&("KEY".into(), "value".into())));
    assert!(pairs.iter().all(|(name, _)| name != "TEMP"));
    assert_eq!(clone.get_current_dir(), Some(&wide("C:\\work")));
    assert_eq!(
        clone.process_creation_flags(),
        command.process_creation_flags()
    );
    assert!(clone.get_kill_on_drop());
}

#[test]
fn a_working_directory_is_terminated_and_holds_no_nul() {
    let mut command = Command::new(wide("prog"));
    assert_eq!(command.build_current_dir().unwrap(), None);
    command.current_dir(wide("C:"));
    assert_eq!(
        command.build_current_dir().unwrap(),
        Some(vec![0x43, 0x3A, 0])
    );
    command.current_dir(wide("C:\0"));
    let err = command.build_current_dir().unwrap_err();
    assert_eq!(err.kind(), IoErrorKind::InvalidInput);
    assert_eq!(err.message, "current directory contains an interior NUL");
}
