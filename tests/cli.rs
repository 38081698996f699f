use python_launcher::{
    list_executables, version_from_flag, Action, Error, Event, ExactVersion, Next, Query,
    RequestedVersion,
};

fn argv(items: &[&str]) -> Vec<String> {
    items.iter().map(|s| s.to_string()).collect()
}

/// Drives a resolution to its end, answering each query with `answer`, and
/// returns the queries asked along with the outcome.
fn drive(items: &[&str], answer: &dyn Fn(&Query) -> Event) -> (Vec<Query>, Result<Action, Error>) {
    let mut asked = Vec::new();
    let mut next = Action::from_main(&argv(items));
    loop {
        match next {
            Next::Done(result) => return (asked, result),
            Next::Pending(resolver) => {
                let q = resolver.query();
                let e = answer(&q);
                asked.push(q);
                next = resolver.advance(e);
            }
        }
    }
}

fn nothing_installed(q: &Query) -> Event {
    match q {
        Query::IsFile(_) => Event::Flag(false),
        Query::FileHead(_) => Event::Bytes(None),
        Query::Enumerate => Event::Executables(Vec::new()),
        _ => Event::Text(None),
    }
}

fn done(items: &[&str]) -> Result<Action, Error> {
    match Action::from_main(&argv(items)) {
        Next::Done(r) => r,
        Next::Pending(_) => panic!("resolution should have ended at once"),
    }
}

#[test]
fn from_main_illegal_argument_help_then_list() {
    assert_eq!(
        done(&["py", "--help", "--list"]),
        Err(Error::IllegalArgument("py".to_string(), "--help".to_string()))
    );
}

#[test]
fn from_main_illegal_argument_list_then_help() {
    assert_eq!(
        done(&["py", "--list", "--help"]),
        Err(Error::IllegalArgument("py".to_string(), "--list".to_string()))
    );
}

#[test]
fn from_main_illegal_argument_short_help_then_list() {
    assert_eq!(
        done(&["py", "-h", "--list"]),
        Err(Error::IllegalArgument("py".to_string(), "-h".to_string()))
    );
    assert_eq!(
        done(&["py", "-h", "--help"]),
        Err(Error::IllegalArgument("py".to_string(), "-h".to_string()))
    );
}

#[test]
fn unrecognized_short_flag_is_none() {
    assert_eq!(version_from_flag("-S"), None);
}

#[test]
fn unrecognized_long_flag_is_none() {
    assert_eq!(version_from_flag("--something"), None);
}

#[test]
fn major_version_flag() {
    assert_eq!(version_from_flag("-3"), Some(RequestedVersion::MajorOnly(3)));
}

#[test]
fn exact_version_flag() {
    assert_eq!(version_from_flag("-3.6"), Some(RequestedVersion::Exact(3, 6)));
}

#[test]
fn double_digit_version_flag() {
    assert_eq!(version_from_flag("-42.13"), Some(RequestedVersion::Exact(42, 13)));
}

#[test]
fn micro_version_flag_is_none() {
    assert_eq!(version_from_flag("-3.6.4"), None);
}

#[test]
fn bare_dash_and_malformed_flags_are_none() {
    assert_eq!(version_from_flag("-"), None);
    assert_eq!(version_from_flag("3"), None);
    assert_eq!(version_from_flag("-3."), None);
    assert_eq!(version_from_flag("-.6"), None);
    assert_eq!(version_from_flag("-65536"), None);
    assert_eq!(version_from_flag("-65535"), Some(RequestedVersion::MajorOnly(65535)));
}

#[test]
fn test_list_executables() {
    let mut executables: Vec<(ExactVersion, String)> = Vec::new();

    assert_eq!(
        list_executables(&executables),
        Err(Error::NoExecutableFound(RequestedVersion::Any))
    );

    let python27_path = "/path/to/2/7/python";
    executables.push((ExactVersion { major: 2, minor: 7 }, python27_path.to_string()));
    let python36_path = "/path/to/3/6/python";
    executables.push((ExactVersion { major: 3, minor: 6 }, python36_path.to_string()));
    let python37_path = "/path/to/3/7/python";
    executables.push((ExactVersion { major: 3, minor: 7 }, python37_path.to_string()));

    let executables_list = list_executables(&executables).unwrap();
    assert!(executables_list.contains("2.7"));
    assert!(executables_list.contains(python27_path));
    assert!(executables_list.contains("3.6"));
    assert!(executables_list.contains(python36_path));
    assert!(executables_list.contains("3.7"));
    assert!(executables_list.contains(python37_path));

    assert!(executables_list.find("3.7").unwrap() < executables_list.find("3.6").unwrap());
    assert!(executables_list.find("3.6").unwrap() < executables_list.find("2.7").unwrap());

    assert!(
        executables_list.find("3.6").unwrap() < executables_list.find(python36_path).unwrap()
    );
    assert!(
        executables_list.find("3.7").unwrap() < executables_list.find(python36_path).unwrap()
    );
}

#[test]
fn listing_rows_are_descending_whatever_the_input_order() {
    let executables = vec![
        (ExactVersion { major: 3, minor: 10 }, "/b/python3.10".to_string()),
        (ExactVersion { major: 2, minor: 7 }, "/a/python2.7".to_string()),
        (ExactVersion { major: 3, minor: 9 }, "/c/python3.9".to_string()),
    ];
    let text = list_executables(&executables).unwrap();
    assert!(text.ends_with('\n'));
    let lines: Vec<&str> = text.lines().collect();
    assert_eq!(lines.len(), 3);
    assert!(lines[0].contains("3.10") && lines[0].contains("/b/python3.10"));
    assert!(lines[1].contains("3.9") && lines[1].contains("/c/python3.9"));
    assert!(lines[2].contains("2.7") && lines[2].contains("/a/python2.7"));
    assert!(lines[0].contains('\u{2502}'));
}

#[test]
fn listing_empty_enumeration_fails() {
    let (asked, result) = drive(&["py", "--list"], &nothing_installed);
    assert_eq!(asked, vec![Query::Enumerate]);
    assert_eq!(result, Err(Error::NoExecutableFound(RequestedVersion::Any)));
}

#[test]
fn listing_action() {
    let answer = |q: &Query| match q {
        Query::Enumerate => Event::Executables(vec![(
            ExactVersion { major: 3, minor: 7 },
            "/usr/bin/python3.7".to_string(),
        )]),
        _ => Event::Text(None),
    };
    let (_, result) = drive(&["py", "--list"], &answer);
    match result {
        Ok(Action::List(text)) => {
            assert!(text.contains("3.7") && text.contains("/usr/bin/python3.7"))
        }
        other => panic!("unexpected {:?}", other),
    }
}

#[test]
fn help_searches_any_version_directly() {
    let answer = |q: &Query| match q {
        Query::Search(RequestedVersion::Any) => Event::Text(Some("/usr/bin/python3".to_string())),
        Query::HelpText(l, x) => Event::Text(Some(format!("help for {} and {}", l, x))),
        _ => Event::Text(None),
    };
    let (asked, result) = drive(&["py", "--help"], &answer);
    assert_eq!(asked.len(), 2);
    assert_eq!(
        result,
        Ok(Action::Help(
            "help for py and /usr/bin/python3".to_string(),
            "/usr/bin/python3".to_string()
        ))
    );
}

#[test]
fn help_without_interpreter_fails() {
    let (_, result) = drive(&["py", "-h"], &nothing_installed);
    assert_eq!(result, Err(Error::NoExecutableFound(RequestedVersion::Any)));
}

#[test]
fn activated_venv_wins() {
    let answer = |q: &Query| match q {
        Query::EnvVar(n) if n == "VIRTUAL_ENV" => Event::Text(Some("/path/to/venv".to_string())),
        _ => Event::Text(None),
    };
    let (asked, result) = drive(&["py", "script.py", "-v"], &answer);
    assert_eq!(asked, vec![Query::EnvVar("VIRTUAL_ENV".to_string())]);
    assert_eq!(
        result,
        Ok(Action::Execute {
            launcher_path: "py".to_string(),
            executable: "/path/to/venv/bin/python".to_string(),
            args: vec!["script.py".to_string(), "-v".to_string()],
        })
    );
}

#[test]
fn empty_virtual_env_is_ignored() {
    let answer = |q: &Query| match q {
        Query::EnvVar(n) if n == "VIRTUAL_ENV" => Event::Text(Some(String::new())),
        Query::Search(RequestedVersion::Any) => Event::Text(Some("/usr/bin/python".to_string())),
        _ => nothing_installed(q),
    };
    let (_, result) = drive(&["py"], &answer);
    match result {
        Ok(Action::Execute { executable, args, .. }) => {
            assert_eq!(executable, "/usr/bin/python");
            assert!(args.is_empty());
        }
        other => panic!("unexpected {:?}", other),
    }
}

#[test]
fn venv_found_in_an_ancestor_directory() {
    let answer = |q: &Query| match q {
        Query::CurrentDir => Event::Text(Some("/home/me/project/src".to_string())),
        Query::IsFile(p) => Event::Flag(p == "/home/me/project/.venv/bin/python"),
        _ => Event::Text(None),
    };
    let (asked, result) = drive(&["py"], &answer);
    assert!(asked.contains(&Query::IsFile("/home/me/project/src/.venv/bin/python".to_string())));
    match result {
        Ok(Action::Execute { executable, .. }) => {
            assert_eq!(executable, "/home/me/project/.venv/bin/python")
        }
        other => panic!("unexpected {:?}", other),
    }
}

#[test]
fn ancestor_walk_reaches_the_root() {
    let answer = |q: &Query| match q {
        Query::CurrentDir => Event::Text(Some("/a/b".to_string())),
        Query::IsFile(p) => Event::Flag(p == "/.venv/bin/python"),
        _ => Event::Text(None),
    };
    let (_, result) = drive(&["py"], &answer);
    match result {
        Ok(Action::Execute { executable, .. }) => assert_eq!(executable, "/.venv/bin/python"),
        other => panic!("unexpected {:?}", other),
    }
}

#[test]
fn shebang_refines_the_request() {
    let answer = |q: &Query| match q {
        Query::FileHead(p) if p == "script.py" => {
            Event::Bytes(Some(b"#! /usr/bin/env python3.7\nprint()\n".to_vec()))
        }
        Query::Search(RequestedVersion::Exact(3, 7)) => {
            Event::Text(Some("/usr/bin/python3.7".to_string()))
        }
        _ => nothing_installed(q),
    };
    let (asked, result) = drive(&["py", "script.py"], &answer);
    assert_eq!(asked.last(), Some(&Query::Search(RequestedVersion::Exact(3, 7))));
    match result {
        Ok(Action::Execute { executable, args, .. }) => {
            assert_eq!(executable, "/usr/bin/python3.7");
            assert_eq!(args, vec!["script.py".to_string()]);
        }
        other => panic!("unexpected {:?}", other),
    }
}

#[test]
fn explicit_version_skips_venv_and_shebang() {
    let answer = |q: &Query| match q {
        Query::EnvVar(n) if n == "VIRTUAL_ENV" => Event::Text(Some("/venv".to_string())),
        Query::Search(RequestedVersion::MajorOnly(3)) => {
            Event::Text(Some("/usr/bin/python3.9".to_string()))
        }
        _ => nothing_installed(q),
    };
    let (asked, result) = drive(&["py", "-3", "script.py"], &answer);
    assert_eq!(
        asked,
        vec![
            Query::EnvVar("PY_PYTHON3".to_string()),
            Query::Search(RequestedVersion::MajorOnly(3))
        ]
    );
    assert_eq!(
        result,
        Ok(Action::Execute {
            launcher_path: "py".to_string(),
            executable: "/usr/bin/python3.9".to_string(),
            args: vec!["script.py".to_string()],
        })
    );
}

#[test]
fn override_variable_replaces_the_request() {
    let answer = |q: &Query| match q {
        Query::EnvVar(n) if n == "PY_PYTHON" => Event::Text(Some("3.8".to_string())),
        Query::Search(RequestedVersion::Exact(3, 8)) => {
            Event::Text(Some("/usr/bin/python3.8".to_string()))
        }
        _ => nothing_installed(q),
    };
    let (_, result) = drive(&["py"], &answer);
    match result {
        Ok(Action::Execute { executable, .. }) => assert_eq!(executable, "/usr/bin/python3.8"),
        other => panic!("unexpected {:?}", other),
    }
}

#[test]
fn exact_request_has_no_override_variable() {
    let (asked, result) = drive(&["py", "-3.6"], &nothing_installed);
    assert_eq!(asked, vec![Query::Search(RequestedVersion::Exact(3, 6))]);
    assert_eq!(result, Err(Error::NoExecutableFound(RequestedVersion::Exact(3, 6))));
}

#[test]
fn malformed_override_variable_is_fatal() {
    let answer = |q: &Query| match q {
        Query::EnvVar(n) if n == "PY_PYTHON3" => Event::Text(Some("3.x".to_string())),
        _ => nothing_installed(q),
    };
    let (_, result) = drive(&["py", "-3"], &answer);
    assert_eq!(result, Err(Error::BadVersionFormat("3.x".to_string())));
}

#[test]
fn nothing_found_reports_the_refined_request() {
    let answer = |q: &Query| match q {
        Query::FileHead(_) => Event::Bytes(Some(b"#!python2\n".to_vec())),
        _ => nothing_installed(q),
    };
    let (_, result) = drive(&["py", "script.py"], &answer);
    assert_eq!(result, Err(Error::NoExecutableFound(RequestedVersion::MajorOnly(2))));
}

#[test]
fn answer_of_the_wrong_kind_is_ignored() {
    let resolver = match Action::from_main(&argv(&["py", "-3.6"])) {
        Next::Pending(r) => r,
        Next::Done(r) => panic!("unexpected {:?}", r),
    };
    let again = match resolver.advance(Event::Flag(true)) {
        Next::Pending(r) => r,
        Next::Done(r) => panic!("unexpected {:?}", r),
    };
    assert_eq!(again.query(), Query::Search(RequestedVersion::Exact(3, 6)));
}

#[test]
fn same_machine_same_outcome() {
    let answer = |q: &Query| match q {
        Query::CurrentDir => Event::Text(Some("/x/y".to_string())),
        Query::FileHead(_) => Event::Bytes(Some(b"#!/usr/bin/python3\n".to_vec())),
        Query::Search(v) => Event::Text(Some(format!("/bin/{:?}", v))),
        _ => nothing_installed(q),
    };
    let first = drive(&["py", "run.py", "a"], &answer);
    let second = drive(&["py", "run.py", "a"], &answer);
    assert_eq!(first, second);
    let failing = drive(&["py", "-2"], &nothing_installed);
    assert_eq!(failing, drive(&["py", "-2"], &nothing_installed));
}
