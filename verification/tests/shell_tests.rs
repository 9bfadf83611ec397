use quarkcli::error::QuarkPanError;
use quarkcli::remote_path::{absolute_remote_path, normalize_remote_path, split_remote_parent_name};
use quarkcli::shell::{
    fid_display_path, fid_file_name, is_quark_fid, parse_shell_command, parse_shell_words,
    synthetic_fid_entry, ShellCommand,
};

#[test]
fn parses_get_with_quoted_remote_path_and_continue_flag() {
    let command = parse_shell_command(r#"get "来自：分享/0531 小龙女" ./0531 -c"#).unwrap();

    assert_eq!(
        command,
        ShellCommand::Get {
            remote_path: "来自：分享/0531 小龙女".to_string(),
            local_path: Some("./0531".into()),
            continue_transfer: true,
            overwrite: false,
        }
    );
}

#[test]
fn normalizes_remote_path_with_parent_components() {
    assert_eq!(
        normalize_remote_path("/来自：分享/0531/../tvtemp"),
        "/来自：分享/tvtemp"
    );
    assert_eq!(normalize_remote_path("../tvtemp"), "/tvtemp");
    assert_eq!(normalize_remote_path("./"), "/");
}

#[test]
fn parses_basic_navigation_and_mutation_commands() {
    assert_eq!(
        parse_shell_command(r#"ls "来自：分享""#).unwrap(),
        ShellCommand::Ls {
            remote_path: Some("来自：分享".to_string())
        }
    );
    assert_eq!(
        parse_shell_command("cd ..").unwrap(),
        ShellCommand::Cd {
            remote_path: "..".to_string()
        }
    );
    assert_eq!(parse_shell_command("pwd").unwrap(), ShellCommand::Pwd);
    assert_eq!(
        parse_shell_command("put ./local.mp4 /tvtemp -o").unwrap(),
        ShellCommand::Put {
            local_path: "./local.mp4".into(),
            remote_dir: Some("/tvtemp".to_string()),
            continue_transfer: false,
            overwrite: true,
        }
    );
    assert_eq!(
        parse_shell_command(r#"mkdir "新目录""#).unwrap(),
        ShellCommand::Mkdir {
            remote_path: "新目录".to_string()
        }
    );
    assert_eq!(
        parse_shell_command(r#"rm "旧文件.mp4""#).unwrap(),
        ShellCommand::Rm {
            remote_path: "旧文件.mp4".to_string()
        }
    );
    assert_eq!(
        parse_shell_command(r#"mv "旧名字.mp4" "新名字.mp4""#).unwrap(),
        ShellCommand::Mv {
            remote_path: "旧名字.mp4".to_string(),
            new_name: "新名字.mp4".to_string(),
        }
    );
    assert_eq!(parse_shell_command("quit").unwrap(), ShellCommand::Exit);
}

#[test]
fn parses_dir_as_ls_alias() {
    assert_eq!(
        parse_shell_command("dir").unwrap(),
        ShellCommand::Ls { remote_path: None }
    );
    assert_eq!(
        parse_shell_command("dir 9142a9e0d2ba435d99a98b7acc773e7a").unwrap(),
        ShellCommand::Ls {
            remote_path: Some("9142a9e0d2ba435d99a98b7acc773e7a".to_string())
        }
    );
}

#[test]
fn recognizes_quark_fids() {
    assert!(is_quark_fid("9142a9e0d2ba435d99a98b7acc773e7a"));
    assert!(is_quark_fid("E74ACFA557AA461D9356BA8E38FACDF6"));
    assert!(!is_quark_fid("0531小龙女卷1"));
    assert!(!is_quark_fid("9142a9e0d2ba435d99a98b7acc773e7"));
}

#[test]
fn shell_parses_aliases_help_and_flags() {
    assert_eq!(parse_shell_command("help").unwrap(), ShellCommand::Help);
    assert_eq!(parse_shell_command("?").unwrap(), ShellCommand::Help);
    assert_eq!(parse_shell_command("exit").unwrap(), ShellCommand::Exit);
    assert_eq!(
        parse_shell_command("ls").unwrap(),
        ShellCommand::Ls { remote_path: None }
    );
    assert_eq!(
        parse_shell_command("get /a.bin --continue --overwrite").unwrap(),
        ShellCommand::Get {
            remote_path: "/a.bin".to_string(),
            local_path: None,
            continue_transfer: true,
            overwrite: true,
        }
    );
    assert_eq!(
        parse_shell_command("put ./a.bin").unwrap(),
        ShellCommand::Put {
            local_path: "./a.bin".to_string(),
            remote_dir: None,
            continue_transfer: false,
            overwrite: false,
        }
    );
}

#[test]
fn shell_parses_stat() {
    assert_eq!(
        parse_shell_command(r#"stat "旧文件.mp4""#).unwrap(),
        ShellCommand::Stat {
            remote_path: "旧文件.mp4".to_string()
        }
    );
}

#[test]
fn shell_rejects_malformed_lines() {
    let cases = [
        "",
        "   ",
        "frobnicate",
        "pwd extra",
        "ls a b",
        "cd",
        "cd a b",
        "get",
        "get a b c",
        "get a -x",
        "put",
        "mv a",
        "mv a b c",
        "get \"unterminated",
        "stat",
        "stat a b",
    ];
    for line in cases {
        assert!(
            matches!(
                parse_shell_command(line),
                Err(QuarkPanError::InvalidArgument(_))
            ),
            "line {:?} should be refused",
            line
        );
    }
}

#[test]
fn shell_words_decide_the_command() {
    assert!(parse_shell_words(None).is_err());
    assert_eq!(
        parse_shell_words(Some(vec!["cd".to_string(), "/x y".to_string()])).unwrap(),
        ShellCommand::Cd {
            remote_path: "/x y".to_string()
        }
    );
}

#[test]
fn fid_helpers_use_the_short_prefix() {
    let fid = "9142a9e0d2ba435d99a98b7acc773e7a";
    assert_eq!(fid_file_name(fid), "@fid-9142a9e0");
    assert_eq!(fid_display_path(fid), "/@fid:9142a9e0");
    let entry = synthetic_fid_entry(fid, true);
    assert_eq!(entry.fid, fid);
    assert_eq!(entry.file_name, "@fid-9142a9e0");
    assert!(entry.dir);
    assert!(!entry.file);
}

#[test]
fn normalize_is_idempotent_on_examples() {
    for p in ["/a/./b/../c", "x//y/", "/../..", "", "a/b/c/.."] {
        let once = normalize_remote_path(p);
        assert_eq!(normalize_remote_path(&once), once);
    }
    assert_eq!(normalize_remote_path(""), "/");
    assert_eq!(normalize_remote_path("a//b/"), "/a/b");
}

#[test]
fn absolute_remote_path_joins_relative_paths() {
    assert_eq!(absolute_remote_path("/base", "child"), "/base/child");
    assert_eq!(absolute_remote_path("/base", "/other"), "/other");
    assert_eq!(absolute_remote_path("/", "child"), "/child");
    assert_eq!(absolute_remote_path("/base/dir", "../x"), "/base/x");
}

#[test]
fn split_remote_parent_name_separates_last_component() {
    assert_eq!(
        split_remote_parent_name("/backup/new").unwrap(),
        ("/backup".to_string(), "new".to_string())
    );
    assert_eq!(
        split_remote_parent_name("/top").unwrap(),
        ("/".to_string(), "top".to_string())
    );
    assert_eq!(
        split_remote_parent_name("/a/b/").unwrap(),
        ("/a".to_string(), "b".to_string())
    );
    assert!(split_remote_parent_name("/").is_err());
    assert!(split_remote_parent_name("").is_err());
}

#[test]
fn split_parts_join_back_to_the_normal_path() {
    for p in ["/backup/new", "a/b/../c", "/top", "x//y/"] {
        let normal = normalize_remote_path(p);
        let (parent, name) = split_remote_parent_name(&normal).unwrap();
        assert!(!name.contains('/') && !name.is_empty());
        let rejoined = if parent == "/" {
            format!("/{name}")
        } else {
            format!("{parent}/{name}")
        };
        assert_eq!(rejoined, normal);
    }
}

#[test]
fn normalised_paths_are_rooted_with_plain_components() {
    for p in ["", "/", "a", "./a/../b//c/", "../../x/.", "/x/y/..", "a/./b/../../.."] {
        let n = normalize_remote_path(p);
        assert!(n.starts_with('/'));
        if n != "/" {
            assert!(!n.ends_with('/'));
            for c in n[1..].split('/') {
                assert!(c != "" && c != "." && c != "..", "{p:?} gave {n:?}");
            }
        }
    }
    assert_eq!(normalize_remote_path("a/./b/../../.."), "/");
}

#[test]
fn a_leading_slash_changes_nothing() {
    for p in ["", "a", "./a/../b//c/", "../x", "/already", "来自：分享/0531/../tvtemp"] {
        assert_eq!(normalize_remote_path(&format!("/{p}")), normalize_remote_path(p));
    }
}
