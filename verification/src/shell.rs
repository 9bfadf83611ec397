//! The interactive shell's command language and its fid helpers.

use vstd::prelude::*;
use vstd::string::StringSliceAdditionalSpecFns;
use vstd::utf8::{decode_utf8, is_char_boundary};

use crate::entry::QuarkEntry;
use crate::error::{is_invalid_argument, QuarkPanError};
use crate::remote_path::views;
use crate::text::{owned, starts_with_char, str_eq};

verus! {

/// A parsed shell command line.
#[allow(inconsistent_fields)]
#[derive(Debug, Clone, PartialEq, Eq)]
pub enum ShellCommand {
    Help,
    Exit,
    Pwd,
    Ls { remote_path: Option<String> },
    Cd { remote_path: String },
    Get {
        remote_path: String,
        local_path: Option<String>,
        continue_transfer: bool,
        overwrite: bool,
    },
    Put {
        local_path: String,
        remote_dir: Option<String>,
        continue_transfer: bool,
        overwrite: bool,
    },
    Mkdir { remote_path: String },
    Rm { remote_path: String },
    Mv { remote_path: String, new_name: String },
    Stat { remote_path: String },
}

/// The meaning of a shell command, over character sequences.
#[allow(inconsistent_fields)]
pub enum CommandModel {
    Help,
    Exit,
    Pwd,
    Ls { remote_path: Option<Seq<char>> },
    Cd { remote_path: Seq<char> },
    Get {
        remote_path: Seq<char>,
        local_path: Option<Seq<char>>,
        continue_transfer: bool,
        overwrite: bool,
    },
    Put {
        local_path: Seq<char>,
        remote_dir: Option<Seq<char>>,
        continue_transfer: bool,
        overwrite: bool,
    },
    Mkdir { remote_path: Seq<char> },
    Rm { remote_path: Seq<char> },
    Mv { remote_path: Seq<char>, new_name: Seq<char> },
    Stat { remote_path: Seq<char> },
}

pub open spec fn opt_view(o: Option<String>) -> Option<Seq<char>> {
    match o {
        Some(s) => Some(s@),
        None => None,
    }
}

impl View for ShellCommand {
    type V = CommandModel;

    open spec fn view(&self) -> CommandModel {
        match *self {
            ShellCommand::Help => CommandModel::Help,
            ShellCommand::Exit => CommandModel::Exit,
            ShellCommand::Pwd => CommandModel::Pwd,
            ShellCommand::Ls { remote_path } => CommandModel::Ls { remote_path: opt_view(remote_path) },
            ShellCommand::Cd { remote_path } => CommandModel::Cd { remote_path: remote_path@ },
            ShellCommand::Get { remote_path, local_path, continue_transfer, overwrite } =>
                CommandModel::Get {
                remote_path: remote_path@,
                local_path: opt_view(local_path),
                continue_transfer,
                overwrite,
            },
            ShellCommand::Put { local_path, remote_dir, continue_transfer, overwrite } =>
                CommandModel::Put {
                local_path: local_path@,
                remote_dir: opt_view(remote_dir),
                continue_transfer,
                overwrite,
            },
            ShellCommand::Mkdir { remote_path } => CommandModel::Mkdir { remote_path: remote_path@ },
            ShellCommand::Rm { remote_path } => CommandModel::Rm { remote_path: remote_path@ },
            ShellCommand::Mv { remote_path, new_name } => CommandModel::Mv {
                remote_path: remote_path@,
                new_name: new_name@,
            },
            ShellCommand::Stat { remote_path } => CommandModel::Stat { remote_path: remote_path@ },
        }
    }
}

/// `ls`-style optional path: at most one argument.
pub open spec fn optional_path_of(name: Seq<char>, args: Seq<Seq<char>>) -> Result<
    Option<Seq<char>>,
    Seq<char>,
> {
    if args.len() <= 1 {
        Ok(if args.len() == 0 { None } else { Some(args[0]) })
    } else {
        Err("usage: "@ + name + " [remote_path]"@)
    }
}

/// Exactly one path argument.
pub open spec fn one_path_of(name: Seq<char>, args: Seq<Seq<char>>) -> Result<Seq<char>, Seq<char>> {
    if args.len() == 1 {
        Ok(args[0])
    } else {
        Err("usage: "@ + name + " <remote_path>"@)
    }
}

/// The flags and positional arguments of a `get` or `put` line, or the first
/// unknown option.
pub open spec fn transfer_args_of(args: Seq<Seq<char>>) -> Result<
    (Seq<Seq<char>>, bool, bool),
    Seq<char>,
>
    decreases args.len(),
{
    if args.len() == 0 {
        Ok((Seq::empty(), false, false))
    } else {
        match transfer_args_of(args.drop_last()) {
            Err(bad) => Err(bad),
            Ok((positional, cont, over)) => {
                let a = args.last();
                if a == "-c"@ || a == "--continue"@ {
                    Ok((positional, true, over))
                } else if a == "-o"@ || a == "--overwrite"@ {
                    Ok((positional, cont, true))
                } else if a.len() > 0 && a[0] == '-' {
                    Err(a)
                } else {
                    Ok((positional.push(a), cont, over))
                }
            },
        }
    }
}

/// What each option of `get` and `put` means, whatever came before it: `-c`
/// and `--continue` both set only the continue flag, `-o` and `--overwrite`
/// both set only the overwrite flag, and neither adds a positional argument;
/// an earlier unknown option stays the error.
pub proof fn lemma_flag_meanings(args: Seq<Seq<char>>)
    ensures
        match transfer_args_of(args) {
            Ok((p, c, o)) => {
                &&& transfer_args_of(args.push("-c"@)) == Ok::<(Seq<Seq<char>>, bool, bool), Seq<char>>((p, true, o))
                &&& transfer_args_of(args.push("--continue"@)) == Ok::<(Seq<Seq<char>>, bool, bool), Seq<char>>((p, true, o))
                &&& transfer_args_of(args.push("-o"@)) == Ok::<(Seq<Seq<char>>, bool, bool), Seq<char>>((p, c, true))
                &&& transfer_args_of(args.push("--overwrite"@)) == Ok::<(Seq<Seq<char>>, bool, bool), Seq<char>>((p, c, true))
            },
            Err(b) => {
                &&& transfer_args_of(args.push("-c"@)) == Err::<(Seq<Seq<char>>, bool, bool), Seq<char>>(b)
                &&& transfer_args_of(args.push("--continue"@)) == Err::<(Seq<Seq<char>>, bool, bool), Seq<char>>(b)
                &&& transfer_args_of(args.push("-o"@)) == Err::<(Seq<Seq<char>>, bool, bool), Seq<char>>(b)
                &&& transfer_args_of(args.push("--overwrite"@)) == Err::<(Seq<Seq<char>>, bool, bool), Seq<char>>(b)
            },
        },
{
    reveal_strlit("-c");
    reveal_strlit("--continue");
    reveal_strlit("-o");
    reveal_strlit("--overwrite");
    assert("-c"@ != "-o"@) by {
        assert("-c"@[1] != "-o"@[1]);
    }
    assert("-c"@ != "--overwrite"@) by {
        assert("-c"@.len() != "--overwrite"@.len());
    }
    assert("--continue"@ != "-o"@) by {
        assert("--continue"@.len() != "-o"@.len());
    }
    assert("--continue"@ != "--overwrite"@) by {
        assert("--continue"@.len() != "--overwrite"@.len());
    }
    assert(args.push("-c"@).drop_last() =~= args);
    assert(args.push("--continue"@).drop_last() =~= args);
    assert(args.push("-o"@).drop_last() =~= args);
    assert(args.push("--overwrite"@).drop_last() =~= args);
}

/// Writing an option in its long or its short form makes no difference to a
/// `get` or `put` line: replacing the last argument `--continue` by `-c`, or
/// `--overwrite` by `-o`, leaves the meaning unchanged.
pub proof fn lemma_long_and_short_flags_agree(args: Seq<Seq<char>>)
    ensures
        transfer_args_of(args.push("--continue"@)) == transfer_args_of(args.push("-c"@)),
        transfer_args_of(args.push("--overwrite"@)) == transfer_args_of(args.push("-o"@)),
{
    lemma_flag_meanings(args);
}

/// The meaning of the arguments of `get`.
pub open spec fn get_of(args: Seq<Seq<char>>) -> Result<CommandModel, Seq<char>> {
    match transfer_args_of(args) {
        Err(bad) => Err("unknown get option: "@ + bad),
        Ok((p, cont, over)) => if p.len() == 0 || p.len() > 2 {
            Err("usage: get <remote_path> [local_path] [-c] [-o]"@)
        } else {
            Ok(
                CommandModel::Get {
                    remote_path: p[0],
                    local_path: if p.len() == 2 { Some(p[1]) } else { None },
                    continue_transfer: cont,
                    overwrite: over,
                },
            )
        },
    }
}

/// The meaning of the arguments of `put`.
pub open spec fn put_of(args: Seq<Seq<char>>) -> Result<CommandModel, Seq<char>> {
    match transfer_args_of(args) {
        Err(bad) => Err("unknown put option: "@ + bad),
        Ok((p, cont, over)) => if p.len() == 0 || p.len() > 2 {
            Err("usage: put <local_path> [remote_dir] [-c] [-o]"@)
        } else {
            Ok(
                CommandModel::Put {
                    local_path: p[0],
                    remote_dir: if p.len() == 2 { Some(p[1]) } else { None },
                    continue_transfer: cont,
                    overwrite: over,
                },
            )
        },
    }
}

/// The meaning of the arguments of `mv`.
pub open spec fn mv_of(args: Seq<Seq<char>>) -> Result<CommandModel, Seq<char>> {
    if args.len() != 2 {
        Err("usage: mv <remote_path> <new_name>"@)
    } else {
        Ok(CommandModel::Mv { remote_path: args[0], new_name: args[1] })
    }
}

/// A command that takes no arguments.
pub open spec fn no_args_of(name: Seq<char>, args: Seq<Seq<char>>, c: CommandModel) -> Result<
    CommandModel,
    Seq<char>,
> {
    if args.len() == 0 {
        Ok(c)
    } else {
        Err("usage: "@ + name)
    }
}

/// The meaning of a command line already split into words (`None` when the
/// line could not be split): a command, or the text of the argument error.
pub open spec fn command_of(words: Option<Seq<Seq<char>>>) -> Result<CommandModel, Seq<char>> {
    match words {
        None => Err("cannot parse command: unmatched quote or escape"@),
        Some(w) => if w.len() == 0 {
            Err("empty command"@)
        } else {
            let c = w[0];
            let args = w.drop_first();
            if c == "help"@ || c == "?"@ {
                no_args_of("help"@, args, CommandModel::Help)
            } else if c == "exit"@ || c == "quit"@ {
                no_args_of("exit"@, args, CommandModel::Exit)
            } else if c == "pwd"@ {
                no_args_of("pwd"@, args, CommandModel::Pwd)
            } else if c == "ls"@ || c == "dir"@ {
                match optional_path_of("ls"@, args) {
                    Ok(p) => Ok(CommandModel::Ls { remote_path: p }),
                    Err(e) => Err(e),
                }
            } else if c == "cd"@ {
                match one_path_of("cd"@, args) {
                    Ok(p) => Ok(CommandModel::Cd { remote_path: p }),
                    Err(e) => Err(e),
                }
            } else if c == "get"@ {
                get_of(args)
            } else if c == "put"@ {
                put_of(args)
            } else if c == "mkdir"@ {
                match one_path_of("mkdir"@, args) {
                    Ok(p) => Ok(CommandModel::Mkdir { remote_path: p }),
                    Err(e) => Err(e),
                }
            } else if c == "rm"@ {
                match one_path_of("rm"@, args) {
                    Ok(p) => Ok(CommandModel::Rm { remote_path: p }),
                    Err(e) => Err(e),
                }
            } else if c == "mv"@ {
                mv_of(args)
            } else if c == "stat"@ {
                match one_path_of("stat"@, args) {
                    Ok(p) => Ok(CommandModel::Stat { remote_path: p }),
                    Err(e) => Err(e),
                }
            } else {
                Err("unknown shell command: "@ + c)
            }
        },
    }
}

/// An argument of `get` or `put` that looks like an option.
pub open spec fn is_option_word(a: Seq<char>) -> bool {
    a.len() > 0 && a[0] == '-'
}

/// One of the options `get` and `put` know.
pub open spec fn is_transfer_flag(a: Seq<char>) -> bool {
    a == "-c"@ || a == "--continue"@ || a == "-o"@ || a == "--overwrite"@
}

/// Every option among `args` is a known one.
pub open spec fn flags_known(args: Seq<Seq<char>>) -> bool {
    forall|i: int| 0 <= i < args.len() && is_option_word(#[trigger] args[i]) ==> is_transfer_flag(args[i])
}

/// How many of `args` are not options.
pub open spec fn positional_count(args: Seq<Seq<char>>) -> nat
    decreases args.len(),
{
    if args.len() == 0 {
        0
    } else {
        positional_count(args.drop_last()) + if is_option_word(args.last()) {
            0nat
        } else {
            1nat
        }
    }
}

/// The words of a line the shell accepts: a known command with the right
/// number of arguments (none for `help`, `?`, `exit`, `quit`, `pwd`; at most
/// one for `ls`, `dir`; one for `cd`, `mkdir`, `rm`, `stat`; two for `mv`), or `get`
/// or `put` with only known options and one or two other arguments.
pub open spec fn accepted_words(w: Seq<Seq<char>>) -> bool {
    if w.len() == 0 {
        false
    } else {
        let c = w[0];
        let args = w.drop_first();
        if c == "help"@ || c == "?"@ || c == "exit"@ || c == "quit"@ || c == "pwd"@ {
            args.len() == 0
        } else if c == "ls"@ || c == "dir"@ {
            args.len() <= 1
        } else if c == "cd"@ {
            args.len() == 1
        } else if c == "get"@ || c == "put"@ {
            flags_known(args) && 1 <= positional_count(args) <= 2
        } else if c == "mkdir"@ || c == "rm"@ {
            args.len() == 1
        } else if c == "mv"@ {
            args.len() == 2
        } else if c == "stat"@ {
            args.len() == 1
        } else {
            false
        }
    }
}

proof fn lemma_transfer_args_accept(args: Seq<Seq<char>>)
    ensures
        transfer_args_of(args) is Ok <==> flags_known(args),
        transfer_args_of(args) matches Ok((p, _, _)) ==> p.len() == positional_count(args),
    decreases args.len(),
{
    reveal_strlit("-c");
    reveal_strlit("--continue");
    reveal_strlit("-o");
    reveal_strlit("--overwrite");
    if args.len() > 0 {
        let init = args.drop_last();
        let a = args.last();
        lemma_transfer_args_accept(init);
        assert(flags_known(args) <==> flags_known(init) && (is_option_word(a) ==> is_transfer_flag(a))) by {
            if flags_known(args) {
                assert forall|i: int| 0 <= i < init.len() && is_option_word(#[trigger] init[i]) implies is_transfer_flag(init[i]) by {
                    assert(init[i] == args[i]);
                }
                assert(a == args[args.len() - 1]);
            }
            if flags_known(init) && (is_option_word(a) ==> is_transfer_flag(a)) {
                assert forall|i: int| 0 <= i < args.len() && is_option_word(#[trigger] args[i]) implies is_transfer_flag(args[i]) by {
                    if i < init.len() {
                        assert(init[i] == args[i]);
                    }
                }
            }
        }
        assert(is_transfer_flag(a) ==> is_option_word(a));
    }
}

/// Parsing a shell line fails exactly when the line cannot be split into
/// words, has none, names an unknown command, or gives that command the wrong
/// number of arguments or an unknown option.
pub proof fn lemma_parse_fails_exactly(words: Option<Seq<Seq<char>>>)
    ensures
        command_of(words) is Err <==> !(words matches Some(w) && accepted_words(w)),
{
    if let Some(w) = words {
        if w.len() > 0 {
            lemma_transfer_args_accept(w.drop_first());
        }
    }
}

/// What a parse returned agrees with its meaning `m`.
pub open spec fn parse_agrees(r: Result<ShellCommand, QuarkPanError>, m: Result<CommandModel, Seq<char>>) -> bool {
    match m {
        Ok(c) => r matches Ok(v) && v@ == c,
        Err(text) => is_invalid_argument(r, text),
    }
}

fn prefixed_error(prefix: &str, name: &str) -> (r: QuarkPanError)
    ensures
        r matches QuarkPanError::InvalidArgument(m) && m@ == prefix@ + name@,
{
    let mut m = String::new();
    m.append(prefix);
    m.append(name);
    QuarkPanError::InvalidArgument(m)
}

fn usage_error(prefix: &str, name: &str, suffix: &str) -> (r: QuarkPanError)
    ensures
        r matches QuarkPanError::InvalidArgument(m) && m@ == prefix@ + name@ + suffix@,
{
    let mut m = String::new();
    m.append(prefix);
    m.append(name);
    m.append(suffix);
    QuarkPanError::InvalidArgument(m)
}

/// Accepts `command` when no arguments follow it.
pub fn parse_no_args(name: &str, args: &[String], command: ShellCommand) -> (r: Result<
    ShellCommand,
    QuarkPanError,
>)
    ensures
        parse_agrees(r, no_args_of(name@, views(args@), command@)),
{
    if args.len() == 0 {
        Ok(command)
    } else {
        Err(prefixed_error("usage: ", name))
    }
}

/// Accepts at most one path argument.
pub fn parse_optional_path(name: &str, args: &[String]) -> (r: Result<
    Option<String>,
    QuarkPanError,
>)
    ensures
        match optional_path_of(name@, views(args@)) {
            Ok(p) => r matches Ok(o) && opt_view(o) == p,
            Err(text) => is_invalid_argument(r, text),
        },
{
    if args.len() == 0 {
        Ok(None)
    } else if args.len() == 1 {
        Ok(Some(args[0].clone()))
    } else {
        Err(usage_error("usage: ", name, " [remote_path]"))
    }
}

/// Accepts exactly one path argument.
pub fn parse_one_path(name: &str, args: &[String]) -> (r: Result<String, QuarkPanError>)
    ensures
        match one_path_of(name@, views(args@)) {
            Ok(p) => r matches Ok(s) && s@ == p,
            Err(text) => is_invalid_argument(r, text),
        },
{
    if args.len() == 1 {
        Ok(args[0].clone())
    } else {
        Err(usage_error("usage: ", name, " <remote_path>"))
    }
}

proof fn lemma_transfer_error_sticks(args: Seq<Seq<char>>, i: int)
    requires
        0 <= i <= args.len(),
        transfer_args_of(args.take(i)) is Err,
    ensures
        transfer_args_of(args.take(args.len() as int)) == transfer_args_of(args.take(i)),
    decreases args.len() - i,
{
    if i < args.len() {
        assert(args.take(i + 1).drop_last() =~= args.take(i));
        lemma_transfer_error_sticks(args, i + 1);
    }
}

/// Sorts the arguments of `get` or `put` into flags and positional words.
fn scan_transfer_args(args: &[String]) -> (r: Result<(Vec<String>, bool, bool), String>)
    ensures
        match transfer_args_of(views(args@)) {
            Ok((p, c, o)) => r matches Ok((v, c2, o2)) && views(v@) == p && c2 == c && o2 == o,
            Err(bad) => r matches Err(b) && b@ == bad,
        },
{
    let mut positional: Vec<String> = Vec::new();
    let mut cont = false;
    let mut over = false;
    let mut i: usize = 0;
    assert(views(args@).take(0) =~= Seq::<Seq<char>>::empty());
    assert(views(positional@) =~= Seq::<Seq<char>>::empty());
    while i < args.len()
        invariant
            i <= args@.len(),
            transfer_args_of(views(args@).take(i as int)) == Ok::<
                (Seq<Seq<char>>, bool, bool),
                Seq<char>,
            >((views(positional@), cont, over)),
        decreases args@.len() - i,
    {
        let a = args[i].as_str();
        let ghost w = views(args@).take(i + 1);
        assert(w.drop_last() =~= views(args@).take(i as int));
        assert(w.last() == a@);
        if str_eq(a, "-c") || str_eq(a, "--continue") {
            cont = true;
        } else if str_eq(a, "-o") || str_eq(a, "--overwrite") {
            over = true;
        } else if starts_with_char(a, '-') {
            proof {
                lemma_transfer_error_sticks(views(args@), i + 1);
                assert(views(args@).take(args@.len() as int) =~= views(args@));
            }
            return Err(owned(a));
        } else {
            let ghost before = views(positional@);
            positional.push(args[i].clone());
            assert(views(positional@) =~= before.push(a@));
        }
        i = i + 1;
    }
    assert(views(args@).take(args@.len() as int) =~= views(args@));
    Ok((positional, cont, over))
}

/// Parses the arguments of `get`.
pub fn parse_get(args: &[String]) -> (r: Result<ShellCommand, QuarkPanError>)
    ensures
        parse_agrees(r, get_of(views(args@))),
{
    match scan_transfer_args(args) {
        Err(bad) => Err(prefixed_error("unknown get option: ", bad.as_str())),
        Ok((positional, cont, over)) => {
            if positional.len() == 0 || positional.len() > 2 {
                return Err(QuarkPanError::invalid_argument("usage: get <remote_path> [local_path] [-c] [-o]"));
            }
            let local_path = if positional.len() == 2 {
                Some(positional[1].clone())
            } else {
                None
            };
            Ok(ShellCommand::Get {
                remote_path: positional[0].clone(),
                local_path,
                continue_transfer: cont,
                overwrite: over,
            })
        },
    }
}

/// Parses the arguments of `put`.
pub fn parse_put(args: &[String]) -> (r: Result<ShellCommand, QuarkPanError>)
    ensures
        parse_agrees(r, put_of(views(args@))),
{
    match scan_transfer_args(args) {
        Err(bad) => Err(prefixed_error("unknown put option: ", bad.as_str())),
        Ok((positional, cont, over)) => {
            if positional.len() == 0 || positional.len() > 2 {
                return Err(QuarkPanError::invalid_argument("usage: put <local_path> [remote_dir] [-c] [-o]"));
            }
            let remote_dir = if positional.len() == 2 {
                Some(positional[1].clone())
            } else {
                None
            };
            Ok(ShellCommand::Put {
                local_path: positional[0].clone(),
                remote_dir,
                continue_transfer: cont,
                overwrite: over,
            })
        },
    }
}

/// Parses the arguments of `mv`.
pub fn parse_mv(args: &[String]) -> (r: Result<ShellCommand, QuarkPanError>)
    ensures
        parse_agrees(r, mv_of(views(args@))),
{
    if args.len() != 2 {
        return Err(QuarkPanError::invalid_argument("usage: mv <remote_path> <new_name>"));
    }
    Ok(ShellCommand::Mv { remote_path: args[0].clone(), new_name: args[1].clone() })
}

/// Parses a command line that has already been split into shell words.
pub fn parse_shell_words(words: Option<Vec<String>>) -> (r: Result<ShellCommand, QuarkPanError>)
    ensures
        parse_agrees(
            r,
            command_of(
                match words {
                    Some(w) => Some(views(w@)),
                    None => None,
                },
            ),
        ),
{
    let words = match words {
        None => {
            return Err(QuarkPanError::invalid_argument("cannot parse command: unmatched quote or escape"));
        },
        Some(w) => w,
    };
    if words.len() == 0 {
        return Err(QuarkPanError::invalid_argument("empty command"));
    }
    let (head, args) = words.as_slice().split_at(1);
    let c = head[0].as_str();
    assert(views(args@) =~= views(words@).drop_first());
    assert(c@ == views(words@)[0]);
    if str_eq(c, "help") || str_eq(c, "?") {
        parse_no_args("help", args, ShellCommand::Help)
    } else if str_eq(c, "exit") || str_eq(c, "quit") {
        parse_no_args("exit", args, ShellCommand::Exit)
    } else if str_eq(c, "pwd") {
        parse_no_args("pwd", args, ShellCommand::Pwd)
    } else if str_eq(c, "ls") || str_eq(c, "dir") {
        match parse_optional_path("ls", args) {
            Ok(remote_path) => Ok(ShellCommand::Ls { remote_path }),
            Err(e) => Err(e),
        }
    } else if str_eq(c, "cd") {
        match parse_one_path("cd", args) {
            Ok(remote_path) => Ok(ShellCommand::Cd { remote_path }),
            Err(e) => Err(e),
        }
    } else if str_eq(c, "get") {
        parse_get(args)
    } else if str_eq(c, "put") {
        parse_put(args)
    } else if str_eq(c, "mkdir") {
        match parse_one_path("mkdir", args) {
            Ok(remote_path) => Ok(ShellCommand::Mkdir { remote_path }),
            Err(e) => Err(e),
        }
    } else if str_eq(c, "rm") {
        match parse_one_path("rm", args) {
            Ok(remote_path) => Ok(ShellCommand::Rm { remote_path }),
            Err(e) => Err(e),
        }
    } else if str_eq(c, "mv") {
        parse_mv(args)
    } else if str_eq(c, "stat") {
        match parse_one_path("stat", args) {
            Ok(remote_path) => Ok(ShellCommand::Stat { remote_path }),
            Err(e) => Err(e),
        }
    } else {
        Err(prefixed_error("unknown shell command: ", c))
    }
}

/// What `shlex::split` returns for a line: its shell words, or `None` when
/// the line has an unmatched quote or escape.
pub uninterp spec fn shlex_words(line: Seq<char>) -> Option<Seq<Seq<char>>>;

/// Splits a line into shell words (`shlex::split`).
#[verifier::external_body]
fn split_shell_words(line: &str) -> (r: Option<Vec<String>>)
    ensures
        match r {
            Some(w) => shlex_words(line@) == Some(views(w@)),
            None => shlex_words(line@) is None,
        },
{
    shlex::split(line)
}

/// Parses one line typed at the shell prompt.
pub fn parse_shell_command(line: &str) -> (r: Result<ShellCommand, QuarkPanError>)
    ensures
        parse_agrees(r, command_of(shlex_words(line@))),
{
    let words = split_shell_words(line);
    parse_shell_words(words)
}


/// An ASCII hexadecimal digit byte.
pub open spec fn is_hex_byte(b: u8) -> bool {
    (48 <= b <= 57) || (97 <= b <= 102) || (65 <= b <= 70)
}

/// A drive file id: 32 bytes, all hexadecimal digits.
pub open spec fn quark_fid(bytes: Seq<u8>) -> bool {
    bytes.len() == 32 && forall|i: int| 0 <= i < bytes.len() ==> is_hex_byte(#[trigger] bytes[i])
}

/// Whether `value` looks like a drive file id rather than a path.
pub fn is_quark_fid(value: &str) -> (r: bool)
    ensures
        r <==> quark_fid(value.spec_bytes()),
{
    let bytes = value.as_bytes();
    if bytes.len() != 32 {
        return false;
    }
    let mut i: usize = 0;
    while i < 32
        invariant
            bytes@ == value.spec_bytes(),
            bytes@.len() == 32,
            i <= 32,
            forall|j: int| 0 <= j < i ==> is_hex_byte(#[trigger] bytes@[j]),
        decreases 32 - i,
    {
        let b = bytes[i];
        if !((48 <= b && b <= 57) || (97 <= b && b <= 102) || (65 <= b && b <= 70)) {
            return false;
        }
        i = i + 1;
    }
    true
}

/// A drive file id can be cut after its eighth byte.
pub proof fn lemma_quark_fid_prefix_boundary(fid: &str)
    requires
        quark_fid(fid.spec_bytes()),
    ensures
        is_char_boundary(fid.spec_bytes(), 8),
{
    let bytes = fid.spec_bytes();
    vstd::utf8::encode_utf8_valid_utf8(fid@);
    assert(is_hex_byte(bytes[8]));
    vstd::utf8::is_char_boundary_iff_is_leading_byte(bytes, 8);
}

/// The text of the first eight bytes of `fid`.
pub open spec fn fid_prefix(fid: &str) -> Seq<char> {
    decode_utf8(fid.spec_bytes().subrange(0, 8))
}

fn fid_head(fid: &str) -> (r: &str)
    requires
        is_char_boundary(fid.spec_bytes(), 8),
    ensures
        r@ == fid_prefix(fid),
{
    let (head, _) = fid.split_at(8);
    proof {
        vstd::utf8::encode_utf8_decode_utf8(head@);
    }
    head
}

/// The local file name used for an entry addressed by fid alone.
pub fn fid_file_name(fid: &str) -> (r: String)
    requires
        is_char_boundary(fid.spec_bytes(), 8),
    ensures
        r@ == "@fid-"@ + fid_prefix(fid),
{
    let mut r = String::new();
    r.append("@fid-");
    r.append(fid_head(fid));
    r
}

/// The remote path shown for an entry addressed by fid alone.
pub fn fid_display_path(fid: &str) -> (r: String)
    requires
        is_char_boundary(fid.spec_bytes(), 8),
    ensures
        r@ == "/@fid:"@ + fid_prefix(fid),
{
    let mut r = String::new();
    r.append("/@fid:");
    r.append(fid_head(fid));
    r
}

/// A stand-in entry for an id whose listing entry is not known.
pub fn synthetic_fid_entry(fid: &str, dir: bool) -> (r: QuarkEntry)
    requires
        is_char_boundary(fid.spec_bytes(), 8),
    ensures
        r.fid@ == fid@,
        r.file_name@ == "@fid-"@ + fid_prefix(fid),
        r.pdir_fid@.len() == 0,
        r.format_type@.len() == 0,
        r.size == 0,
        r.status == 0,
        r.created_at == 0,
        r.updated_at == 0,
        r.dir == dir,
        r.file == !dir,
{
    QuarkEntry {
        fid: owned(fid),
        file_name: fid_file_name(fid),
        pdir_fid: String::new(),
        size: 0,
        format_type: String::new(),
        status: 0,
        created_at: 0,
        updated_at: 0,
        dir,
        file: !dir,
    }
}

} // verus!
