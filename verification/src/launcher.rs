//! Launching programs: cleaning desktop `Exec` lines, the argument lists of
//! detached launches, and the decisions of launching with fallbacks.
use vstd::prelude::*;

use crate::text::{
    append_chars, append_str, chars_of, concat, contains_seq, decimal, decimal_u32, is_ws,
    occurs_at, replace_all, replace_chars, string_from, string_of, trim, trim_chars, trim_end,
    trim_start,
};

verus! {

broadcast use vstd::seq_lib::group_seq_properties;

// ---------------------------------------------------------------------------
// Exec lines
// ---------------------------------------------------------------------------

/// `value` in single quotes for a POSIX shell, each `'` written as `'\''`.
pub open spec fn shell_quote_spec(value: Seq<char>) -> Seq<char> {
    seq!['\''] + replace_all(value, seq!['\''], seq!['\'', '\\', '\'', '\'']) + seq!['\'']
}

/// `value` quoted for a POSIX shell.
pub fn shell_quote(value: &str) -> (r: String)
    ensures
        r@ == shell_quote_spec(value@),
{
    let v = chars_of(value);
    let mut quote: Vec<char> = Vec::new();
    quote.push('\'');
    let mut escaped: Vec<char> = Vec::new();
    escaped.push('\'');
    escaped.push('\\');
    escaped.push('\'');
    escaped.push('\'');
    assert(quote@ =~= seq!['\'']);
    assert(escaped@ =~= seq!['\'', '\\', '\'', '\'']);
    let inner = replace_chars(&v, &quote, &escaped);
    let mut r = quote.clone();
    append_chars(&mut r, &inner);
    append_chars(&mut r, &quote);
    string_of(&r)
}

/// `s` with every remaining field code removed: `%%` stands for a literal `%`,
/// any other `%` is dropped together with the character after it.
pub open spec fn strip_field_codes(s: Seq<char>) -> Seq<char>
    decreases s.len(),
{
    if s.len() == 0 {
        seq![]
    } else if s[0] != '%' {
        seq![s[0]] + strip_field_codes(s.drop_first())
    } else if s.len() == 1 {
        seq![]
    } else if s[1] == '%' {
        seq!['%'] + strip_field_codes(s.skip(2))
    } else {
        strip_field_codes(s.skip(2))
    }
}

/// `command` without field codes.
pub fn remove_remaining_field_codes(command: &str) -> (r: String)
    ensures
        r@ == strip_field_codes(command@),
{
    let v = chars_of(command);
    let n = v.len();
    let mut out: Vec<char> = Vec::new();
    let mut i: usize = 0;
    assert(v@.skip(0) =~= v@);
    while i < n
        invariant
            n == v.len(),
            i <= n,
            strip_field_codes(v@) == out@ + strip_field_codes(v@.skip(i as int)),
        decreases n - i,
    {
        let ghost rest = v@.skip(i as int);
        assert(rest[0] == v@[i as int]);
        if v[i] != '%' {
            assert(rest.drop_first() =~= v@.skip(i + 1));
            let ghost before = out@;
            out.push(v[i]);
            assert(before + (seq![v@[i as int]] + strip_field_codes(v@.skip(i + 1))) =~= out@
                + strip_field_codes(v@.skip(i + 1)));
            i = i + 1;
        } else if i + 1 == n {
            assert(rest.len() == 1);
            assert(v@.skip(n as int) =~= Seq::<char>::empty());
            i = i + 1;
        } else {
            assert(rest[1] == v@[i + 1]);
            assert(rest.skip(2) =~= v@.skip(i + 2));
            if v[i + 1] == '%' {
                let ghost before = out@;
                out.push('%');
                assert(before + (seq!['%'] + strip_field_codes(v@.skip(i + 2))) =~= out@
                    + strip_field_codes(v@.skip(i + 2)));
            }
            i = i + 2;
        }
    }
    assert(v@.skip(n as int) =~= Seq::<char>::empty());
    assert(out@ + Seq::<char>::empty() =~= out@);
    string_of(&out)
}

/// Text without `%` has no field codes to remove.
pub proof fn lemma_strip_field_codes_plain(s: Seq<char>)
    requires
        forall|i: int| 0 <= i < s.len() ==> s[i] != '%',
    ensures
        strip_field_codes(s) == s,
    decreases s.len(),
{
    if s.len() > 0 {
        lemma_strip_field_codes_plain(s.drop_first());
        assert(s =~= seq![s[0]] + s.drop_first());
    }
}

/// The field codes that a launch drops: files, URLs, icon and location.
pub open spec fn dropped_codes() -> Seq<Seq<char>> {
    seq![
        seq!['%', 'u'],
        seq!['%', 'U'],
        seq!['%', 'f'],
        seq!['%', 'F'],
        seq!['%', 'i'],
        seq!['%', 'k'],
    ]
}

/// `s` with the codes of `codes`, taken in order, each replaced by nothing.
pub open spec fn drop_codes(s: Seq<char>, codes: Seq<Seq<char>>) -> Seq<char>
    decreases codes.len(),
{
    if codes.len() == 0 {
        s
    } else {
        replace_all(drop_codes(s, codes.drop_last()), codes.last(), seq![])
    }
}

/// The command line that launching a desktop entry runs: its `Exec` value with
/// the file, URL, icon and location codes removed, `%c` replaced by the quoted
/// application name, other field codes removed, and the result trimmed.
pub open spec fn clean_exec_spec(exec: Seq<char>, name: Seq<char>) -> Seq<char> {
    trim(
        strip_field_codes(
            replace_all(drop_codes(exec, dropped_codes()), seq!['%', 'c'], shell_quote_spec(name)),
        ),
    )
}

/// The command line for a desktop entry's `Exec` value and name.
pub fn clean_exec_command(exec: &str, name: &str) -> (r: String)
    ensures
        r@ == clean_exec_spec(exec@, name@),
{
    let codes: [char; 6] = ['u', 'U', 'f', 'F', 'i', 'k'];
    let mut command = chars_of(exec);
    let empty: Vec<char> = Vec::new();
    for k in 0..6usize
        invariant
            codes@ == seq!['u', 'U', 'f', 'F', 'i', 'k'],
            empty@ == Seq::<char>::empty(),
            command@ == drop_codes(exec@, dropped_codes().take(k as int)),
    {
        let mut token: Vec<char> = Vec::new();
        token.push('%');
        token.push(codes[k]);
        assert(token@ =~= dropped_codes()[k as int]);
        assert(dropped_codes().take(k + 1).drop_last() =~= dropped_codes().take(k as int));
        command = replace_chars(&command, &token, &empty);
    }
    assert(dropped_codes().take(6) =~= dropped_codes());
    let quoted = shell_quote(name);
    let quoted_chars = chars_of(quoted.as_str());
    let mut c_code: Vec<char> = Vec::new();
    c_code.push('%');
    c_code.push('c');
    assert(c_code@ =~= seq!['%', 'c']);
    let replaced = replace_chars(&command, &c_code, &quoted_chars);
    let replaced_text = string_of(&replaced);
    let cleaned = remove_remaining_field_codes(replaced_text.as_str());
    let cleaned_chars = chars_of(cleaned.as_str());
    let trimmed = trim_chars(&cleaned_chars);
    string_of(&trimmed)
}

// ---------------------------------------------------------------------------
// Detached launches
// ---------------------------------------------------------------------------

/// The arguments of `sh` for running `command` as a detached shell command: the
/// command is handed to an inner shell as its first positional parameter.
pub open spec fn detached_shell_args_spec(command: Seq<char>) -> Seq<Seq<char>> {
    seq!["-c"@, "exec sh -c \"$1\""@, "piforma-shell"@, command]
}

/// The arguments of `sh` for running `command` as a detached shell command.
pub fn detached_shell_args(command: &str) -> (r: Vec<String>)
    ensures
        r.deep_view() == detached_shell_args_spec(command@),
{
    let mut r: Vec<String> = Vec::new();
    r.push(string_from("-c"));
    r.push(string_from("exec sh -c \"$1\""));
    r.push(string_from("piforma-shell"));
    r.push(string_from(command));
    assert(r.deep_view() =~= detached_shell_args_spec(command@));
    r
}

/// The environment variables that a detached launch through `systemd-run`
/// passes on to the launched program.
pub open spec fn detached_env_keys() -> Seq<Seq<char>> {
    seq!["DISPLAY"@, "XAUTHORITY"@, "WAYLAND_DISPLAY"@, "XDG_RUNTIME_DIR"@, "DBUS_SESSION_BUS_ADDRESS"@]
}

/// The environment variables that a detached launch passes on, in order.
pub fn detached_env_key_names() -> (r: Vec<&'static str>)
    ensures
        r@.map_values(|k: &str| k@) == detached_env_keys(),
{
    let mut r: Vec<&'static str> = Vec::new();
    r.push("DISPLAY");
    r.push("XAUTHORITY");
    r.push("WAYLAND_DISPLAY");
    r.push("XDG_RUNTIME_DIR");
    r.push("DBUS_SESSION_BUS_ADDRESS");
    assert(r@.map_values(|k: &str| k@) =~= detached_env_keys());
    r
}

/// The name of the transient unit of a launch by the process `pid` at the time
/// `millis` (milliseconds since the Unix epoch).
pub open spec fn launch_unit_name_spec(pid: u32, millis: u128) -> Seq<char> {
    "piforma-launch-"@ + decimal(pid as nat) + "-"@ + decimal(millis as nat)
}

/// The decimal representation of `n`.
pub fn decimal_u128(n: u128) -> (r: Vec<char>)
    ensures
        r@ == decimal(n as nat),
    decreases n,
{
    let d = (n % 10) as u8;
    let c = (d + 48) as char;
    assert(c == crate::text::digit_char((n % 10) as nat));
    if n < 10 {
        let mut r = Vec::new();
        r.push(c);
        assert(r@ =~= seq![crate::text::digit_char(n as nat)]);
        r
    } else {
        let mut r = decimal_u128(n / 10);
        r.push(c);
        r
    }
}

/// The name of the transient unit of a detached launch.
pub fn unique_launch_unit_name(pid: u32, millis: u128) -> (r: String)
    ensures
        r@ == launch_unit_name_spec(pid, millis),
{
    let mut v = chars_of("piforma-launch-");
    let p = decimal_u32(pid);
    append_chars(&mut v, &p);
    append_str(&mut v, "-");
    let m = decimal_u128(millis);
    append_chars(&mut v, &m);
    string_of(&v)
}

/// The `--setenv` arguments for the variables of `env` that are set.
pub open spec fn setenv_args(env: Seq<(Seq<char>, Option<Seq<char>>)>) -> Seq<Seq<char>>
    decreases env.len(),
{
    if env.len() == 0 {
        seq![]
    } else {
        let rest = setenv_args(env.drop_last());
        match env.last().1 {
            Some(v) => rest.push("--setenv="@ + env.last().0 + "="@ + v),
            None => rest,
        }
    }
}

/// The model of environment variables and their values, when set.
pub open spec fn env_view(env: Seq<(String, Option<String>)>) -> Seq<(Seq<char>, Option<Seq<char>>)> {
    env.map_values(
        |e: (String, Option<String>)|
            (
                e.0@,
                match e.1 {
                    Some(v) => Some(v@),
                    None => None,
                },
            ),
    )
}

/// The arguments of `systemd-run` for a detached launch of `program` with `args`
/// in the transient scope unit `unit`, passing on the variables of `env` that
/// are set.
pub open spec fn systemd_run_args_spec(
    unit: Seq<char>,
    env: Seq<(Seq<char>, Option<Seq<char>>)>,
    program: Seq<char>,
    args: Seq<Seq<char>>,
) -> Seq<Seq<char>> {
    seq!["--user"@, "--scope"@, "--collect"@, "--quiet"@, "--unit="@ + unit] + setenv_args(env)
        + seq!["--"@, program] + args
}

/// The arguments of `systemd-run` for a detached launch.
pub fn systemd_run_args(
    unit: &str,
    env: &Vec<(String, Option<String>)>,
    program: &str,
    args: &Vec<String>,
) -> (r: Vec<String>)
    ensures
        r.deep_view() == systemd_run_args_spec(unit@, env_view(env@), program@, args.deep_view()),
{
    let mut r: Vec<String> = Vec::new();
    r.push(string_from("--user"));
    r.push(string_from("--scope"));
    r.push(string_from("--collect"));
    r.push(string_from("--quiet"));
    let mut u = chars_of("--unit=");
    append_str(&mut u, unit);
    r.push(string_of(&u));
    let ghost head = seq!["--user"@, "--scope"@, "--collect"@, "--quiet"@, "--unit="@ + unit@];
    assert(r.deep_view() =~= head);
    let ghost ev = env_view(env@);
    for i in 0..env.len()
        invariant
            ev == env_view(env@),
            r.deep_view() == head + setenv_args(ev.take(i as int)),
    {
        assert(ev.take(i + 1).drop_last() =~= ev.take(i as int));
        match &env[i].1 {
            Some(v) => {
                let mut a = chars_of("--setenv=");
                append_str(&mut a, env[i].0.as_str());
                append_str(&mut a, "=");
                append_str(&mut a, v.as_str());
                let ghost before = r.deep_view();
                let ghost av = a@;
                r.push(string_of(&a));
                assert(r.deep_view() =~= before.push(av));
            },
            None => {},
        }
    }
    assert(ev.take(env.len() as int) =~= ev);
    let ghost mid = r.deep_view();
    r.push(string_from("--"));
    r.push(string_from(program));
    assert(r.deep_view() =~= mid + seq!["--"@, program@]);
    let ghost mid2 = r.deep_view();
    for i in 0..args.len()
        invariant
            r.deep_view() == mid2 + args.deep_view().take(i as int),
    {
        let ghost before = r.deep_view();
        r.push(args[i].clone());
        assert(r.deep_view() =~= before.push(args@[i as int]@));
        assert(args.deep_view().take(i + 1) =~= args.deep_view().take(i as int).push(
            args@[i as int]@,
        ));
    }
    assert(args.deep_view().take(args.len() as int) =~= args.deep_view());
    r
}

/// The arguments of `setsid` for a detached launch of `program` with `args`.
pub open spec fn setsid_args_spec(program: Seq<char>, args: Seq<Seq<char>>) -> Seq<Seq<char>> {
    seq!["-f"@, "--"@, program] + args
}

/// The arguments of `setsid` for a detached launch.
pub fn setsid_args(program: &str, args: &Vec<String>) -> (r: Vec<String>)
    ensures
        r.deep_view() == setsid_args_spec(program@, args.deep_view()),
{
    let mut r: Vec<String> = Vec::new();
    r.push(string_from("-f"));
    r.push(string_from("--"));
    r.push(string_from(program));
    let ghost head = seq!["-f"@, "--"@, program@];
    assert(r.deep_view() =~= head);
    for i in 0..args.len()
        invariant
            r.deep_view() == head + args.deep_view().take(i as int),
    {
        let ghost before = r.deep_view();
        r.push(args[i].clone());
        assert(r.deep_view() =~= before.push(args@[i as int]@));
        assert(args.deep_view().take(i + 1) =~= args.deep_view().take(i as int).push(
            args@[i as int]@,
        ));
    }
    assert(args.deep_view().take(args.len() as int) =~= args.deep_view());
    r
}

/// The error of a launch that could not start `program`.
pub fn launch_failure_message(program: &str, err: &str) -> (r: String)
    ensures
        r@ == "failed to launch "@ + program@ + ": "@ + err@,
{
    let mut v = chars_of("failed to launch ");
    append_str(&mut v, program);
    append_str(&mut v, ": ");
    append_str(&mut v, err);
    string_of(&v)
}

// ---------------------------------------------------------------------------
// The detached launch
// ---------------------------------------------------------------------------

/// What a detached launch does next. It tries `systemd-run`, then `setsid`,
/// then the program itself, and stops at the first start that succeeds.
#[derive(Debug)]
pub enum LaunchStep {
    /// Start `systemd-run` with these arguments, if it is on the `PATH`.
    SystemdRun(Vec<String>),
    /// Start `setsid` with these arguments, if it is on the `PATH`.
    Setsid(Vec<String>),
    /// Start the program itself with its arguments.
    Direct,
    /// Stop with this outcome.
    Done(Result<(), String>),
}

/// What became of one start of a detached launch.
#[derive(Debug, Clone)]
pub enum SpawnOutcome {
    /// The launcher program is not on the `PATH`; it was not started.
    NotOnPath,
    /// The process started.
    Spawned,
    /// Starting the process failed; the text is the system's error.
    Failed(String),
}

/// Starts a detached launch of `program` with `args` by the process `pid` at the
/// time `millis`, passing on the values of `env` that are set: `systemd-run`
/// comes first, in its own transient scope unit.
pub fn launch_start(
    pid: u32,
    millis: u128,
    env: &Vec<(String, Option<String>)>,
    program: &str,
    args: &Vec<String>,
) -> (r: LaunchStep)
    ensures
        r matches LaunchStep::SystemdRun(a) && a.deep_view() == systemd_run_args_spec(
            launch_unit_name_spec(pid, millis),
            env_view(env@),
            program@,
            args.deep_view(),
        ),
{
    let unit = unique_launch_unit_name(pid, millis);
    LaunchStep::SystemdRun(systemd_run_args(unit.as_str(), env, program, args))
}

/// Takes what became of the start that `step` asked for: a started process ends
/// the launch successfully; when `systemd-run` is not on the `PATH` or fails,
/// `setsid` is next; when `setsid` is not on the `PATH` or fails, the program
/// itself is started; when that fails, the launch fails with
/// `failed to launch <program>: <error>`.
pub fn launch_step(step: &LaunchStep, outcome: SpawnOutcome, program: &str, args: &Vec<String>) -> (r:
    LaunchStep)
    requires
        !(step is Done),
        !(step is Direct && outcome is NotOnPath),
    ensures
        outcome is Spawned ==> r matches LaunchStep::Done(Ok(())),
        !(outcome is Spawned) && step is SystemdRun ==> (r matches LaunchStep::Setsid(a)
            && a.deep_view() == setsid_args_spec(program@, args.deep_view())),
        !(outcome is Spawned) && step is Setsid ==> r is Direct,
        step is Direct ==> (outcome matches SpawnOutcome::Failed(e) ==> (r matches LaunchStep::Done(
            Err(m),
        ) && m@ == "failed to launch "@ + program@ + ": "@ + e@)),
{
    match outcome {
        SpawnOutcome::Spawned => LaunchStep::Done(Ok(())),
        SpawnOutcome::NotOnPath => match step {
            LaunchStep::SystemdRun(_) => LaunchStep::Setsid(setsid_args(program, args)),
            _ => LaunchStep::Direct,
        },
        SpawnOutcome::Failed(e) => match step {
            LaunchStep::SystemdRun(_) => LaunchStep::Setsid(setsid_args(program, args)),
            LaunchStep::Setsid(_) => LaunchStep::Direct,
            _ => LaunchStep::Done(Err(launch_failure_message(program, e.as_str()))),
        },
    }
}

// ---------------------------------------------------------------------------
// Launching with fallbacks
// ---------------------------------------------------------------------------

/// `list` joined with `sep` between consecutive items (`[String]::join`).
pub open spec fn join_spec(list: Seq<Seq<char>>, sep: Seq<char>) -> Seq<char>
    decreases list.len(),
{
    if list.len() == 0 {
        seq![]
    } else if list.len() == 1 {
        list[0]
    } else {
        join_spec(list.drop_last(), sep) + sep + list.last()
    }
}

/// `list` joined with `sep` between consecutive items.
pub fn join_strings(list: &Vec<String>, sep: &str) -> (r: String)
    ensures
        r@ == join_spec(list.deep_view(), sep@),
{
    let ghost lv = list.deep_view();
    let mut out: Vec<char> = Vec::new();
    for i in 0..list.len()
        invariant
            lv == list.deep_view(),
            out@ == join_spec(lv.take(i as int), sep@),
    {
        assert(lv.take(i + 1).drop_last() =~= lv.take(i as int));
        assert(lv.take(i + 1).last() == list@[i as int]@);
        if i > 0 {
            append_str(&mut out, sep);
        } else {
            assert(out@ =~= Seq::<char>::empty());
        }
        append_str(&mut out, list[i].as_str());
        if i == 0 {
            assert(lv.take(1) =~= seq![list@[0]@]);
            assert(out@ =~= list@[0]@);
        }
    }
    assert(lv.take(list.len() as int) =~= lv);
    string_of(&out)
}

/// What became of one attempt of a launch with fallbacks.
#[derive(Debug, Clone)]
pub enum AttemptResult {
    /// The program started, or ran and succeeded.
    Succeeded,
    /// The program is not installed.
    NotFound,
    /// The attempt failed with the given, complete message.
    Failed(String),
    /// The program could not be started; the text is the system's error.
    CouldNotRun(String),
    /// The program ran and failed; the text describes its exit status.
    ExitedWith(String),
}

/// The model of an attempt's result: `0` success, `1` not found, `2` failed,
/// `3` could not run, `4` exited with a failure status, with its text.
pub open spec fn attempt_view(a: AttemptResult) -> (int, Seq<char>) {
    match a {
        AttemptResult::Succeeded => (0, seq![]),
        AttemptResult::NotFound => (1, seq![]),
        AttemptResult::Failed(t) => (2, t@),
        AttemptResult::CouldNotRun(t) => (3, t@),
        AttemptResult::ExitedWith(t) => (4, t@),
    }
}

/// The message recorded for a failed attempt of `command`.
pub open spec fn attempt_message(command: Seq<Seq<char>>, kind: int, text: Seq<char>) -> Seq<char> {
    if kind == 1 {
        command[0] + " not found"@
    } else if kind == 2 {
        text
    } else if kind == 3 {
        join_spec(command, " "@) + ": "@ + text
    } else {
        join_spec(command, " "@) + " exited with status "@ + text
    }
}

/// The model of a list of commands.
pub open spec fn commands_view(commands: Seq<Vec<String>>) -> Seq<Seq<Seq<char>>> {
    commands.map_values(|c: Vec<String>| c.deep_view())
}

/// The first non-empty command at or after `from`, or the number of commands
/// when there is none.
pub open spec fn next_command(commands: Seq<Seq<Seq<char>>>, from: int) -> int
    decreases commands.len() - from,
{
    if from >= commands.len() {
        commands.len() as int
    } else if commands[from].len() > 0 {
        from
    } else {
        next_command(commands, from + 1)
    }
}

/// The state of a launch with fallbacks: the messages of the failed attempts.
#[derive(Debug, Clone)]
pub struct FallbackState {
    pub errors: Vec<String>,
}

/// What a launch with fallbacks does next.
#[derive(Debug)]
pub enum FallbackAction {
    /// Attempt the command at this index.
    Attempt(usize),
    /// Stop with this result.
    Finish(Result<(), String>),
}

/// The action after the failures `errors`, looking for a command from `from`:
/// attempt the next non-empty command, or fail with all messages joined by `; `.
pub open spec fn action_from(
    commands: Seq<Seq<Seq<char>>>,
    from: int,
    errors: Seq<Seq<char>>,
) -> (int, Seq<char>) {
    let next = next_command(commands, from);
    if next < commands.len() {
        (next, seq![])
    } else {
        (-1, join_spec(errors, "; "@))
    }
}

/// The model of an action: the command to attempt, or `-1` with the message of
/// the failure; `-2` for success.
pub open spec fn fallback_action_view(a: FallbackAction) -> (int, Seq<char>) {
    match a {
        FallbackAction::Attempt(i) => (i as int, seq![]),
        FallbackAction::Finish(Ok(())) => (-2, seq![]),
        FallbackAction::Finish(Err(e)) => (-1, e@),
    }
}

/// The action after the failures `errors`, looking for a command from `from`.
fn next_action(commands: &Vec<Vec<String>>, from: usize, errors: &Vec<String>) -> (r:
    FallbackAction)
    requires
        from <= commands.len(),
    ensures
        fallback_action_view(r) == action_from(
            commands_view(commands@),
            from as int,
            errors.deep_view(),
        ),
{
    let ghost cv = commands_view(commands@);
    let mut i = from;
    while i < commands.len() && commands[i].len() == 0
        invariant
            from <= i <= commands.len(),
            cv == commands_view(commands@),
            next_command(cv, from as int) == next_command(cv, i as int),
        decreases commands.len() - i,
    {
        assert(cv[i as int].len() == commands@[i as int]@.len());
        i = i + 1;
    }
    if i < commands.len() {
        assert(cv[i as int].len() == commands@[i as int]@.len());
        FallbackAction::Attempt(i)
    } else {
        FallbackAction::Finish(Err(join_strings(errors, "; ")))
    }
}

/// Starts a launch that tries `commands` in order until one succeeds; empty
/// commands are skipped.
pub fn fallback_start(commands: &Vec<Vec<String>>) -> (r: (FallbackState, FallbackAction))
    ensures
        r.0.errors.deep_view() == Seq::<Seq<char>>::empty(),
        fallback_action_view(r.1) == action_from(commands_view(commands@), 0, seq![]),
{
    let errors: Vec<String> = Vec::new();
    assert(errors.deep_view() =~= Seq::<Seq<char>>::empty());
    let a = next_action(commands, 0, &errors);
    (FallbackState { errors }, a)
}

/// The message recorded for a failed attempt of `command`.
fn failure_message(command: &Vec<String>, result: AttemptResult) -> (r: String)
    requires
        command.len() > 0,
        attempt_view(result).0 != 0,
    ensures
        r@ == attempt_message(command.deep_view(), attempt_view(result).0, attempt_view(result).1),
{
    match result {
        AttemptResult::Succeeded => string_from(""),
        AttemptResult::NotFound => {
            let mut v = chars_of(command[0].as_str());
            append_str(&mut v, " not found");
            string_of(&v)
        },
        AttemptResult::Failed(t) => t,
        AttemptResult::CouldNotRun(t) => {
            let joined = join_strings(command, " ");
            let mut v = chars_of(joined.as_str());
            append_str(&mut v, ": ");
            append_str(&mut v, t.as_str());
            string_of(&v)
        },
        AttemptResult::ExitedWith(t) => {
            let joined = join_strings(command, " ");
            let mut v = chars_of(joined.as_str());
            append_str(&mut v, " exited with status ");
            append_str(&mut v, t.as_str());
            string_of(&v)
        },
    }
}

/// Takes the result of attempting the command at `attempted`: a success finishes
/// the launch successfully; a failure is recorded and the launch moves on to the
/// next non-empty command, or fails with all recorded messages joined by `; `.
pub fn fallback_step(
    commands: &Vec<Vec<String>>,
    state: FallbackState,
    attempted: usize,
    result: AttemptResult,
) -> (r: (FallbackState, FallbackAction))
    requires
        attempted < commands.len(),
        commands@[attempted as int].len() > 0,
    ensures
        attempt_view(result).0 == 0 ==> fallback_action_view(r.1) == (-2int, Seq::<char>::empty())
            && r.0.errors.deep_view() == state.errors.deep_view(),
        attempt_view(result).0 != 0 ==> ({
            let errors = state.errors.deep_view().push(
                attempt_message(
                    commands@[attempted as int].deep_view(),
                    attempt_view(result).0,
                    attempt_view(result).1,
                ),
            );
            &&& r.0.errors.deep_view() == errors
            &&& fallback_action_view(r.1) == action_from(
                commands_view(commands@),
                attempted + 1,
                errors,
            )
        }),
{
    match result {
        AttemptResult::Succeeded => (state, FallbackAction::Finish(Ok(()))),
        _ => {
            let msg = failure_message(&commands[attempted], result);
            let mut errors = state.errors;
            let ghost before = errors.deep_view();
            let ghost mv = msg@;
            errors.push(msg);
            assert(errors.deep_view() =~= before.push(mv));
            let a = next_action(commands, attempted + 1, &errors);
            (FallbackState { errors }, a)
        },
    }
}

/// Replacing a pattern whose first character does not occur leaves text as it is.
pub proof fn lemma_replace_absent(s: Seq<char>, pat: Seq<char>, rep: Seq<char>)
    requires
        pat.len() > 0,
        forall|i: int| 0 <= i < s.len() ==> s[i] != pat[0],
    ensures
        replace_all(s, pat, rep) == s,
    decreases s.len(),
{
    if s.len() >= pat.len() {
        assert(s.take(pat.len() as int)[0] != pat[0]);
        lemma_replace_absent(s.drop_first(), pat, rep);
        assert(s =~= seq![s[0]] + s.drop_first());
    }
}

/// Dropping codes from text without `%` leaves it as it is.
proof fn lemma_drop_codes_absent(s: Seq<char>, codes: Seq<Seq<char>>)
    requires
        forall|i: int| 0 <= i < s.len() ==> s[i] != '%',
        forall|k: int| 0 <= k < codes.len() ==> (#[trigger] codes[k]).len() > 0 && codes[k][0] == '%',
    ensures
        drop_codes(s, codes) == s,
    decreases codes.len(),
{
    if codes.len() > 0 {
        lemma_drop_codes_absent(s, codes.drop_last());
        lemma_replace_absent(s, codes.last(), seq![]);
    }
}

/// An `Exec` line without field codes runs as it is, trimmed.
pub proof fn lemma_clean_exec_plain(exec: Seq<char>, name: Seq<char>)
    requires
        forall|i: int| 0 <= i < exec.len() ==> exec[i] != '%',
    ensures
        clean_exec_spec(exec, name) == trim(exec),
{
    assert forall|k: int| 0 <= k < dropped_codes().len() implies (#[trigger] dropped_codes()[k]).len() > 0
        && dropped_codes()[k][0] == '%' by {}
    lemma_drop_codes_absent(exec, dropped_codes());
    lemma_replace_absent(exec, seq!['%', 'c'], shell_quote_spec(name));
    lemma_strip_field_codes_plain(exec);
}

/// Replacing a pattern that does not occur leaves text as it is.
proof fn lemma_replace_not_occurring(s: Seq<char>, pat: Seq<char>, rep: Seq<char>)
    requires
        pat.len() > 0,
        !contains_seq(s, pat),
    ensures
        replace_all(s, pat, rep) == s,
    decreases s.len(),
{
    if s.len() >= pat.len() {
        assert(!occurs_at(s, pat, 0));
        assert(s.subrange(0, pat.len() as int) =~= s.take(pat.len() as int));
        let t = s.drop_first();
        assert(!contains_seq(t, pat)) by {
            if contains_seq(t, pat) {
                let i = choose|i: int| occurs_at(t, pat, i);
                assert(t.subrange(i, i + pat.len()) =~= s.subrange(i + 1, i + 1 + pat.len()));
                assert(occurs_at(s, pat, i + 1));
            }
        }
        lemma_replace_not_occurring(t, pat, rep);
        assert(s =~= seq![s[0]] + t);
    }
}

/// Replacing a pattern that ends the text, and whose first character does not
/// occur before it, replaces just that occurrence.
proof fn lemma_replace_at_end(prefix: Seq<char>, pat: Seq<char>, rep: Seq<char>)
    requires
        pat.len() > 0,
        forall|i: int| 0 <= i < prefix.len() ==> prefix[i] != pat[0],
    ensures
        replace_all(prefix + pat, pat, rep) == prefix + rep,
    decreases prefix.len(),
{
    let s = prefix + pat;
    if prefix.len() == 0 {
        assert(s =~= pat);
        assert(s.take(pat.len() as int) =~= pat);
        assert(s.skip(pat.len() as int) =~= Seq::<char>::empty());
        assert(replace_all(Seq::<char>::empty(), pat, rep) == Seq::<char>::empty());
        assert(replace_all(s, pat, rep) == rep + replace_all(s.skip(pat.len() as int), pat, rep));
        assert(rep + Seq::<char>::empty() =~= prefix + rep);
    } else {
        assert(s.take(pat.len() as int)[0] == prefix[0]);
        assert(prefix[0] != pat[0]);
        assert(s.take(pat.len() as int) != pat);
        assert(s.len() >= pat.len());
        let p2 = prefix.drop_first();
        assert forall|i: int| 0 <= i < p2.len() implies p2[i] != pat[0] by {
            assert(p2[i] == prefix[i + 1]);
        }
        assert(s.drop_first() =~= p2 + pat);
        lemma_replace_at_end(p2, pat, rep);
        assert(replace_all(s, pat, rep) == seq![s[0]] + replace_all(s.drop_first(), pat, rep));
        assert(seq![s[0]] + (p2 + rep) =~= prefix + rep);
    }
}

/// A character that occurs neither in the text nor in the replacement does not
/// occur in the result.
proof fn lemma_replace_keeps_absent(s: Seq<char>, pat: Seq<char>, rep: Seq<char>, c: char)
    requires
        forall|i: int| 0 <= i < s.len() ==> s[i] != c,
        forall|i: int| 0 <= i < rep.len() ==> rep[i] != c,
    ensures
        forall|i: int|
            0 <= i < replace_all(s, pat, rep).len() ==> replace_all(s, pat, rep)[i] != c,
    decreases s.len(),
{
    if pat.len() == 0 || s.len() < pat.len() {
    } else if s.take(pat.len() as int) == pat {
        let t = s.skip(pat.len() as int);
        lemma_replace_keeps_absent(t, pat, rep, c);
        let r = replace_all(t, pat, rep);
        assert forall|i: int| 0 <= i < (rep + r).len() implies (rep + r)[i] != c by {
            if i >= rep.len() {
                assert((rep + r)[i] == r[i - rep.len()]);
            }
        }
    } else {
        let t = s.drop_first();
        lemma_replace_keeps_absent(t, pat, rep, c);
        let r = replace_all(t, pat, rep);
        assert forall|i: int| 0 <= i < (seq![s[0]] + r).len() implies (seq![s[0]] + r)[i] != c by {
            if i >= 1 {
                assert((seq![s[0]] + r)[i] == r[i - 1]);
            }
        }
    }
}

/// Dropping codes that do not occur leaves text as it is.
proof fn lemma_drop_codes_not_occurring(s: Seq<char>, codes: Seq<Seq<char>>)
    requires
        forall|k: int|
            0 <= k < codes.len() ==> (#[trigger] codes[k]).len() > 0 && !contains_seq(s, codes[k]),
    ensures
        drop_codes(s, codes) == s,
    decreases codes.len(),
{
    if codes.len() > 0 {
        lemma_drop_codes_not_occurring(s, codes.drop_last());
        assert(codes.last() == codes[codes.len() - 1]);
        lemma_replace_not_occurring(s, codes.last(), seq![]);
    }
}

/// `%c` in an `Exec` line stands for the application name quoted as one shell
/// word: a line of a prefix and `%c`, where neither the prefix nor the name holds
/// a `%` and the prefix does not start with white space, runs as the prefix
/// followed by the quoted name.
pub proof fn lemma_clean_exec_name(prefix: Seq<char>, name: Seq<char>)
    requires
        prefix.len() > 0,
        !is_ws(prefix[0]),
        forall|i: int| 0 <= i < prefix.len() ==> prefix[i] != '%',
        forall|i: int| 0 <= i < name.len() ==> name[i] != '%',
    ensures
        clean_exec_spec(prefix + seq!['%', 'c'], name) == prefix + shell_quote_spec(name),
{
    let s = prefix + seq!['%', 'c'];
    let codes = dropped_codes();
    assert forall|k: int| 0 <= k < codes.len() implies (#[trigger] codes[k]).len() > 0
        && !contains_seq(s, codes[k]) by {
        assert(codes[k].len() == 2 && codes[k][0] == '%' && codes[k][1] != 'c');
        if contains_seq(s, codes[k]) {
            let i = choose|i: int| occurs_at(s, codes[k], i);
            assert(s.subrange(i, i + 2)[0] == s[i]);
            assert(s.subrange(i, i + 2)[1] == s[i + 1]);
            assert(s[i] == '%');
            if i < prefix.len() {
                assert(s[i] == prefix[i]);
            }
            assert(i == prefix.len());
            assert(s[i + 1] == 'c');
        }
    }
    lemma_drop_codes_not_occurring(s, codes);
    let q = shell_quote_spec(name);
    lemma_replace_at_end(prefix, seq!['%', 'c'], q);
    let quote = seq!['\''];
    let escaped = seq!['\'', '\\', '\'', '\''];
    lemma_replace_keeps_absent(name, quote, escaped, '%');
    let inner = replace_all(name, quote, escaped);
    assert forall|i: int| 0 <= i < q.len() implies q[i] != '%' by {
        assert(q =~= quote + inner + quote);
        if 1 <= i < 1 + inner.len() {
            assert(q[i] == inner[i - 1]);
        }
    }
    let t = prefix + q;
    assert forall|i: int| 0 <= i < t.len() implies t[i] != '%' by {
        if i >= prefix.len() {
            assert(t[i] == q[i - prefix.len()]);
        }
    }
    lemma_strip_field_codes_plain(t);
    assert(t[0] == prefix[0]);
    assert(trim_start(t) == t);
    assert(t.last() == '\'');
    assert(!is_ws('\''));
    assert(trim_end(t) == t);
}

} // verus!
