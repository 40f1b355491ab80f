//! The command line: its flags, the `--min-free` size grammar, and the
//! parser that turns the arguments into [`Args`].
use vstd::prelude::*;
use crate::options::{Options, Fallback, DEFAULT_MIN_FREE_BYTES};
use crate::text::{
    chars_of, str_eq, starts_with_chars, push_char, parse_u64, parse_unsigned, has_prefix,
};

verus! {

/// The parsed command line.
#[derive(Debug)]
pub struct Args {
    pub verbose: bool,
    pub dry_run: bool,
    pub quiet: bool,
    pub json: bool,
    pub allow_copy: bool,
    pub keep_failed: bool,
    pub sweep: bool,
    pub measure: bool,
    pub min_free: Option<u64>,
    pub paths: Vec<String>,
}

/// The plain-value model of [`Args`].
pub struct ArgsModel {
    pub verbose: bool,
    pub dry_run: bool,
    pub quiet: bool,
    pub json: bool,
    pub allow_copy: bool,
    pub keep_failed: bool,
    pub sweep: bool,
    pub measure: bool,
    pub min_free: Option<u64>,
    pub paths: Seq<Seq<char>>,
}

/// The characters of each string of a sequence.
pub open spec fn string_views(v: Seq<String>) -> Seq<Seq<char>> {
    v.map_values(|s: String| s@)
}

impl View for Args {
    type V = ArgsModel;

    open spec fn view(&self) -> ArgsModel {
        ArgsModel {
            verbose: self.verbose,
            dry_run: self.dry_run,
            quiet: self.quiet,
            json: self.json,
            allow_copy: self.allow_copy,
            keep_failed: self.keep_failed,
            sweep: self.sweep,
            measure: self.measure,
            min_free: self.min_free,
            paths: string_views(self.paths@),
        }
    }
}

/// A boolean switch of the command line.
pub enum Flag {
    Verbose,
    DryRun,
    Quiet,
    Json,
    AllowCopy,
    KeepFailed,
    Sweep,
    Measure,
}

/// The command line before any argument: every switch off, no size, no path.
pub open spec fn no_args() -> ArgsModel {
    ArgsModel {
        verbose: false,
        dry_run: false,
        quiet: false,
        json: false,
        allow_copy: false,
        keep_failed: false,
        sweep: false,
        measure: false,
        min_free: None,
        paths: seq![],
    }
}

/// `a` with the switch `f` on.
pub open spec fn set_flag(a: ArgsModel, f: Flag) -> ArgsModel {
    match f {
        Flag::Verbose => ArgsModel { verbose: true, ..a },
        Flag::DryRun => ArgsModel { dry_run: true, ..a },
        Flag::Quiet => ArgsModel { quiet: true, ..a },
        Flag::Json => ArgsModel { json: true, ..a },
        Flag::AllowCopy => ArgsModel { allow_copy: true, ..a },
        Flag::KeepFailed => ArgsModel { keep_failed: true, ..a },
        Flag::Sweep => ArgsModel { sweep: true, ..a },
        Flag::Measure => ArgsModel { measure: true, ..a },
    }
}

/// The switch an argument names on its own.
pub open spec fn switch_of(arg: Seq<char>) -> Option<Flag> {
    if arg == "-v"@ || arg == "--verbose"@ {
        Some(Flag::Verbose)
    } else if arg == "-n"@ || arg == "--dry-run"@ {
        Some(Flag::DryRun)
    } else if arg == "-q"@ || arg == "--quiet"@ {
        Some(Flag::Quiet)
    } else if arg == "--json"@ {
        Some(Flag::Json)
    } else if arg == "--allow-copy"@ {
        Some(Flag::AllowCopy)
    } else if arg == "--keep-failed"@ {
        Some(Flag::KeepFailed)
    } else if arg == "--sweep"@ {
        Some(Flag::Sweep)
    } else if arg == "--measure"@ {
        Some(Flag::Measure)
    } else {
        None
    }
}

/// The switch a letter names inside combined short flags such as `-vn`.
pub open spec fn short_switch(c: char) -> Option<Flag> {
    if c == 'v' {
        Some(Flag::Verbose)
    } else if c == 'n' {
        Some(Flag::DryRun)
    } else if c == 'q' {
        Some(Flag::Quiet)
    } else {
        None
    }
}

/// Why `--force` is refused.
pub open spec fn force_removed() -> Seq<char> {
    "--force was removed: clonedir never overwrites or merges into an existing destination; remove it yourself or choose a new path"@
}

/// The letters of combined short flags, applied in order to `acc`.
pub open spec fn apply_short_flags(letters: Seq<char>, acc: ArgsModel) -> Result<
    ArgsModel,
    Seq<char>,
>
    decreases letters.len(),
{
    if letters.len() == 0 {
        Ok(acc)
    } else {
        let c = letters[0];
        if c == 'f' {
            Err(force_removed())
        } else {
            match short_switch(c) {
                Some(f) => apply_short_flags(letters.drop_first(), set_flag(acc, f)),
                None => Err("unknown option: -"@.push(c)),
            }
        }
    }
}

/// Whether an argument is an option rather than a path: it starts with `-`
/// and is not `-` itself.
pub open spec fn is_option(arg: Seq<char>) -> bool {
    arg.len() > 0 && arg[0] == '-' && arg != "-"@
}

/// The command line from argument `i` on, given what the arguments before it
/// gave (`acc`) and whether `--` has ended the options.
pub open spec fn parse_from(argv: Seq<Seq<char>>, i: int, acc: ArgsModel, only_paths: bool) -> Result<
    ArgsModel,
    Seq<char>,
>
    decreases argv.len() - i,
{
    if i < 0 || i >= argv.len() {
        Ok(acc)
    } else {
        let arg = argv[i];
        if only_paths || !is_option(arg) {
            parse_from(argv, i + 1, ArgsModel { paths: acc.paths.push(arg), ..acc }, only_paths)
        } else if arg == "--"@ {
            parse_from(argv, i + 1, acc, true)
        } else if switch_of(arg) is Some {
            parse_from(argv, i + 1, set_flag(acc, switch_of(arg)->0), only_paths)
        } else if arg == "--min-free"@ {
            if i + 1 >= argv.len() {
                Err("--min-free needs a size"@)
            } else {
                match size_value(argv[i + 1]) {
                    Some(n) => parse_from(
                        argv,
                        i + 2,
                        ArgsModel { min_free: Some(n), ..acc },
                        only_paths,
                    ),
                    None => Err("invalid size: "@ + argv[i + 1]),
                }
            }
        } else if arg == "-f"@ || arg == "--force"@ {
            Err(force_removed())
        } else if !has_prefix(arg, "--"@) && arg.len() > 2 {
            match apply_short_flags(arg.drop_first(), acc) {
                Ok(a) => parse_from(argv, i + 1, a, only_paths),
                Err(e) => Err(e),
            }
        } else {
            Err("unknown option: "@ + arg)
        }
    }
}

/// What the whole command line `argv` gives: the parsed arguments, or the
/// message of the first argument that is refused.
pub open spec fn parse_args(argv: Seq<Seq<char>>) -> Result<ArgsModel, Seq<char>> {
    parse_from(argv, 0, no_args(), false)
}

/// The factor a size suffix stands for: `K`, `M` and `G` (either case) for
/// 2^10, 2^20 and 2^30; 1 for anything else.
pub open spec fn suffix_factor(c: char) -> nat {
    if c == 'K' || c == 'k' {
        1024
    } else if c == 'M' || c == 'm' {
        1048576
    } else if c == 'G' || c == 'g' {
        1073741824
    } else {
        1
    }
}

/// Whether `c` is one of the size suffixes.
pub open spec fn is_suffix(c: char) -> bool {
    suffix_factor(c) != 1
}

/// The byte count a `--min-free` value denotes: an unsigned numeral with an
/// optional suffix, when the product fits in a `u64`.
pub open spec fn size_value(t: Seq<char>) -> Option<u64> {
    if t.len() == 0 {
        None
    } else {
        let digits = if is_suffix(t.last()) {
            t.drop_last()
        } else {
            t
        };
        match parse_unsigned(digits, u64::MAX as nat) {
            Some(n) => if n * suffix_factor(t.last()) <= u64::MAX {
                Some((n * suffix_factor(t.last())) as u64)
            } else {
                None
            },
            None => None,
        }
    }
}

/// Parses a `--min-free` size such as `256M`.
pub fn parse_size(text: &str) -> (r: Option<u64>)
    ensures
        r == size_value(text@),
{
    let mut cs = chars_of(text);
    if cs.len() == 0 {
        return None;
    }
    let last = cs[cs.len() - 1];
    let factor: u64 = if last == 'K' || last == 'k' {
        1024
    } else if last == 'M' || last == 'm' {
        1048576
    } else if last == 'G' || last == 'g' {
        1073741824
    } else {
        1
    };
    if factor != 1 {
        cs.pop();
        assert(cs@ =~= text@.drop_last());
    }
    match parse_u64(&cs) {
        Some(n) => {
            let r = n.checked_mul(factor);
            proof {
                if r is Some {
                    assert(r == Some((n * suffix_factor(text@.last())) as u64));
                }
            }
            r
        },
        None => None,
    }
}

/// An owned copy of a string literal's text.
fn owned(s: &str) -> (r: String)
    ensures
        r@ == s@,
{
    s.to_owned()
}

/// `prefix` followed by `rest`.
fn joined(prefix: &str, rest: &str) -> (r: String)
    ensures
        r@ == prefix@ + rest@,
{
    let mut s = prefix.to_owned();
    s.append(rest);
    s
}

/// Parses the command line (without the program name).
pub fn parse(argv: &[String]) -> (r: Result<Args, String>)
    ensures
        match parse_args(string_views(argv@)) {
            Ok(a) => r matches Ok(args) && args@ == a,
            Err(e) => r matches Err(m) && m@ == e,
        },
{
    let ghost views = string_views(argv@);
    let mut args = Args {
        verbose: false,
        dry_run: false,
        quiet: false,
        json: false,
        allow_copy: false,
        keep_failed: false,
        sweep: false,
        measure: false,
        min_free: None,
        paths: Vec::new(),
    };
    let mut only_paths = false;
    let mut i: usize = 0;
    assert(args@.paths =~= seq![]);
    while i < argv.len()
        invariant
            i <= argv@.len(),
            views == string_views(argv@),
            parse_args(views) == parse_from(views, i as int, args@, only_paths),
        decreases argv@.len() - i,
    {
        let arg: &str = argv[i].as_str();
        let cs = chars_of(arg);
        assert(views[i as int] == arg@);
        let is_opt = cs.len() > 0 && cs[0] == '-' && !str_eq(arg, "-");
        if only_paths || !is_opt {
            let ghost before = args@;
            args.paths.push(argv[i].clone());
            assert(args@.paths =~= before.paths.push(arg@));
            i = i + 1;
            continue;
        }
        if str_eq(arg, "--") {
            only_paths = true;
            i = i + 1;
            continue;
        }
        if str_eq(arg, "-v") || str_eq(arg, "--verbose") {
            args.verbose = true;
        } else if str_eq(arg, "-n") || str_eq(arg, "--dry-run") {
            args.dry_run = true;
        } else if str_eq(arg, "-q") || str_eq(arg, "--quiet") {
            args.quiet = true;
        } else if str_eq(arg, "--json") {
            args.json = true;
        } else if str_eq(arg, "--allow-copy") {
            args.allow_copy = true;
        } else if str_eq(arg, "--keep-failed") {
            args.keep_failed = true;
        } else if str_eq(arg, "--sweep") {
            args.sweep = true;
        } else if str_eq(arg, "--measure") {
            args.measure = true;
        } else if str_eq(arg, "--min-free") {
            if i + 1 >= argv.len() {
                return Err(owned("--min-free needs a size"));
            }
            let value: &str = argv[i + 1].as_str();
            assert(views[i + 1] == value@);
            match parse_size(value) {
                Some(n) => {
                    args.min_free = Some(n);
                    i = i + 2;
                    continue;
                },
                None => {
                    return Err(joined("invalid size: ", value));
                },
            }
        } else if str_eq(arg, "-f") || str_eq(arg, "--force") {
            return Err(owned(
                "--force was removed: clonedir never overwrites or merges into an existing destination; remove it yourself or choose a new path",
            ));
        } else if !starts_with_chars(&cs, &chars_of("--")) && cs.len() > 2 {
            let mut j: usize = 1;
            assert(cs@.skip(1) =~= arg@.drop_first());
            while j < cs.len()
                invariant
                    1 <= j <= cs@.len(),
                    cs@ == arg@,
                    i < argv@.len(),
                    views == string_views(argv@),
                    parse_args(views) == match apply_short_flags(cs@.skip(j as int), args@) {
                        Ok(a) => parse_from(views, i + 1, a, only_paths),
                        Err(e) => Err(e),
                    },
                decreases cs@.len() - j,
            {
                let c = cs[j];
                assert(cs@.skip(j as int)[0] == c);
                assert(cs@.skip(j as int).drop_first() =~= cs@.skip(j + 1));
                if c == 'v' {
                    args.verbose = true;
                } else if c == 'n' {
                    args.dry_run = true;
                } else if c == 'q' {
                    args.quiet = true;
                } else if c == 'f' {
                    return Err(owned(
                        "--force was removed: clonedir never overwrites or merges into an existing destination; remove it yourself or choose a new path",
                    ));
                } else {
                    let mut m = owned("unknown option: -");
                    push_char(&mut m, c);
                    return Err(m);
                }
                j = j + 1;
            }
            assert(cs@.skip(j as int) =~= Seq::<char>::empty());
        } else {
            return Err(joined("unknown option: ", arg));
        }
        i = i + 1;
    }
    Ok(args)
}

/// How to use the command.
pub const USAGE: &'static str = "\
Clone a directory tree using copy-on-write.

Usage:
  clonedir [OPTIONS] SOURCE DESTINATION
  clonedir --sweep [--json] PARENT
  clonedir --measure [--json] PATH...

DESTINATION must not exist; it appears only once complete. Symlinks are kept
verbatim, hard links become independent files, and FIFOs, sockets, devices and
nested mount points are refused. Nothing is byte-copied unless --allow-copy is
given. If the source changes while it is being cloned, the copy is discarded
(exit 3).

Options:
  -v, --verbose        Report what was done
  -n, --dry-run        Check the inputs and report the plan without creating anything
  -q, --quiet          Suppress non-error output (overrides --verbose)
      --json           Print a JSON receipt (or error) on stdout
      --allow-copy     Copy bytes where cloning is impossible (another volume or filesystem)
      --min-free SIZE  Refuse to proceed below SIZE available (default 256M; K/M/G suffixes)
      --keep-failed    Keep a failed stage for inspection instead of removing it
      --sweep          Remove stages left in PARENT by clonedir processes that are gone
      --measure        Report files, logical, du-allocated and private (unshared) bytes
  -h, --help           Show this help
  -V, --version        Show the version

Exit status: 0 success, 1 error, 2 usage, 3 source changed, 4 cannot clone
without --allow-copy, 5 insufficient space, 6 destination exists, 130 interrupted.
";

/// The characters of [`USAGE`].
pub open spec fn usage_text() -> Seq<char> {
    USAGE@
}

/// What the command line asks for.
#[derive(Debug)]
pub enum Command {
    /// Print the usage text.
    Help,
    /// Print the version.
    Version,
    /// Refuse the command line with this message (exit status 2).
    Refused(String),
    /// Measure each path.
    Measure(Args),
    /// Sweep the one parent directory.
    Sweep(Args),
    /// Clone the source to the destination (or plan it, with `--dry-run`).
    Clone(Args),
}

/// The plain-value model of a [`Command`].
pub enum CommandModel {
    Help,
    Version,
    Refused(Seq<char>),
    Measure(ArgsModel),
    Sweep(ArgsModel),
    Clone(ArgsModel),
}

impl View for Command {
    type V = CommandModel;

    open spec fn view(&self) -> CommandModel {
        match self {
            Command::Help => CommandModel::Help,
            Command::Version => CommandModel::Version,
            Command::Refused(m) => CommandModel::Refused(m@),
            Command::Measure(a) => CommandModel::Measure(a@),
            Command::Sweep(a) => CommandModel::Sweep(a@),
            Command::Clone(a) => CommandModel::Clone(a@),
        }
    }
}

/// Whether some argument is `a` or `b`, wherever it stands.
pub open spec fn asks_for(argv: Seq<Seq<char>>, a: Seq<char>, b: Seq<char>) -> bool {
    exists|i: int| 0 <= i < argv.len() && (#[trigger] argv[i] == a || argv[i] == b)
}

/// What the command line `argv` asks for: help and version win over
/// everything; then the arguments must parse, `--measure` needs a path,
/// `--sweep` exactly one, and a clone exactly a source and a destination.
pub open spec fn command_of(argv: Seq<Seq<char>>) -> CommandModel {
    if asks_for(argv, "-h"@, "--help"@) {
        CommandModel::Help
    } else if asks_for(argv, "-V"@, "--version"@) {
        CommandModel::Version
    } else {
        match parse_args(argv) {
            Err(m) => CommandModel::Refused("Error: "@ + m + "\n\n"@ + usage_text()),
            Ok(a) => if a.measure {
                if a.paths.len() == 0 {
                    CommandModel::Refused("Error: --measure needs at least one PATH"@)
                } else {
                    CommandModel::Measure(a)
                }
            } else if a.sweep {
                if a.paths.len() != 1 {
                    CommandModel::Refused("Error: --sweep needs exactly one PARENT"@)
                } else {
                    CommandModel::Sweep(a)
                }
            } else if a.paths.len() != 2 {
                CommandModel::Refused("Error: expected SOURCE and DESTINATION\n\n"@ + usage_text())
            } else {
                CommandModel::Clone(a)
            },
        }
    }
}

/// Whether some argument of `argv` is `a` or `b`.
fn any_arg_is(argv: &[String], a: &str, b: &str) -> (r: bool)
    ensures
        r == asks_for(string_views(argv@), a@, b@),
{
    let ghost views = string_views(argv@);
    let mut i: usize = 0;
    while i < argv.len()
        invariant
            i <= argv@.len(),
            views == string_views(argv@),
            forall|k: int| 0 <= k < i ==> !(views[k] == a@ || views[k] == b@),
        decreases argv@.len() - i,
    {
        assert(views[i as int] == argv@[i as int]@);
        if str_eq(argv[i].as_str(), a) || str_eq(argv[i].as_str(), b) {
            assert(views[i as int] == a@ || views[i as int] == b@);
            return true;
        }
        i = i + 1;
    }
    false
}

/// What the command line (without the program name) asks for.
pub fn command(argv: &[String]) -> (r: Command)
    ensures
        r@ == command_of(string_views(argv@)),
{
    if any_arg_is(argv, "-h", "--help") {
        return Command::Help;
    }
    if any_arg_is(argv, "-V", "--version") {
        return Command::Version;
    }
    let args = match parse(argv) {
        Err(m) => {
            let mut text = "Error: ".to_owned();
            text.append(m.as_str());
            text.append("\n\n");
            text.append(USAGE);
            return Command::Refused(text);
        },
        Ok(a) => a,
    };
    if args.measure {
        if args.paths.len() == 0 {
            return Command::Refused("Error: --measure needs at least one PATH".to_owned());
        }
        return Command::Measure(args);
    }
    if args.sweep {
        if args.paths.len() != 1 {
            return Command::Refused("Error: --sweep needs exactly one PARENT".to_owned());
        }
        return Command::Sweep(args);
    }
    if args.paths.len() != 2 {
        let mut text = "Error: expected SOURCE and DESTINATION\n\n".to_owned();
        text.append(USAGE);
        return Command::Refused(text);
    }
    Command::Clone(args)
}

/// Whether ordinary (non-error) lines are printed under `a`: not with
/// `--quiet`, and not with `--json`, whose output is the JSON alone.
pub open spec fn speaks_under(a: ArgsModel) -> bool {
    !a.quiet && !a.json
}

/// Whether the start and the summary of a clone are reported under `a`:
/// with `--verbose`, unless `--quiet` or `--json` silence it.
pub open spec fn reports_progress_under(a: ArgsModel) -> bool {
    a.verbose && !a.quiet && !a.json
}

impl Args {
    /// The clone options the command line asks for: byte copies only with
    /// `--allow-copy`, the `--min-free` floor or the default one, and a
    /// failed stage kept with `--keep-failed`.
    pub fn options(&self) -> (r: Options)
        ensures
            r.fallback == (if self.allow_copy {
                Fallback::Copy
            } else {
                Fallback::Fail
            }),
            r.min_free_bytes == match self.min_free {
                Some(m) => m,
                None => DEFAULT_MIN_FREE_BYTES,
            },
            r.keep_failed_stage == self.keep_failed,
    {
        Options {
            fallback: if self.allow_copy {
                Fallback::Copy
            } else {
                Fallback::Fail
            },
            min_free_bytes: match self.min_free {
                Some(m) => m,
                None => DEFAULT_MIN_FREE_BYTES,
            },
            keep_failed_stage: self.keep_failed,
        }
    }

    /// Whether ordinary (non-error) lines are printed.
    pub fn speaks(&self) -> (r: bool)
        ensures
            r == speaks_under(self@),
    {
        !self.quiet && !self.json
    }

    /// Whether the start and the summary of a clone are reported.
    pub fn reports_progress(&self) -> (r: bool)
        ensures
            r == reports_progress_under(self@),
    {
        self.verbose && !self.quiet && !self.json
    }
}

// ------------------------------------------------------------------- laws

/// After `--`, every argument is a path, in order, whatever it looks like.
proof fn lemma_after_double_dash(argv: Seq<Seq<char>>, i: int, acc: ArgsModel)
    requires
        0 <= i <= argv.len(),
    ensures
        parse_from(argv, i, acc, true) == Ok::<ArgsModel, Seq<char>>(
            ArgsModel { paths: acc.paths + argv.skip(i), ..acc },
        ),
    decreases argv.len() - i,
{
    if i < argv.len() {
        lemma_after_double_dash(argv, i + 1, ArgsModel { paths: acc.paths.push(argv[i]), ..acc });
        assert(acc.paths.push(argv[i]) + argv.skip(i + 1) =~= acc.paths + argv.skip(i));
    } else {
        assert(acc.paths + argv.skip(i) =~= acc.paths);
    }
}

/// `--` ends the options: everything after it is a path, in order.
pub proof fn lemma_double_dash_ends_options(rest: Seq<Seq<char>>)
    ensures
        parse_args(seq!["--"@] + rest) == Ok::<ArgsModel, Seq<char>>(
            ArgsModel { paths: rest, ..no_args() },
        ),
{
    reveal_strlit("--");
    reveal_strlit("-");
    let argv = seq!["--"@] + rest;
    assert(argv[0] == "--"@);
    assert(is_option(argv[0]));
    lemma_after_double_dash(argv, 1, no_args());
    assert(no_args().paths + argv.skip(1) =~= rest);
}

/// A path argument is kept as it is, in its place: taken as an argument of
/// its own (not as the size after `--min-free`, which the parser consumes
/// with its option), an argument that does not start with `-` (or is `-`)
/// adds itself to the paths.
pub proof fn lemma_paths_are_kept(argv: Seq<Seq<char>>, i: int, acc: ArgsModel)
    requires
        0 <= i < argv.len(),
        !is_option(argv[i]),
    ensures
        parse_from(argv, i, acc, false) == parse_from(
            argv,
            i + 1,
            ArgsModel { paths: acc.paths.push(argv[i]), ..acc },
            false,
        ),
{
}

/// `--quiet` silences everything but errors, `--verbose` included.
pub proof fn lemma_quiet_overrides_verbose(a: ArgsModel)
    requires
        a.quiet,
    ensures
        !speaks_under(a),
        !reports_progress_under(a),
{
}

/// A size without a suffix is read back as the number it writes.
pub proof fn lemma_size_round_trip(n: u64)
    ensures
        size_value(crate::text::decimal(n as nat)) == Some(n),
{
    crate::text::lemma_decimal(n as nat);
    let d = crate::text::decimal(n as nat);
    assert(crate::text::is_digit(d.last()));
    assert(!is_suffix(d.last()));
    crate::text::lemma_parse_decimal(n as nat, u64::MAX as nat);
}

/// A size with a `G` suffix counts gibibytes.
pub proof fn lemma_size_gibibytes(n: u64)
    requires
        n * 1073741824 <= u64::MAX,
    ensures
        size_value(crate::text::decimal(n as nat).push('G')) == Some((n * 1073741824) as u64),
{
    crate::text::lemma_decimal(n as nat);
    let d = crate::text::decimal(n as nat).push('G');
    assert(d.drop_last() =~= crate::text::decimal(n as nat));
    crate::text::lemma_parse_decimal(n as nat, u64::MAX as nat);
}

/// What the command line gives from argument `i` on depends only on the
/// arguments from `i` on.
proof fn lemma_parse_from_same_tail(a: Seq<Seq<char>>, b: Seq<Seq<char>>, i: int, acc: ArgsModel, only_paths: bool)
    requires
        0 <= i,
        a.len() == b.len(),
        forall|k: int| i <= k < a.len() ==> a[k] == b[k],
    ensures
        parse_from(a, i, acc, only_paths) == parse_from(b, i, acc, only_paths),
    decreases a.len() - i,
{
    if i < a.len() {
        let arg = a[i];
        assert(b[i] == arg);
        if only_paths || !is_option(arg) {
            lemma_parse_from_same_tail(a, b, i + 1, ArgsModel { paths: acc.paths.push(arg), ..acc }, only_paths);
        } else if arg == "--"@ {
            lemma_parse_from_same_tail(a, b, i + 1, acc, true);
        } else if switch_of(arg) is Some {
            lemma_parse_from_same_tail(a, b, i + 1, set_flag(acc, switch_of(arg)->0), only_paths);
        } else if arg == "--min-free"@ {
            if i + 1 < a.len() {
                assert(a[i + 1] == b[i + 1]);
                if let Some(n) = size_value(a[i + 1]) {
                    lemma_parse_from_same_tail(a, b, i + 2, ArgsModel { min_free: Some(n), ..acc }, only_paths);
                }
            }
        } else if arg == "-f"@ || arg == "--force"@ {
        } else if !has_prefix(arg, "--"@) && arg.len() > 2 {
            if let Ok(next) = apply_short_flags(arg.drop_first(), acc) {
                lemma_parse_from_same_tail(a, b, i + 1, next, only_paths);
            }
        }
    }
}

/// A switch given first sets its flag and leaves the rest to the other
/// arguments.
proof fn lemma_switch_first(arg: Seq<char>, f: Flag, rest: Seq<Seq<char>>)
    requires
        is_option(arg),
        arg != "--"@,
        switch_of(arg) == Some(f),
    ensures
        parse_args(seq![arg] + rest) == parse_from(seq![arg] + rest, 1, set_flag(no_args(), f), false),
{
    assert((seq![arg] + rest)[0] == arg);
}

/// Each short switch is its long form: `-v`, `-n` and `-q` set the same
/// flag as `--verbose`, `--dry-run` and `--quiet`, whatever follows; and
/// given alone each sets only its flag.
pub proof fn lemma_short_switches_are_their_long_forms(rest: Seq<Seq<char>>)
    ensures
        parse_args(seq!["-v"@] + rest) == parse_args(seq!["--verbose"@] + rest),
        parse_args(seq!["-n"@] + rest) == parse_args(seq!["--dry-run"@] + rest),
        parse_args(seq!["-q"@] + rest) == parse_args(seq!["--quiet"@] + rest),
        parse_args(seq!["-v"@]) == Ok::<ArgsModel, Seq<char>>(ArgsModel { verbose: true, ..no_args() }),
        parse_args(seq!["-n"@]) == Ok::<ArgsModel, Seq<char>>(ArgsModel { dry_run: true, ..no_args() }),
        parse_args(seq!["-q"@]) == Ok::<ArgsModel, Seq<char>>(ArgsModel { quiet: true, ..no_args() }),
{
    reveal_strlit("-");
    reveal_strlit("--");
    reveal_strlit("-v");
    reveal_strlit("--verbose");
    reveal_strlit("-n");
    reveal_strlit("--dry-run");
    reveal_strlit("-q");
    reveal_strlit("--quiet");
    assert(switch_of("-v"@) == Some(Flag::Verbose));
    assert(switch_of("--verbose"@) == Some(Flag::Verbose));
    assert(switch_of("-n"@) == Some(Flag::DryRun));
    assert("--dry-run"@[2] != "--verbose"@[2]);
    assert(switch_of("--dry-run"@) == Some(Flag::DryRun));
    assert(switch_of("-q"@) == Some(Flag::Quiet));
    assert(switch_of("--quiet"@) == Some(Flag::Quiet));
    lemma_same_switch("-v"@, "--verbose"@, Flag::Verbose, rest);
    lemma_same_switch("-n"@, "--dry-run"@, Flag::DryRun, rest);
    lemma_same_switch("-q"@, "--quiet"@, Flag::Quiet, rest);
}

/// Two arguments naming the same switch parse alike, whatever follows.
proof fn lemma_same_switch(short: Seq<char>, long: Seq<char>, f: Flag, rest: Seq<Seq<char>>)
    requires
        is_option(short),
        is_option(long),
        short != "--"@,
        long != "--"@,
        switch_of(short) == Some(f),
        switch_of(long) == Some(f),
    ensures
        parse_args(seq![short] + rest) == parse_args(seq![long] + rest),
        parse_args(seq![short]) == Ok::<ArgsModel, Seq<char>>(set_flag(no_args(), f)),
{
    lemma_switch_first(short, f, rest);
    lemma_switch_first(long, f, rest);
    lemma_parse_from_same_tail(seq![short] + rest, seq![long] + rest, 1, set_flag(no_args(), f), false);
    lemma_switch_first(short, f, seq![]);
    assert(seq![short] + Seq::<Seq<char>>::empty() =~= seq![short]);
}

/// Each switch given alone sets its own flag and nothing else.
pub proof fn lemma_each_switch_sets_its_flag()
    ensures
        parse_args(seq!["--verbose"@]) == Ok::<ArgsModel, Seq<char>>(ArgsModel { verbose: true, ..no_args() }),
        parse_args(seq!["--dry-run"@]) == Ok::<ArgsModel, Seq<char>>(ArgsModel { dry_run: true, ..no_args() }),
        parse_args(seq!["--quiet"@]) == Ok::<ArgsModel, Seq<char>>(ArgsModel { quiet: true, ..no_args() }),
        parse_args(seq!["--json"@]) == Ok::<ArgsModel, Seq<char>>(ArgsModel { json: true, ..no_args() }),
        parse_args(seq!["--allow-copy"@]) == Ok::<ArgsModel, Seq<char>>(
            ArgsModel { allow_copy: true, ..no_args() },
        ),
        parse_args(seq!["--keep-failed"@]) == Ok::<ArgsModel, Seq<char>>(
            ArgsModel { keep_failed: true, ..no_args() },
        ),
        parse_args(seq!["--sweep"@]) == Ok::<ArgsModel, Seq<char>>(ArgsModel { sweep: true, ..no_args() }),
        parse_args(seq!["--measure"@]) == Ok::<ArgsModel, Seq<char>>(ArgsModel { measure: true, ..no_args() }),
{
    reveal_strlit("-");
    reveal_strlit("--");
    reveal_strlit("-v");
    reveal_strlit("--verbose");
    reveal_strlit("-n");
    reveal_strlit("--dry-run");
    reveal_strlit("-q");
    reveal_strlit("--quiet");
    reveal_strlit("--json");
    reveal_strlit("--allow-copy");
    reveal_strlit("--keep-failed");
    reveal_strlit("--sweep");
    reveal_strlit("--measure");
    assert("--dry-run"@[2] != "--verbose"@[2]);
    assert("--sweep"@[2] != "--quiet"@[2]);
    assert("--measure"@[2] != "--verbose"@[2]);
    assert("--measure"@[2] != "--dry-run"@[2]);
    lemma_alone("--verbose"@, Flag::Verbose);
    lemma_alone("--dry-run"@, Flag::DryRun);
    lemma_alone("--quiet"@, Flag::Quiet);
    lemma_alone("--json"@, Flag::Json);
    lemma_alone("--allow-copy"@, Flag::AllowCopy);
    lemma_alone("--keep-failed"@, Flag::KeepFailed);
    lemma_alone("--sweep"@, Flag::Sweep);
    lemma_alone("--measure"@, Flag::Measure);
}

proof fn lemma_alone(arg: Seq<char>, f: Flag)
    requires
        is_option(arg),
        arg != "--"@,
        switch_of(arg) == Some(f),
    ensures
        parse_args(seq![arg]) == Ok::<ArgsModel, Seq<char>>(set_flag(no_args(), f)),
{
    lemma_switch_first(arg, f, seq![]);
    assert(seq![arg] + Seq::<Seq<char>>::empty() =~= seq![arg]);
}

/// `--force` is refused, with the reason, whatever follows.
pub proof fn lemma_force_is_refused(rest: Seq<Seq<char>>)
    ensures
        parse_args(seq!["--force"@] + rest) == Err::<ArgsModel, Seq<char>>(force_removed()),
        parse_args(seq!["-f"@] + rest) == Err::<ArgsModel, Seq<char>>(force_removed()),
{
    reveal_strlit("-");
    reveal_strlit("--");
    reveal_strlit("-f");
    reveal_strlit("--force");
    reveal_strlit("-v");
    reveal_strlit("--verbose");
    reveal_strlit("-n");
    reveal_strlit("--dry-run");
    reveal_strlit("-q");
    reveal_strlit("--quiet");
    reveal_strlit("--json");
    reveal_strlit("--allow-copy");
    reveal_strlit("--keep-failed");
    reveal_strlit("--sweep");
    reveal_strlit("--measure");
    reveal_strlit("--min-free");
    assert("--force"@[2] != "--quiet"@[2]);
    assert((seq!["--force"@] + rest)[0] == "--force"@);
    assert((seq!["-f"@] + rest)[0] == "-f"@);
    assert(switch_of("--force"@) is None);
    assert(switch_of("-f"@) is None);
}

} // verus!
