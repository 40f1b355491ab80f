//! Private stages: how they are named, the owner record that names the
//! process building one, which stages a sweep may remove, and how a stage
//! ends, published or failed.
use vstd::prelude::*;
use crate::error::{Error, ErrorKind, ErrorModel, IoFailure, IoFailureModel, IoErrorKind};
use crate::text::{
    chars_of, push_decimal, push_hex, push_char, decimal, hex, has_prefix, starts_with_chars,
    split_lines, lines, views, strip_cr, parse_u32, parse_unsigned, no_newline, lemma_lines_cons,
    lemma_parse_decimal, lemma_decimal, is_digit,
};
use crate::walk::{io_error, plain_error, decision_model};

verus! {

/// Name prefix of the private stage directories.
pub const STAGE_PREFIX: &'static str = ".clonedir-stage.";

/// The file in a stage that names its owner.
pub const OWNER_FILE: &'static str = "owner";

/// Present in a stage kept on request; a sweep leaves such a stage alone.
pub const KEPT_FILE: &'static str = "kept";

/// The ignore file that keeps a stage out of `git status`, and its text.
pub const GITIGNORE_FILE: &'static str = ".gitignore";

/// Ignores everything in the stage.
pub const GITIGNORE_TEXT: &'static str = "*\n";

/// The characters of [`STAGE_PREFIX`].
pub open spec fn stage_prefix() -> Seq<char> {
    ".clonedir-stage."@
}

/// The first line of every owner record.
pub open spec fn owner_magic() -> Seq<char> {
    "clonedir-stage v1"@
}

/// The name of the stage built by process `pid`, started `nanos` after the
/// epoch, as its `serial`-th stage: the prefix, the pid, a dot, then the
/// time and the serial in hexadecimal.
pub open spec fn stage_name_text(pid: u32, nanos: u128, serial: u64) -> Seq<char> {
    stage_prefix() + decimal(pid as nat) + "."@ + hex(nanos as nat) + hex(serial as nat)
}

/// The owner record of a stage: the magic line, then `pid=`, `started=`
/// (seconds since the epoch) and `destination=` lines.
pub open spec fn owner_record_text(pid: u32, started: u64, destination: Seq<char>) -> Seq<char> {
    owner_magic() + seq!['\n'] + "pid="@ + decimal(pid as nat) + seq!['\n'] + "started="@ + decimal(
        started as nat,
    ) + seq!['\n'] + "destination="@ + destination + seq!['\n']
}

/// The pid of the first `pid=` line among `ls`, when it parses as a `u32`.
pub open spec fn first_pid(ls: Seq<Seq<char>>) -> Option<u32>
    decreases ls.len(),
{
    if ls.len() == 0 {
        None
    } else if has_prefix(ls[0], "pid="@) {
        match parse_unsigned(ls[0].skip(4), u32::MAX as nat) {
            Some(v) => Some(v as u32),
            None => None,
        }
    } else {
        first_pid(ls.drop_first())
    }
}

/// The owner a record names: none unless its first line is the magic line;
/// then the first `pid=` line, which must hold a `u32`.
pub open spec fn owner_pid(text: Seq<char>) -> Option<u32> {
    let ls = lines(text);
    if ls.len() == 0 || ls[0] != owner_magic() {
        None
    } else {
        first_pid(ls.drop_first())
    }
}

/// Whether a directory entry is named like a stage.
pub open spec fn is_stage_name_text(name: Seq<char>) -> bool {
    has_prefix(name, stage_prefix())
}

/// What a sweep reads of a candidate stage.
#[derive(Clone, Copy, Debug)]
pub struct StageFacts {
    /// It is a directory (not followed through a link).
    pub is_dir: bool,
    /// The user id that owns it.
    pub uid: u32,
    /// It holds the kept-on-request marker.
    pub kept: bool,
    /// The pid its owner record names, if it holds a readable one.
    pub owner: Option<u32>,
    /// Whether that process is alive (meaningful only with an owner).
    pub owner_alive: bool,
}

/// A sweep removes a stage only when it is a directory of the current user
/// `me`, was not kept on request, and names an owner that is gone.
pub open spec fn stale(f: StageFacts, me: u32) -> bool {
    f.is_dir && f.uid == me && !f.kept && f.owner is Some && !f.owner_alive
}

/// The permission bits of a mode.
pub open spec fn permission_bits_of(mode: u32) -> u32 {
    mode & 0o7777
}

/// The mode that gives the owner full access, when `mode` lacks it.
pub open spec fn owner_access(mode: u32) -> Option<u32> {
    if mode & 0o700 != 0o700 {
        Some((mode & 0o7777) | 0o700)
    } else {
        None
    }
}

/// The verdict on publishing the finished tree at `destination`: something
/// that appeared there meanwhile is never replaced.
pub open spec fn publish_verdict(destination: Seq<char>, result: Result<(), IoFailureModel>) -> Result<
    (),
    ErrorModel,
> {
    match result {
        Ok(()) => Ok(()),
        Err(f) => if f.kind == IoErrorKind::AlreadyExists || f.raw_os_error == Some(66i32) {
            Err(
                plain_error(
                    ErrorKind::DestinationExists,
                    destination,
                    "destination appeared while cloning; it was not touched"@,
                ),
            )
        } else {
            Err(io_error(destination, f))
        },
    }
}

/// A failed clone's error once its stage at `stage` is dealt with: kept on
/// request, or not removable, the stage is named in the error, and the
/// removal failure is added to the detail.
pub open spec fn failure_after_cleanup(
    error: ErrorModel,
    stage: Seq<char>,
    keep: bool,
    removal: Option<IoFailureModel>,
) -> ErrorModel {
    if keep {
        ErrorModel { kept_stage: Some(stage), ..error }
    } else {
        match removal {
            Some(f) => ErrorModel {
                detail: error.detail + "; and the stage could not be removed ("@ + f.message + ")"@,
                kept_stage: Some(stage),
                ..error
            },
            None => error,
        }
    }
}

/// The name of a new stage.
pub fn stage_name(pid: u32, nanos: u128, serial: u64) -> (r: String)
    ensures
        r@ == stage_name_text(pid, nanos, serial),
{
    let mut s = STAGE_PREFIX.to_owned();
    push_decimal(&mut s, pid as u64);
    s.append(".");
    push_hex(&mut s, nanos);
    push_hex(&mut s, serial as u128);
    assert(s@ =~= stage_name_text(pid, nanos, serial));
    s
}

/// The owner record of a stage built by `pid` for `destination`.
pub fn owner_record(pid: u32, started: u64, destination: &str) -> (r: String)
    ensures
        r@ == owner_record_text(pid, started, destination@),
{
    let mut s = "clonedir-stage v1".to_owned();
    push_char(&mut s, '\n');
    s.append("pid=");
    push_decimal(&mut s, pid as u64);
    push_char(&mut s, '\n');
    s.append("started=");
    push_decimal(&mut s, started);
    push_char(&mut s, '\n');
    s.append("destination=");
    s.append(destination);
    push_char(&mut s, '\n');
    assert(s@ =~= owner_record_text(pid, started, destination@));
    s
}

/// The owner pid an owner record names, if it is one.
pub fn stage_owner(text: &str) -> (r: Option<u32>)
    ensures
        r == owner_pid(text@),
{
    let cs = chars_of(text);
    let ls = split_lines(&cs);
    let magic = chars_of("clonedir-stage v1");
    if ls.len() == 0 || !crate::text::chars_eq(&ls[0], &magic) {
        return None;
    }
    let ghost all = views(ls@);
    assert(all[0] == ls@[0]@);
    let pid_prefix = chars_of("pid=");
    let mut i: usize = 1;
    assert(all.skip(1) =~= all.drop_first());
    while i < ls.len()
        invariant
            1 <= i <= ls@.len(),
            all == views(ls@),
            all == lines(text@),
            pid_prefix@ == "pid="@,
            owner_pid(text@) == first_pid(all.skip(i as int)),
        decreases ls@.len() - i,
    {
        let line = &ls[i];
        assert(all.skip(i as int)[0] == line@);
        if starts_with_chars(line, &pid_prefix) {
            proof {
                reveal_strlit("pid=");
            }
            assert(line@.len() >= 4);
            let mut rest: Vec<char> = Vec::new();
            let mut k: usize = 4;
            while k < line.len()
                invariant
                    4 <= k <= line@.len(),
                    rest@ == line@.subrange(4, k as int),
                decreases line@.len() - k,
            {
                rest.push(line[k]);
                k = k + 1;
            }
            assert(rest@ =~= line@.skip(4));
            assert(all.skip(i as int)[0] == line@);
            assert(has_prefix(line@, "pid="@));
            return parse_u32(&rest);
        }
        assert(all.skip(i as int).drop_first() =~= all.skip(i + 1));
        i = i + 1;
    }
    None
}

/// Whether a directory entry is named like a stage.
pub fn is_stage_name(name: &str) -> (r: bool)
    ensures
        r == is_stage_name_text(name@),
{
    starts_with_chars(&chars_of(name), &chars_of(STAGE_PREFIX))
}

/// Whether a sweep by user `me` removes the stage read as `facts`.
pub fn is_stale(facts: &StageFacts, me: u32) -> (r: bool)
    ensures
        r == stale(*facts, me),
{
    facts.is_dir && facts.uid == me && !facts.kept && facts.owner.is_some() && !facts.owner_alive
}

/// The permission bits of `mode`.
pub fn permission_bits(mode: u32) -> (r: u32)
    ensures
        r == permission_bits_of(mode),
{
    mode & 0o7777
}

/// The mode to give a directory so its owner may enter, list and change it
/// (restored after publishing, or set before removing), if it lacks that.
pub fn owner_access_mode(mode: u32) -> (r: Option<u32>)
    ensures
        r == owner_access(mode),
{
    if mode & 0o700 != 0o700 {
        Some((mode & 0o7777) | 0o700)
    } else {
        None
    }
}

/// Decides on the outcome of the exclusive rename that publishes the tree.
pub fn publish_outcome(destination: &str, result: Result<(), IoFailure>) -> (r: Result<(), Error>)
    ensures
        decision_model(r) == publish_verdict(destination@, crate::walk::outcome_model(result)),
{
    match result {
        Ok(()) => Ok(()),
        Err(f) => {
            let appeared = f.kind == IoErrorKind::AlreadyExists || match f.raw_os_error {
                Some(code) => code == 66,
                None => false,
            };
            if appeared {
                Err(Error::new(ErrorKind::DestinationExists, Some(destination), "destination appeared while cloning; it was not touched".to_owned()))
            } else {
                Err(Error::io(destination, f))
            }
        },
    }
}

/// The model of an optional failure.
pub open spec fn failure_model(f: Option<IoFailure>) -> Option<IoFailureModel> {
    match f {
        Some(x) => Some(x@),
        None => None,
    }
}

/// A failed clone's error once its stage is dealt with: kept on request
/// (`keep`), or removed, which failed when `removal` holds the failure.
pub fn conclude_failure(error: Error, stage: &str, keep: bool, removal: Option<IoFailure>) -> (r: Error)
    ensures
        r@ == failure_after_cleanup(error@, stage@, keep, failure_model(removal)),
{
    let mut error = error;
    if keep {
        error.kept_stage = Some(stage.to_owned());
        return error;
    }
    match removal {
        Some(f) => {
            error.detail.append("; and the stage could not be removed (");
            error.detail.append(f.message.as_str());
            error.detail.append(")");
            error.kept_stage = Some(stage.to_owned());
            error
        },
        None => error,
    }
}

// ---------------------------------------------------------- tree removal

/// What removing one entry of a tree takes.
#[derive(Clone, Copy, Debug, PartialEq, Eq, Structural)]
pub enum RemovalAction {
    /// Remove the entry itself (a file or a link, never followed).
    RemoveEntry,
    /// Give the directory `restore_mode` first where its owner lacks access,
    /// remove its entries, then the directory.
    EmptyDirectory { restore_mode: Option<u32> },
}

/// How an entry of `mode` is removed: a directory is emptied first, after
/// its owner regains full access, so read-only copies go too.
pub open spec fn removal_plan(is_dir: bool, mode: u32) -> RemovalAction {
    if is_dir {
        RemovalAction::EmptyDirectory { restore_mode: owner_access(mode) }
    } else {
        RemovalAction::RemoveEntry
    }
}

/// How to remove an entry that is a directory (`is_dir`) or not, of `mode`.
pub fn removal_action(is_dir: bool, mode: u32) -> (r: RemovalAction)
    ensures
        r == removal_plan(is_dir, mode),
{
    if is_dir {
        RemovalAction::EmptyDirectory { restore_mode: owner_access_mode(mode) }
    } else {
        RemovalAction::RemoveEntry
    }
}

/// Whether a failure only says that the entry is gone already.
pub open spec fn vanished(f: IoFailureModel) -> bool {
    f.kind == IoErrorKind::NotFound
}

/// Whether `failure` only says that the entry is gone already (another
/// removal of the same tree got there first).
pub fn has_vanished(failure: &IoFailure) -> (r: bool)
    ensures
        r == vanished(failure@),
{
    failure.kind == IoErrorKind::NotFound
}

/// A step of a removal, judged: an entry that vanished meanwhile counts as
/// removed; any other failure stands.
pub open spec fn removal_verdict(r: Result<(), IoFailureModel>) -> Result<(), IoFailureModel> {
    match r {
        Ok(()) => Ok(()),
        Err(f) => if vanished(f) {
            Ok(())
        } else {
            Err(f)
        },
    }
}

/// Judges the outcome `r` of one step of a removal.
pub fn removal_outcome(r: Result<(), IoFailure>) -> (o: Result<(), IoFailure>)
    ensures
        crate::walk::outcome_model(o) == removal_verdict(crate::walk::outcome_model(r)),
{
    match r {
        Ok(()) => Ok(()),
        Err(f) => {
            if has_vanished(&f) {
                Ok(())
            } else {
                Err(f)
            }
        },
    }
}

// --------------------------------------------------------------- laws

proof fn lemma_decimal_no_newline(n: nat)
    ensures
        no_newline(decimal(n)),
        decimal(n).len() > 0,
        decimal(n).last() != '\r',
{
    lemma_decimal(n);
    let d = decimal(n);
    assert forall|i: int| 0 <= i < d.len() implies #[trigger] d[i] != '\n' by {
        assert(is_digit(d[i]));
    }
    assert(is_digit(d[d.len() - 1]));
}

/// A stage's owner record names the process that wrote it: reading back
/// the record of `pid` gives `pid`, whatever the destination is called.
pub proof fn lemma_owner_record_names_its_owner(pid: u32, started: u64, destination: Seq<char>)
    ensures
        owner_pid(owner_record_text(pid, started, destination)) == Some(pid),
{
    reveal_strlit("clonedir-stage v1");
    reveal_strlit("pid=");
    let magic = owner_magic();
    let pid_line = "pid="@ + decimal(pid as nat);
    let rest = "started="@ + decimal(started as nat) + seq!['\n'] + "destination="@ + destination + seq![
        '\n',
    ];
    lemma_decimal_no_newline(pid as nat);
    assert(no_newline(magic));
    assert forall|i: int| 0 <= i < pid_line.len() implies #[trigger] pid_line[i] != '\n' by {
        if i >= 4 {
            assert(pid_line[i] == decimal(pid as nat)[i - 4]);
        }
    }
    let text = owner_record_text(pid, started, destination);
    assert(text =~= magic + seq!['\n'] + (pid_line + seq!['\n'] + rest));
    lemma_lines_cons(magic, pid_line + seq!['\n'] + rest);
    lemma_lines_cons(pid_line, rest);
    assert(strip_cr(magic) =~= magic);
    assert(pid_line.last() == decimal(pid as nat).last());
    assert(strip_cr(pid_line) =~= pid_line);
    let ls = lines(text);
    assert(ls.drop_first() =~= seq![pid_line] + lines(rest));
    assert(pid_line.take(4) =~= "pid="@);
    assert(pid_line.skip(4) =~= decimal(pid as nat));
    lemma_parse_decimal(pid as nat, u32::MAX as nat);
}

/// A stage is recognised by name: every stage name has the stage prefix.
pub proof fn lemma_stage_names_are_recognised(pid: u32, nanos: u128, serial: u64)
    ensures
        is_stage_name_text(stage_name_text(pid, nanos, serial)),
{
    let n = stage_name_text(pid, nanos, serial);
    assert(n.take(stage_prefix().len() as int) =~= stage_prefix());
}

/// Only stale stages go: a stage that was kept on request, whose owner is
/// alive, that names no owner, or that belongs to another user, stays.
pub proof fn lemma_sweep_spares(f: StageFacts, me: u32)
    ensures
        f.kept ==> !stale(f, me),
        f.owner_alive ==> !stale(f, me),
        f.owner is None ==> !stale(f, me),
        f.uid != me ==> !stale(f, me),
        !f.is_dir ==> !stale(f, me),
{
}

/// Entries that vanish during a removal count as removed: a step of a
/// removal fails exactly when it failed for another reason than that.
pub proof fn lemma_vanished_entries_count_as_removed(r: Result<(), IoFailureModel>)
    ensures
        removal_verdict(r) is Ok <==> (r is Ok || (r matches Err(f) && f.kind == IoErrorKind::NotFound)),
        removal_verdict(r) matches Err(f) ==> r == Err::<(), IoFailureModel>(f),
{
}

/// Publication never replaces: when the exclusive rename finds something
/// at the destination, the clone fails as "destination exists".
pub proof fn lemma_publication_never_replaces(destination: Seq<char>, f: IoFailureModel)
    requires
        f.kind == IoErrorKind::AlreadyExists,
    ensures
        publish_verdict(destination, Err(f)) matches Err(e) && e.kind == ErrorKind::DestinationExists,
{
}

/// A failed clone names its stage exactly when the stage is still there:
/// kept on request, or not removable.
pub proof fn lemma_failure_names_a_remaining_stage(
    error: ErrorModel,
    stage: Seq<char>,
    keep: bool,
    removal: Option<IoFailureModel>,
)
    requires
        error.kept_stage is None,
    ensures
        failure_after_cleanup(error, stage, keep, removal).kept_stage == (if keep || removal is Some {
            Some(stage)
        } else {
            None::<Seq<char>>
        }),
        failure_after_cleanup(error, stage, keep, removal).kind == error.kind,
{
}

} // verus!
