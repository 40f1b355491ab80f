//! Preflight: the checks a clone's inputs must pass before anything is
//! created, in the order they are made. The caller resolves paths and reads
//! metadata; each step here decides on what was read.
use vstd::prelude::*;
use std::path::Path;
use crate::error::{Error, ErrorKind, ErrorModel, IoFailure, IoFailureModel, IoErrorKind, opt_view};
use crate::options::{Fallback, Options};
use crate::sys::Filesystem;
use crate::text::{chars_of, push_char, push_decimal, decimal};
use crate::walk::{io_error, plain_error, decision_model};

verus! {

/// The resolved inputs of a clone, as checked before anything is created.
#[derive(Debug, Clone)]
pub struct Plan {
    pub source: String,
    pub destination: String,
    /// Source and destination parent are on different filesystems.
    pub cross_filesystem: bool,
    pub filesystem: Filesystem,
}

/// The plain-value model of a [`Plan`].
pub struct PlanModel {
    pub source: Seq<char>,
    pub destination: Seq<char>,
    pub cross_filesystem: bool,
    pub available_bytes: u64,
    pub fs_type: Seq<char>,
}

impl View for Plan {
    type V = PlanModel;

    open spec fn view(&self) -> PlanModel {
        PlanModel {
            source: self.source@,
            destination: self.destination@,
            cross_filesystem: self.cross_filesystem,
            available_bytes: self.filesystem.available_bytes,
            fs_type: self.filesystem.fs_type@,
        }
    }
}

/// What is read of a directory the plan names: its type and identity.
#[derive(Clone, Copy, Debug, PartialEq, Eq, Structural)]
pub struct NodeFacts {
    pub is_dir: bool,
    pub dev: u64,
    pub ino: u64,
}

/// What is read about the destination once its parent is resolved.
#[derive(Debug)]
pub struct TargetFacts {
    /// Something (of any type, even a dangling link) is at the destination.
    pub exists: bool,
    /// The destination path lies under the source path, as
    /// [`destination_under`] decides it.
    pub under_source: bool,
    /// The identities `(dev, ino)` of the parent and each of its ancestors
    /// that could be read.
    pub ancestors: Vec<(u64, u64)>,
    /// The filesystem holding the parent.
    pub filesystem: Result<Filesystem, IoFailure>,
}

/// The last component of a path, as `Path::file_name` gives it.
pub uninterp spec fn spec_file_name(path: Seq<char>) -> Option<Seq<char>>;

/// The path without its last component, as `Path::parent` gives it.
pub uninterp spec fn spec_parent(path: Seq<char>) -> Option<Seq<char>>;

/// Whether `path` starts with the components of `base`, as
/// `Path::starts_with` decides it.
pub uninterp spec fn spec_starts_with(path: Seq<char>, base: Seq<char>) -> bool;

/// `name` adjoined to `base`, as `Path::join` does it on Unix: an absolute
/// name replaces the base; otherwise a `/` goes between them unless the base
/// is empty or already ends with one.
pub open spec fn joined_path(base: Seq<char>, name: Seq<char>) -> Seq<char> {
    if name.len() > 0 && name[0] == '/' {
        name
    } else if base.len() == 0 || base.last() == '/' {
        base + name
    } else {
        base + seq!['/'] + name
    }
}

/// `Path::file_name` of `path`.
#[verifier::external_body]
fn file_name_of(path: &str) -> (r: Option<String>)
    ensures
        opt_view(r) == spec_file_name(path@),
{
    match Path::new(path).file_name() {
        Some(name) => Some(name.to_string_lossy().into_owned()),
        None => None,
    }
}

/// `Path::parent` of `path`.
#[verifier::external_body]
fn parent_of(path: &str) -> (r: Option<String>)
    ensures
        opt_view(r) == spec_parent(path@),
{
    match Path::new(path).parent() {
        Some(parent) => Some(parent.to_string_lossy().into_owned()),
        None => None,
    }
}

/// `Path::starts_with` of `path` and `base`.
#[verifier::external_body]
fn path_starts_with(path: &str, base: &str) -> (r: bool)
    ensures
        r == spec_starts_with(path@, base@),
{
    Path::new(path).starts_with(base)
}

/// The verdict on resolving the source path `given`: a missing source is an
/// invalid source, any other failure is reported as it came.
pub open spec fn source_verdict(given: Seq<char>, canonical: Result<Seq<char>, IoFailureModel>) -> Result<
    Seq<char>,
    ErrorModel,
> {
    match canonical {
        Ok(c) => Ok(c),
        Err(f) => if f.kind == IoErrorKind::NotFound {
            Err(plain_error(ErrorKind::InvalidSource, given, "source directory does not exist"@))
        } else {
            Err(io_error(given, f))
        },
    }
}

/// The verdict on the metadata of the resolved source: it must be a directory.
pub open spec fn source_kind_verdict(source: Seq<char>, meta: Result<NodeFacts, IoFailureModel>) -> Result<
    NodeFacts,
    ErrorModel,
> {
    match meta {
        Err(f) => Err(io_error(source, f)),
        Ok(m) => if m.is_dir {
            Ok(m)
        } else {
            Err(plain_error(ErrorKind::InvalidSource, source, "source is not a directory"@))
        },
    }
}

/// The destination's name and the directory it goes in, from the name and
/// the parent its path has: the name must be a new entry (not `.` or `..`);
/// a destination without a parent goes in `.`.
pub open spec fn parts_of(destination: Seq<char>, name: Option<Seq<char>>, parent: Option<Seq<char>>) -> Result<
    (Seq<char>, Seq<char>),
    ErrorModel,
> {
    match name {
        Some(n) => if n != "."@ && n != ".."@ {
            Ok(
                (
                    n,
                    match parent {
                        Some(p) => if p.len() > 0 {
                            p
                        } else {
                            "."@
                        },
                        None => "."@,
                    },
                ),
            )
        } else {
            Err(
                plain_error(
                    ErrorKind::InvalidDestination,
                    destination,
                    "destination must name a new entry"@,
                ),
            )
        },
        None => Err(
            plain_error(
                ErrorKind::InvalidDestination,
                destination,
                "destination must name a new entry"@,
            ),
        ),
    }
}

/// The destination's name and the directory it goes in, as its path gives them.
pub open spec fn parts_verdict(destination: Seq<char>) -> Result<(Seq<char>, Seq<char>), ErrorModel> {
    parts_of(destination, spec_file_name(destination), spec_parent(destination))
}

/// The verdict on resolving the destination's parent `given`.
pub open spec fn parent_verdict(given: Seq<char>, canonical: Result<Seq<char>, IoFailureModel>) -> Result<
    Seq<char>,
    ErrorModel,
> {
    match canonical {
        Ok(c) => Ok(c),
        Err(f) => if f.kind == IoErrorKind::NotFound {
            Err(
                plain_error(
                    ErrorKind::InvalidDestination,
                    given,
                    "parent directory of destination does not exist"@,
                ),
            )
        } else {
            Err(io_error(given, f))
        },
    }
}

/// The verdict on the metadata of the resolved parent: it must be a directory.
pub open spec fn parent_kind_verdict(parent: Seq<char>, meta: Result<NodeFacts, IoFailureModel>) -> Result<
    NodeFacts,
    ErrorModel,
> {
    match meta {
        Err(f) => Err(io_error(parent, f)),
        Ok(m) => if m.is_dir {
            Ok(m)
        } else {
            Err(
                plain_error(
                    ErrorKind::InvalidDestination,
                    parent,
                    "parent of destination is not a directory"@,
                ),
            )
        },
    }
}

/// Whether the destination lies inside the source: by path, or because the
/// source directory itself is the parent or one of its ancestors.
pub open spec fn is_nested(under_source: bool, ancestors: Seq<(u64, u64)>, source: NodeFacts) -> bool {
    under_source || ancestors.contains((source.dev, source.ino))
}

/// The last checks on the `destination` in `parent`, in order: it must not exist, must not lie
/// inside the source, must be on the source's filesystem unless bytes may be
/// copied, and its filesystem must have `min_free_bytes` available.
pub open spec fn target_verdict(
    source: Seq<char>,
    source_facts: NodeFacts,
    parent: Seq<char>,
    parent_facts: NodeFacts,
    destination: Seq<char>,
    exists: bool,
    under_source: bool,
    ancestors: Seq<(u64, u64)>,
    filesystem: Result<(u64, Seq<char>), IoFailureModel>,
    fallback: Fallback,
    min_free_bytes: u64,
) -> Result<PlanModel, ErrorModel> {
    let cross = source_facts.dev != parent_facts.dev;
    if exists {
        Err(
            plain_error(
                ErrorKind::DestinationExists,
                destination,
                "destination exists; clonedir never overwrites or merges into it"@,
            ),
        )
    } else if is_nested(under_source, ancestors, source_facts) {
        Err(plain_error(ErrorKind::Nested, destination, "destination lies inside the source"@))
    } else if cross && fallback == Fallback::Fail {
        Err(
            plain_error(
                ErrorKind::CrossFilesystem,
                destination,
                "source and destination are on different filesystems, so nothing can be cloned; pass the copy fallback to copy bytes"@,
            ),
        )
    } else {
        match filesystem {
            Err(f) => Err(io_error(parent, f)),
            Ok((available, fs_type)) => if available < min_free_bytes {
                Err(
                    plain_error(
                        ErrorKind::InsufficientSpace,
                        parent,
                        decimal(available as nat) + " bytes available, below the "@ + decimal(
                            min_free_bytes as nat,
                        ) + " byte floor"@,
                    ),
                )
            } else {
                Ok(
                    PlanModel {
                        source,
                        destination,
                        cross_filesystem: cross,
                        available_bytes: available,
                        fs_type,
                    },
                )
            },
        }
    }
}

/// The model of a path resolution.
pub open spec fn resolved_model(r: Result<String, IoFailure>) -> Result<Seq<char>, IoFailureModel> {
    match r {
        Ok(s) => Ok(s@),
        Err(f) => Err(f@),
    }
}

/// The model of a metadata read.
pub open spec fn node_model(r: Result<NodeFacts, IoFailure>) -> Result<NodeFacts, IoFailureModel> {
    match r {
        Ok(m) => Ok(m),
        Err(f) => Err(f@),
    }
}

/// The model of a filesystem query.
pub open spec fn filesystem_model(r: Result<Filesystem, IoFailure>) -> Result<(u64, Seq<char>), IoFailureModel> {
    match r {
        Ok(fs) => Ok((fs.available_bytes, fs.fs_type@)),
        Err(f) => Err(f@),
    }
}

/// The model of a decision that yields a string.
pub open spec fn text_decision(r: Result<String, Error>) -> Result<Seq<char>, ErrorModel> {
    match r {
        Ok(s) => Ok(s@),
        Err(e) => Err(e@),
    }
}

/// Decides on the resolution of the source path `given`.
pub fn resolve_source(given: &str, canonical: Result<String, IoFailure>) -> (r: Result<String, Error>)
    ensures
        text_decision(r) == source_verdict(given@, resolved_model(canonical)),
{
    match canonical {
        Ok(c) => Ok(c),
        Err(f) => {
            if f.kind == IoErrorKind::NotFound {
                Err(Error::new(ErrorKind::InvalidSource, Some(given), "source directory does not exist".to_owned()))
            } else {
                Err(Error::io(given, f))
            }
        },
    }
}

/// Decides on the metadata of the resolved `source`.
pub fn check_source(source: &str, meta: Result<NodeFacts, IoFailure>) -> (r: Result<NodeFacts, Error>)
    ensures
        decision_model(r) == source_kind_verdict(source@, node_model(meta)),
{
    match meta {
        Err(f) => Err(Error::io(source, f)),
        Ok(m) => {
            if m.is_dir {
                Ok(m)
            } else {
                Err(Error::new(ErrorKind::InvalidSource, Some(source), "source is not a directory".to_owned()))
            }
        },
    }
}

/// The model of a decision that yields two strings.
pub open spec fn pair_decision(r: Result<(String, String), Error>) -> Result<(Seq<char>, Seq<char>), ErrorModel> {
    match r {
        Ok((a, b)) => Ok((a@, b@)),
        Err(e) => Err(e@),
    }
}

/// Decides on the `name` and the `parent` the path `destination` has.
pub fn split_destination(destination: &str, name: Option<String>, parent: Option<String>) -> (r: Result<
    (String, String),
    Error,
>)
    ensures
        pair_decision(r) == parts_of(destination@, opt_view(name), opt_view(parent)),
{
    let name = match name {
        Some(n) => n,
        None => {
            return Err(Error::new(ErrorKind::InvalidDestination, Some(destination), "destination must name a new entry".to_owned()));
        },
    };
    if crate::text::str_eq(name.as_str(), ".") || crate::text::str_eq(name.as_str(), "..") {
        return Err(Error::new(ErrorKind::InvalidDestination, Some(destination), "destination must name a new entry".to_owned()));
    }
    let parent = match parent {
        Some(p) => {
            if p.as_str().is_empty() {
                ".".to_owned()
            } else {
                p
            }
        },
        None => ".".to_owned(),
    };
    Ok((name, parent))
}

/// Splits `destination` into the name of the new entry and the directory
/// it goes in.
pub fn destination_parts(destination: &str) -> (r: Result<(String, String), Error>)
    ensures
        pair_decision(r) == parts_verdict(destination@),
{
    split_destination(destination, file_name_of(destination), parent_of(destination))
}

/// Decides on the resolution of the destination's parent `given`.
pub fn resolve_parent(given: &str, canonical: Result<String, IoFailure>) -> (r: Result<String, Error>)
    ensures
        text_decision(r) == parent_verdict(given@, resolved_model(canonical)),
{
    match canonical {
        Ok(c) => Ok(c),
        Err(f) => {
            if f.kind == IoErrorKind::NotFound {
                Err(Error::new(ErrorKind::InvalidDestination, Some(given), "parent directory of destination does not exist".to_owned()))
            } else {
                Err(Error::io(given, f))
            }
        },
    }
}

/// Decides on the metadata of the resolved `parent`.
pub fn check_parent(parent: &str, meta: Result<NodeFacts, IoFailure>) -> (r: Result<NodeFacts, Error>)
    ensures
        decision_model(r) == parent_kind_verdict(parent@, node_model(meta)),
{
    match meta {
        Err(f) => Err(Error::io(parent, f)),
        Ok(m) => {
            if m.is_dir {
                Ok(m)
            } else {
                Err(Error::new(ErrorKind::InvalidDestination, Some(parent), "parent of destination is not a directory".to_owned()))
            }
        },
    }
}

/// The resolved destination: `name` in the resolved `parent`.
pub fn destination_in(parent: &str, name: &str) -> (r: String)
    ensures
        r@ == joined_path(parent@, name@),
{
    let n = chars_of(name);
    if n.len() > 0 && n[0] == '/' {
        return name.to_owned();
    }
    let b = chars_of(parent);
    let mut r = parent.to_owned();
    if b.len() > 0 && b[b.len() - 1] != '/' {
        push_char(&mut r, '/');
    }
    r.append(name);
    assert(r@ =~= joined_path(parent@, name@));
    r
}

/// Whether the path `destination` lies under the path `source`, component
/// by component.
pub fn destination_under(destination: &str, source: &str) -> (r: bool)
    ensures
        r == spec_starts_with(destination@, source@),
{
    path_starts_with(destination, source)
}

/// Whether `(dev, ino)` is among `ids`.
fn contains_identity(ids: &[(u64, u64)], dev: u64, ino: u64) -> (r: bool)
    ensures
        r == ids@.contains((dev, ino)),
{
    let mut i: usize = 0;
    while i < ids.len()
        invariant
            i <= ids@.len(),
            forall|k: int| 0 <= k < i ==> ids@[k] != (dev, ino),
        decreases ids@.len() - i,
    {
        let (d, n) = ids[i];
        if d == dev && n == ino {
            assert(ids@[i as int] == (dev, ino));
            return true;
        }
        i = i + 1;
    }
    false
}

/// The model of a plan decision.
pub open spec fn plan_decision(r: Result<Plan, Error>) -> Result<PlanModel, ErrorModel> {
    match r {
        Ok(p) => Ok(p@),
        Err(e) => Err(e@),
    }
}

/// Makes the last checks on `destination`, the new entry in `parent`, and,
/// when they pass, the plan.
pub fn check_target(
    source: String,
    source_facts: NodeFacts,
    parent: &str,
    parent_facts: NodeFacts,
    destination: String,
    facts: TargetFacts,
    options: &Options,
) -> (r: Result<Plan, Error>)
    ensures
        plan_decision(r) == target_verdict(
            source@,
            source_facts,
            parent@,
            parent_facts,
            destination@,
            facts.exists,
            facts.under_source,
            facts.ancestors@,
            filesystem_model(facts.filesystem),
            options.fallback,
            options.min_free_bytes,
        ),
{
    if facts.exists {
        return Err(Error::new(ErrorKind::DestinationExists, Some(destination.as_str()), "destination exists; clonedir never overwrites or merges into it".to_owned()));
    }
    if facts.under_source || contains_identity(&facts.ancestors, source_facts.dev, source_facts.ino) {
        return Err(Error::new(ErrorKind::Nested, Some(destination.as_str()), "destination lies inside the source".to_owned()));
    }
    let cross = source_facts.dev != parent_facts.dev;
    if cross && options.fallback == Fallback::Fail {
        return Err(Error::new(
            ErrorKind::CrossFilesystem,
            Some(destination.as_str()),
            "source and destination are on different filesystems, so nothing can be cloned; pass the copy fallback to copy bytes".to_owned(),
        ));
    }
    let filesystem = match facts.filesystem {
        Err(f) => {
            return Err(Error::io(parent, f));
        },
        Ok(fs) => fs,
    };
    if filesystem.available_bytes < options.min_free_bytes {
        let mut detail = String::new();
        push_decimal(&mut detail, filesystem.available_bytes);
        detail.append(" bytes available, below the ");
        push_decimal(&mut detail, options.min_free_bytes);
        detail.append(" byte floor");
        let e = Error::new(ErrorKind::InsufficientSpace, Some(parent), detail);
        assert(e@.detail =~= decimal(filesystem.available_bytes as nat) + " bytes available, below the "@ + decimal(
            options.min_free_bytes as nat,
        ) + " byte floor"@);
        return Err(e);
    }
    Ok(Plan { source, destination, cross_filesystem: cross, filesystem })
}

// ------------------------------------------------------------------- laws

/// An existing destination is never replaced or merged into: whatever else
/// holds, a destination where something already is is refused as existing.
pub proof fn lemma_existing_destination_is_refused(
    source: Seq<char>,
    source_facts: NodeFacts,
    parent: Seq<char>,
    parent_facts: NodeFacts,
    destination: Seq<char>,
    under_source: bool,
    ancestors: Seq<(u64, u64)>,
    filesystem: Result<(u64, Seq<char>), IoFailureModel>,
    fallback: Fallback,
    min_free_bytes: u64,
)
    ensures
        target_verdict(
            source,
            source_facts,
            parent,
            parent_facts,
            destination,
            true,
            under_source,
            ancestors,
            filesystem,
            fallback,
            min_free_bytes,
        ) matches Err(e) && e.kind == ErrorKind::DestinationExists,
{
}

/// A plan passes only for a new destination outside the source, on the
/// source's filesystem unless bytes may be copied, whose filesystem has the
/// floor available; the plan then says how much is.
pub proof fn lemma_a_plan_passes_only_when_safe(
    source: Seq<char>,
    source_facts: NodeFacts,
    parent: Seq<char>,
    parent_facts: NodeFacts,
    destination: Seq<char>,
    exists: bool,
    under_source: bool,
    ancestors: Seq<(u64, u64)>,
    filesystem: Result<(u64, Seq<char>), IoFailureModel>,
    fallback: Fallback,
    min_free_bytes: u64,
)
    requires
        target_verdict(
            source,
            source_facts,
            parent,
            parent_facts,
            destination,
            exists,
            under_source,
            ancestors,
            filesystem,
            fallback,
            min_free_bytes,
        ) is Ok,
    ensures
        !exists,
        !under_source,
        !ancestors.contains((source_facts.dev, source_facts.ino)),
        source_facts.dev != parent_facts.dev ==> fallback == Fallback::Copy,
        filesystem matches Ok((available, _)) && available >= min_free_bytes,
        target_verdict(
            source,
            source_facts,
            parent,
            parent_facts,
            destination,
            exists,
            under_source,
            ancestors,
            filesystem,
            fallback,
            min_free_bytes,
        )->Ok_0.available_bytes >= min_free_bytes,
{
}

} // verus!
