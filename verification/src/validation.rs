//! Path validators.
//!
//! A path is judged in two steps. Its text is judged by
//! [`validate_unix_path`], which touches no file system. Whether it exists
//! or can be written is judged from what the caller read from the file
//! system and hands in as a [`PathStatus`]: the library itself performs no
//! I/O, so every verdict is a function of the arguments. Which reads are
//! needed, and in which order, is said by [`next_existing_path_step`] and
//! [`next_writable_path_step`].

use vstd::prelude::*;
use crate::error::FirecrackerError;
use crate::report::{FieldError, ValidationError, ValidationErrors};
use crate::text::chars_of;

verus! {

/// The owner-write bit of a Unix file mode.
pub const OWNER_WRITE: u32 = 0o200;

/// Why a path was rejected.
#[derive(Clone, Copy, Debug, PartialEq, Eq, Structural)]
pub enum PathError {
    /// The path is the empty string.
    EmptyPath,
    /// The path does not start with `/`.
    NotAbsolute,
    /// The path holds a NUL character or a `..` segment.
    IllegalSegment,
    /// Nothing exists at the path.
    PathNotFound,
    /// The path exists and its owner may not write to it.
    NotWritable,
    /// The path does not exist, and neither does its parent directory.
    ParentMissing,
    /// The path does not exist and the owner of its parent directory may
    /// not write to that directory.
    ParentNotWritable,
}

/// What one metadata read told about a path.
#[derive(Clone, Copy, Debug, PartialEq, Eq, Structural)]
pub enum PathStatus {
    /// No entry exists at the path.
    Missing,
    /// An entry exists, with these permission bits.
    Present { mode: u32 },
}

impl PathStatus {
    /// Whether an entry exists.
    pub open spec fn present(self) -> bool {
        self is Present
    }

    /// Whether an entry exists that its owner may write to.
    pub open spec fn owner_writable(self) -> bool {
        match self {
            PathStatus::Missing => false,
            PathStatus::Present { mode } => mode & OWNER_WRITE != 0,
        }
    }

    /// Whether an entry exists.
    pub fn is_present(&self) -> (b: bool)
        ensures
            b == self.present(),
    {
        match self {
            PathStatus::Missing => false,
            PathStatus::Present { .. } => true,
        }
    }

    /// Whether an entry exists that its owner may write to.
    pub fn is_owner_writable(&self) -> (b: bool)
        ensures
            b == self.owner_writable(),
    {
        match self {
            PathStatus::Missing => false,
            PathStatus::Present { mode } => *mode & OWNER_WRITE != 0,
        }
    }
}

/// What the file system told about a path that is to be written: the
/// status of the path itself and that of the directory that holds it.
#[derive(Clone, Copy, Debug, PartialEq, Eq, Structural)]
pub struct WriteStatus {
    pub target: PathStatus,
    pub parent: PathStatus,
}

impl WriteStatus {
    /// Whether writing can succeed: the path exists and its owner may
    /// write to it, or it does not exist and its parent directory exists
    /// and may be written to by its owner.
    pub open spec fn writable(self) -> bool {
        if self.target.present() {
            self.target.owner_writable()
        } else {
            self.parent.present() && self.parent.owner_writable()
        }
    }
}

/// Whether `s` holds a NUL character.
pub open spec fn has_nul(s: Seq<char>) -> bool {
    exists|i: int| 0 <= i < s.len() && s[i] == '\0'
}

/// Whether a segment of `s` (a maximal run of characters other than `/`)
/// starts at `i` and is exactly `..`.
pub open spec fn parent_segment_at(s: Seq<char>, i: int) -> bool {
    &&& 0 <= i
    &&& i + 2 <= s.len()
    &&& s[i] == '.'
    &&& s[i + 1] == '.'
    &&& (i == 0 || s[i - 1] == '/')
    &&& (i + 2 == s.len() || s[i + 2] == '/')
}

/// Whether some segment of `s` is `..`.
pub open spec fn has_parent_segment(s: Seq<char>) -> bool {
    exists|i: int| parent_segment_at(s, i)
}

/// The verdict on the text of a path: the first of the three defects that
/// it shows, or `Ok`.
pub open spec fn unix_path_verdict(s: Seq<char>) -> Result<(), PathError> {
    if s.len() == 0 {
        Err(PathError::EmptyPath)
    } else if s[0] != '/' {
        Err(PathError::NotAbsolute)
    } else if has_nul(s) || has_parent_segment(s) {
        Err(PathError::IllegalSegment)
    } else {
        Ok(())
    }
}

/// Whether `s` is a well-formed absolute Unix path: not empty, starting
/// with `/`, without a NUL character and without a `..` segment.
pub open spec fn is_unix_path(s: Seq<char>) -> bool {
    &&& s.len() > 0
    &&& s[0] == '/'
    &&& !has_nul(s)
    &&& !has_parent_segment(s)
}

/// The verdict on a path that must exist.
pub open spec fn existing_path_verdict(s: Seq<char>, status: PathStatus) -> Result<(), PathError> {
    match unix_path_verdict(s) {
        Err(e) => Err(e),
        Ok(_) => if status.present() {
            Ok(())
        } else {
            Err(PathError::PathNotFound)
        },
    }
}

/// The verdict on a path that is to be written: `target` is the status of
/// the path itself, `parent` that of the directory that holds it.
pub open spec fn writable_path_verdict(
    s: Seq<char>,
    target: PathStatus,
    parent: PathStatus,
) -> Result<(), PathError> {
    match unix_path_verdict(s) {
        Err(e) => Err(e),
        Ok(_) => if target.present() {
            if target.owner_writable() {
                Ok(())
            } else {
                Err(PathError::NotWritable)
            }
        } else if !parent.present() {
            Err(PathError::ParentMissing)
        } else if parent.owner_writable() {
            Ok(())
        } else {
            Err(PathError::ParentNotWritable)
        },
    }
}

/// What a path validator needs next from the file system.
#[derive(Clone, Copy, Debug, PartialEq, Eq)]
pub enum PathStep {
    /// Nothing more has to be read: this is the verdict.
    Finished(Result<(), PathError>),
    /// The status of the path itself has to be read.
    ReadTarget,
    /// The status of the directory that holds the path has to be read.
    ReadParent,
}

/// The next step for a path that must exist, when `status` is what has
/// been read so far: a path whose text is refused needs no read at all.
pub open spec fn existing_path_step(s: Seq<char>, status: Option<PathStatus>) -> PathStep {
    match unix_path_verdict(s) {
        Err(e) => PathStep::Finished(Err(e)),
        Ok(_) => match status {
            None => PathStep::ReadTarget,
            Some(known) => PathStep::Finished(existing_path_verdict(s, known)),
        },
    }
}

/// The next step for a path that is to be written, when `target` and
/// `parent` are what has been read so far: the path itself is read first,
/// and its parent directory only where nothing exists at the path.
pub open spec fn writable_path_step(
    s: Seq<char>,
    target: Option<PathStatus>,
    parent: Option<PathStatus>,
) -> PathStep {
    match unix_path_verdict(s) {
        Err(e) => PathStep::Finished(Err(e)),
        Ok(_) => match target {
            None => PathStep::ReadTarget,
            Some(known) => if known.present() {
                PathStep::Finished(writable_path_verdict(s, known, PathStatus::Missing))
            } else {
                match parent {
                    None => PathStep::ReadParent,
                    Some(above) => PathStep::Finished(writable_path_verdict(s, known, above)),
                }
            },
        },
    }
}

/// A finished step is the verdict, whatever the reads that were not made
/// would have told: `target` and `parent` are any state of the file
/// system that agrees with what was read.
pub proof fn lemma_finished_step_is_the_verdict(
    s: Seq<char>,
    read_target: Option<PathStatus>,
    read_parent: Option<PathStatus>,
    target: PathStatus,
    parent: PathStatus,
)
    requires
        read_target matches Some(known) ==> known == target,
        read_parent matches Some(above) ==> above == parent,
    ensures
        existing_path_step(s, read_target) matches PathStep::Finished(r) ==> r
            == existing_path_verdict(s, target),
        writable_path_step(s, read_target, read_parent) matches PathStep::Finished(r) ==> r
            == writable_path_verdict(s, target, parent),
{
}

/// The reads come to an end: one read finishes a path that must exist, two
/// finish a path that is to be written; a refused text is finished without
/// any read, and nothing is asked for twice.
pub proof fn lemma_steps_come_to_an_end(
    s: Seq<char>,
    target: PathStatus,
    parent: PathStatus,
    read_parent: Option<PathStatus>,
)
    ensures
        existing_path_step(s, Some(target)) is Finished,
        writable_path_step(s, Some(target), Some(parent)) is Finished,
        !(writable_path_step(s, Some(target), read_parent) is ReadTarget),
        !(writable_path_step(s, None, read_parent) is ReadParent),
        !is_unix_path(s) ==> existing_path_step(s, None) is Finished && writable_path_step(
            s,
            None,
            None,
        ) is Finished,
{
}

/// Whether the characters `v` hold a NUL or a `..` segment.
fn has_illegal_segment(v: &Vec<char>) -> (found: bool)
    ensures
        found == (has_nul(v@) || has_parent_segment(v@)),
{
    let n = v.len();
    let mut i: usize = 0;
    while i < n
        invariant
            n == v.len(),
            i <= n,
            forall|j: int| 0 <= j < i ==> v@[j] != '\0',
            forall|j: int| 0 <= j < i ==> !parent_segment_at(v@, j),
        decreases n - i,
    {
        if v[i] == '\0' {
            return true;
        }
        if v[i] == '.' && n - i >= 2 && v[i + 1] == '.' && (i == 0 || v[i - 1] == '/') && (n - i
            == 2 || v[i + 2] == '/') {
            assert(parent_segment_at(v@, i as int));
            return true;
        }
        i += 1;
    }
    false
}

/// Judges the text of a path, without looking at any file system.
///
/// The empty string is `EmptyPath`; any other string that does not start
/// with `/` is `NotAbsolute`; an absolute path with a NUL character or a
/// `..` segment is `IllegalSegment`; every other string is accepted.
pub fn validate_unix_path(path: &str) -> (r: Result<(), PathError>)
    ensures
        r == unix_path_verdict(path@),
        r is Ok <==> is_unix_path(path@),
        path@.len() > 0 && path@[0] != '/' ==> r == Err::<(), PathError>(PathError::NotAbsolute),
        path@.len() > 0 && path@[0] == '/' && (has_nul(path@) || has_parent_segment(path@)) ==> r
            == Err::<(), PathError>(PathError::IllegalSegment),
{
    let v = chars_of(path);
    if v.len() == 0 {
        return Err(PathError::EmptyPath);
    }
    if v[0] != '/' {
        return Err(PathError::NotAbsolute);
    }
    if has_illegal_segment(&v) {
        return Err(PathError::IllegalSegment);
    }
    Ok(())
}

/// Judges a path that must exist: its text first, then `status`, which is
/// what a metadata read of the path told.
///
/// The path is accepted exactly when its text is a well-formed absolute
/// path and an entry exists there.
pub fn validate_existing_path(path: &str, status: PathStatus) -> (r: Result<(), PathError>)
    ensures
        r == existing_path_verdict(path@, status),
        r is Ok <==> is_unix_path(path@) && status.present(),
        !is_unix_path(path@) ==> r == unix_path_verdict(path@),
        is_unix_path(path@) && !status.present() ==> r == Err::<(), PathError>(
            PathError::PathNotFound,
        ),
{
    match validate_unix_path(path) {
        Err(e) => Err(e),
        Ok(_) => if status.is_present() {
            Ok(())
        } else {
            Err(PathError::PathNotFound)
        },
    }
}

/// Judges a path that is to be written: its text first, then `target`, the
/// status of the path itself, and, only where nothing exists there yet,
/// `parent`, the status of the directory that holds it.
///
/// A well-formed path is accepted exactly when it exists and its owner may
/// write to it, or it does not exist and its parent directory exists and
/// may be written to by its owner.
pub fn validate_writable_path(path: &str, target: PathStatus, parent: PathStatus) -> (r: Result<
    (),
    PathError,
>)
    ensures
        r == writable_path_verdict(path@, target, parent),
        !is_unix_path(path@) ==> r == unix_path_verdict(path@),
        is_unix_path(path@) ==> (r is Ok <==> (target.present() && target.owner_writable()) || (
        !target.present() && parent.present() && parent.owner_writable())),
        r is Ok <==> is_unix_path(path@) && (WriteStatus { target, parent }).writable(),
        is_unix_path(path@) && target.present() && !target.owner_writable() ==> r == Err::<
            (),
            PathError,
        >(PathError::NotWritable),
        is_unix_path(path@) && !target.present() && !parent.present() ==> r == Err::<(), PathError>(
            PathError::ParentMissing,
        ),
        is_unix_path(path@) && !target.present() && parent.present() && !parent.owner_writable()
            ==> r == Err::<(), PathError>(PathError::ParentNotWritable),
{
    match validate_unix_path(path) {
        Err(e) => Err(e),
        Ok(_) => if target.is_present() {
            if target.is_owner_writable() {
                Ok(())
            } else {
                Err(PathError::NotWritable)
            }
        } else if !parent.is_present() {
            Err(PathError::ParentMissing)
        } else if parent.is_owner_writable() {
            Ok(())
        } else {
            Err(PathError::ParentNotWritable)
        },
    }
}

/// Says what has to be read next to judge a path that must exist, when
/// `status` is what has been read so far.
pub fn next_existing_path_step(path: &str, status: Option<PathStatus>) -> (step: PathStep)
    ensures
        step == existing_path_step(path@, status),
{
    match validate_unix_path(path) {
        Err(e) => PathStep::Finished(Err(e)),
        Ok(_) => match status {
            None => PathStep::ReadTarget,
            Some(known) => PathStep::Finished(validate_existing_path(path, known)),
        },
    }
}

/// Says what has to be read next to judge a path that is to be written,
/// when `target` and `parent` are what has been read so far.
pub fn next_writable_path_step(
    path: &str,
    target: Option<PathStatus>,
    parent: Option<PathStatus>,
) -> (step: PathStep)
    ensures
        step == writable_path_step(path@, target, parent),
{
    match validate_unix_path(path) {
        Err(e) => PathStep::Finished(Err(e)),
        Ok(_) => match target {
            None => PathStep::ReadTarget,
            Some(known) => if known.is_present() {
                PathStep::Finished(validate_writable_path(path, known, PathStatus::Missing))
            } else {
                match parent {
                    None => PathStep::ReadParent,
                    Some(above) => PathStep::Finished(validate_writable_path(path, known, above)),
                }
            },
        },
    }
}

/// Asked twice about the same text, [`validate_unix_path`] answers the
/// same: its answer is a function of the text alone.
pub proof fn lemma_unix_path_verdict_repeats(
    path: Seq<char>,
    first: Result<(), PathError>,
    second: Result<(), PathError>,
)
    requires
        first == unix_path_verdict(path),
        second == unix_path_verdict(path),
    ensures
        first == second,
{
}

/// Asked twice about the same text and the same state of the file system,
/// [`validate_existing_path`] answers the same.
pub proof fn lemma_existing_path_verdict_repeats(
    path: Seq<char>,
    status: PathStatus,
    first: Result<(), PathError>,
    second: Result<(), PathError>,
)
    requires
        first == existing_path_verdict(path, status),
        second == existing_path_verdict(path, status),
    ensures
        first == second,
{
}

/// Asked twice about the same text and the same state of the file system,
/// [`validate_writable_path`] answers the same.
pub proof fn lemma_writable_path_verdict_repeats(
    path: Seq<char>,
    target: PathStatus,
    parent: PathStatus,
    first: Result<(), PathError>,
    second: Result<(), PathError>,
)
    requires
        first == writable_path_verdict(path, target, parent),
        second == writable_path_verdict(path, target, parent),
    ensures
        first == second,
{
}

/// The three validators agree on the text of a path: a path that is
/// accepted as existing or as writable is a well-formed absolute path, and
/// a path that is not well formed gets the same error from all three.
pub proof fn lemma_path_verdicts_agree_on_text(
    path: Seq<char>,
    target: PathStatus,
    parent: PathStatus,
)
    ensures
        unix_path_verdict(path) is Ok <==> is_unix_path(path),
        existing_path_verdict(path, target) is Ok ==> is_unix_path(path),
        writable_path_verdict(path, target, parent) is Ok ==> is_unix_path(path),
        !is_unix_path(path) ==> existing_path_verdict(path, target) == unix_path_verdict(path)
            && writable_path_verdict(path, target, parent) == unix_path_verdict(path),
{
}

impl PathError {
    /// The message that goes with this error.
    pub open spec fn message_text(self) -> &'static str {
        match self {
            PathError::EmptyPath => "Path cannot be empty",
            PathError::NotAbsolute => "Path must be absolute",
            PathError::IllegalSegment =>
                "Path cannot contain parent directory references or null characters",
            PathError::PathNotFound => "Path does not exist",
            PathError::NotWritable => "Path is not writable",
            PathError::ParentMissing => "Parent directory does not exist",
            PathError::ParentNotWritable => "Parent directory is not writable",
        }
    }

    /// The message that goes with this error.
    pub fn message(&self) -> (m: &'static str)
        ensures
            m == self.message_text(),
    {
        match self {
            PathError::EmptyPath => "Path cannot be empty",
            PathError::NotAbsolute => "Path must be absolute",
            PathError::IllegalSegment =>
                "Path cannot contain parent directory references or null characters",
            PathError::PathNotFound => "Path does not exist",
            PathError::NotWritable => "Path is not writable",
            PathError::ParentMissing => "Parent directory does not exist",
            PathError::ParentNotWritable => "Parent directory is not writable",
        }
    }
}

/// The error of a rejected path, as it is reported for a field.
pub open spec fn path_error(message: &'static str) -> ValidationError {
    ValidationError { code: "invalid_path", message: Some(message) }
}

/// What a path verdict means for the field that holds the path.
pub open spec fn path_outcome(verdict: Result<(), PathError>) -> Result<(), ValidationError> {
    match verdict {
        Ok(_) => Ok(()),
        Err(e) => Err(path_error(e.message_text())),
    }
}

/// An error with the code `invalid_path` and the given message.
pub fn path_validation_error(message: &'static str) -> (err: ValidationError)
    ensures
        err == path_error(message),
{
    ValidationError { code: "invalid_path", message: Some(message) }
}

/// Reports a rejected path as the one failure of a request: the aggregate
/// has one entry, for the field `path`.
pub fn validate_path(verdict: Result<(), PathError>) -> (r: Result<(), FirecrackerError>)
    ensures
        verdict is Ok <==> r is Ok,
        verdict matches Err(e) ==> (r matches Err(FirecrackerError::Validation(errors)) && errors@
            == seq![FieldError { field: "path", error: path_error(e.message_text()) }]),
{
    match verdict {
        Ok(_) => Ok(()),
        Err(e) => {
            let mut errors = ValidationErrors::new();
            errors.add("path", path_validation_error(e.message()));
            Err(FirecrackerError::Validation(errors))
        },
    }
}

/// Turns a path verdict into the outcome of a field check.
pub fn field_outcome(verdict: Result<(), PathError>) -> (r: Result<(), ValidationError>)
    ensures
        r == path_outcome(verdict),
{
    match verdict {
        Ok(_) => Ok(()),
        Err(e) => Err(path_validation_error(e.message())),
    }
}

} // verus!
