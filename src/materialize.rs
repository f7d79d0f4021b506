use vstd::prelude::*;
use crate::outcome::{FatalKind, Outcome};
use crate::entry_path::{
    is_component_prefix, lemma_destinations_distinct, mapped_destination,
};
use crate::task::EntryKind;

verus! {

/// What opening and decoding a regular file reported.
#[derive(Clone, Copy, Debug, PartialEq, Eq, Structural)]
pub enum Probe {
    /// The file could not be opened.
    Unreadable,
    /// The file was opened, but its content did not decode as an image.
    NotAnImage,
    /// The file decoded to a bitmap.
    Decoded,
}

/// How a readable file reaches its destination.
#[derive(Clone, Copy, Debug, PartialEq, Eq, Structural)]
pub enum FileWrite {
    /// The decoded bitmap is encoded again.
    Reencode,
    /// The source's bytes are copied.
    Copy,
}

/// The next thing to do for a task.
#[derive(Clone, Copy, Debug, PartialEq, Eq, Structural)]
pub enum Command {
    /// Create the destination directory and all its missing ancestors.
    CreateDirAll,
    /// Open the source and try to decode it as an image.
    OpenAndDecode,
    /// Create the destination's parent directory and all its missing
    /// ancestors, before the file is written in the way given.
    CreateParentDirs(FileWrite),
    /// Encode the decoded bitmap to the destination, in the format that the
    /// destination's extension names.
    SaveImage,
    /// Copy the source's bytes to the destination.
    CopyBytes,
    /// Carry the source's access and modification times over to the destination.
    PreserveTimes,
    /// The task is over, with this outcome.
    Finish(Outcome),
}

/// The commands that write to the destination and report success or failure.
pub open spec fn is_effect(c: Command) -> bool {
    ||| c is CreateDirAll
    ||| c is CreateParentDirs
    ||| c is SaveImage
    ||| c is CopyBytes
    ||| c is PreserveTimes
}

/// The commands that produce the destination artifact.
pub open spec fn is_artifact(c: Command) -> bool {
    ||| c is CreateDirAll
    ||| c is SaveImage
    ||| c is CopyBytes
}

pub open spec fn first_command_of(kind: EntryKind) -> Command {
    match kind {
        EntryKind::File => Command::OpenAndDecode,
        EntryKind::DirLike => Command::CreateDirAll,
        EntryKind::Other => Command::Finish(Outcome::Done),
    }
}

pub open spec fn after_probe_of(probe: Probe) -> Command {
    match probe {
        Probe::Unreadable => Command::Finish(Outcome::Skipped),
        Probe::NotAnImage => Command::CreateParentDirs(FileWrite::Copy),
        Probe::Decoded => Command::CreateParentDirs(FileWrite::Reencode),
    }
}

/// The error that a failed effect stands for.
pub open spec fn fatal_of(c: Command) -> FatalKind {
    match c {
        Command::CreateDirAll => FatalKind::DirectoryCreate,
        Command::CreateParentDirs(_) => FatalKind::DirectoryCreate,
        Command::SaveImage => FatalKind::ImageWrite,
        Command::CopyBytes => FatalKind::Copy,
        _ => FatalKind::Timestamps,
    }
}

pub open spec fn after_effect_of(c: Command, succeeded: bool, keep_times: bool) -> Command {
    if !succeeded {
        Command::Finish(Outcome::Fatal(fatal_of(c)))
    } else if c == Command::CreateParentDirs(FileWrite::Reencode) {
        Command::SaveImage
    } else if c == Command::CreateParentDirs(FileWrite::Copy) {
        Command::CopyBytes
    } else if keep_times && (c is SaveImage || c is CopyBytes) {
        Command::PreserveTimes
    } else {
        Command::Finish(Outcome::Done)
    }
}

/// The first command for a task of the given kind: a file is probed, a
/// directory is created, anything else is done with at once.
pub fn first_command(kind: EntryKind) -> (r: Command)
    ensures
        r == first_command_of(kind),
{
    match kind {
        EntryKind::File => Command::OpenAndDecode,
        EntryKind::DirLike => Command::CreateDirAll,
        EntryKind::Other => Command::Finish(Outcome::Done),
    }
}

/// The command after a file was probed: an unreadable file is skipped; for
/// any other the destination's missing ancestors are created first, to be
/// followed by a re-encode of a decoded image or a byte copy of other content.
pub fn after_probe(probe: Probe) -> (r: Command)
    ensures
        r == after_probe_of(probe),
{
    match probe {
        Probe::Unreadable => Command::Finish(Outcome::Skipped),
        Probe::NotAnImage => Command::CreateParentDirs(FileWrite::Copy),
        Probe::Decoded => Command::CreateParentDirs(FileWrite::Reencode),
    }
}

/// The command after an effect was carried out: a failure is fatal; once the
/// parent directories stand the file is written; a written file gets its
/// times carried over where that is asked for; else the task is done.
pub fn after_effect(c: Command, succeeded: bool, keep_times: bool) -> (r: Command)
    requires
        is_effect(c),
    ensures
        r == after_effect_of(c, succeeded, keep_times),
{
    if !succeeded {
        let kind = match c {
            Command::CreateDirAll => FatalKind::DirectoryCreate,
            Command::CreateParentDirs(_) => FatalKind::DirectoryCreate,
            Command::SaveImage => FatalKind::ImageWrite,
            Command::CopyBytes => FatalKind::Copy,
            _ => FatalKind::Timestamps,
        };
        Command::Finish(Outcome::Fatal(kind))
    } else if let Command::CreateParentDirs(w) = c {
        match w {
            FileWrite::Reencode => Command::SaveImage,
            FileWrite::Copy => Command::CopyBytes,
        }
    } else if keep_times && (matches!(c, Command::SaveImage) || matches!(c, Command::CopyBytes)) {
        Command::PreserveTimes
    } else {
        Command::Finish(Outcome::Done)
    }
}

/// The commands issued for one task, in order, when the file probe reports
/// `probe`, creating a file's parent directories succeeds exactly when
/// `parents_ok`, the artifact's write succeeds exactly when `effect_ok`, and
/// the carrying over of times succeeds exactly when `times_ok`.
pub open spec fn task_commands(
    kind: EntryKind,
    probe: Probe,
    parents_ok: bool,
    effect_ok: bool,
    times_ok: bool,
    keep_times: bool,
) -> Seq<Command> {
    let c0 = first_command_of(kind);
    if c0 is OpenAndDecode {
        let c1 = after_probe_of(probe);
        if c1 is CreateParentDirs {
            let c2 = after_effect_of(c1, parents_ok, keep_times);
            if c2 is Finish {
                seq![c0, c1, c2]
            } else {
                let c3 = after_effect_of(c2, effect_ok, keep_times);
                if c3 is PreserveTimes {
                    seq![c0, c1, c2, c3, after_effect_of(c3, times_ok, keep_times)]
                } else {
                    seq![c0, c1, c2, c3]
                }
            }
        } else {
            seq![c0, c1]
        }
    } else if is_effect(c0) {
        seq![c0, after_effect_of(c0, effect_ok, keep_times)]
    } else {
        seq![c0]
    }
}

/// How many commands of `cs` produce a destination artifact.
pub open spec fn artifact_count(cs: Seq<Command>) -> nat
    decreases cs.len(),
{
    if cs.len() == 0 {
        0
    } else {
        artifact_count(cs.drop_last()) + if is_artifact(cs.last()) {
            1nat
        } else {
            0nat
        }
    }
}

/// Every task ends: its last command, and only its last, is a `Finish`.
pub proof fn lemma_every_task_finishes(
    kind: EntryKind,
    probe: Probe,
    parents_ok: bool,
    effect_ok: bool,
    times_ok: bool,
    keep_times: bool,
)
    ensures
        task_commands(kind, probe, parents_ok, effect_ok, times_ok, keep_times).last() is Finish,
        forall|i: int|
            0 <= i < task_commands(kind, probe, parents_ok, effect_ok, times_ok, keep_times).len() - 1
                ==> !(#[trigger] task_commands(
                kind,
                probe,
                parents_ok,
                effect_ok,
                times_ok,
                keep_times,
            )[i] is Finish),
{
}

/// A task produces at most one destination artifact: exactly one, a
/// directory, for a directory-like entry; exactly one, a file, for a
/// readable file whose parent directories could be created; none otherwise.
/// A directory is created as an artifact only for a directory-like entry.
pub proof fn lemma_one_artifact_per_entry(
    kind: EntryKind,
    probe: Probe,
    parents_ok: bool,
    effect_ok: bool,
    times_ok: bool,
    keep_times: bool,
)
    ensures
        artifact_count(task_commands(kind, probe, parents_ok, effect_ok, times_ok, keep_times))
            == if kind == EntryKind::DirLike || (kind == EntryKind::File && probe
            != Probe::Unreadable && parents_ok) {
            1nat
        } else {
            0nat
        },
        task_commands(kind, probe, parents_ok, effect_ok, times_ok, keep_times).contains(
            Command::CreateDirAll,
        ) <==> kind == EntryKind::DirLike,
{
    let cs = task_commands(kind, probe, parents_ok, effect_ok, times_ok, keep_times);
    reveal_with_fuel(artifact_count, 6);
    if kind == EntryKind::DirLike {
        assert(cs[0] == Command::CreateDirAll);
    }
    if cs.contains(Command::CreateDirAll) {
        let i = choose|i: int| 0 <= i < cs.len() && cs[i] == Command::CreateDirAll;
        assert(kind == EntryKind::DirLike);
    }
}

/// A file is written only after its destination's parent directory and all
/// missing ancestors were created, in a step of the task itself: the walk's
/// order is not relied on.
pub proof fn lemma_parents_before_file_write(
    kind: EntryKind,
    probe: Probe,
    parents_ok: bool,
    effect_ok: bool,
    times_ok: bool,
    keep_times: bool,
)
    ensures
        forall|i: int|
            #![trigger task_commands(kind, probe, parents_ok, effect_ok, times_ok, keep_times)[i]]
            0 <= i < task_commands(kind, probe, parents_ok, effect_ok, times_ok, keep_times).len()
                && (task_commands(kind, probe, parents_ok, effect_ok, times_ok, keep_times)[i] is SaveImage
                || task_commands(kind, probe, parents_ok, effect_ok, times_ok, keep_times)[i] is CopyBytes)
                ==> {
                &&& i == 2
                &&& task_commands(kind, probe, parents_ok, effect_ok, times_ok, keep_times)[1] is CreateParentDirs
                &&& parents_ok
            },
{
}

/// A readable file whose content is not an image is copied byte for byte
/// once its parent directories stand, and never re-encoded.
pub proof fn lemma_non_images_copied(
    parents_ok: bool,
    effect_ok: bool,
    times_ok: bool,
    keep_times: bool,
)
    ensures
        parents_ok ==> task_commands(
            EntryKind::File,
            Probe::NotAnImage,
            parents_ok,
            effect_ok,
            times_ok,
            keep_times,
        ).contains(Command::CopyBytes),
        !task_commands(
            EntryKind::File,
            Probe::NotAnImage,
            parents_ok,
            effect_ok,
            times_ok,
            keep_times,
        ).contains(Command::SaveImage),
{
    let cs = task_commands(
        EntryKind::File,
        Probe::NotAnImage,
        parents_ok,
        effect_ok,
        times_ok,
        keep_times,
    );
    if parents_ok {
        assert(cs[2] == Command::CopyBytes);
    }
}

/// A file that decodes is re-encoded once its parent directories stand, and
/// never copied.
pub proof fn lemma_images_reencoded(
    parents_ok: bool,
    effect_ok: bool,
    times_ok: bool,
    keep_times: bool,
)
    ensures
        parents_ok ==> task_commands(
            EntryKind::File,
            Probe::Decoded,
            parents_ok,
            effect_ok,
            times_ok,
            keep_times,
        ).contains(Command::SaveImage),
        !task_commands(
            EntryKind::File,
            Probe::Decoded,
            parents_ok,
            effect_ok,
            times_ok,
            keep_times,
        ).contains(Command::CopyBytes),
{
    let cs = task_commands(
        EntryKind::File,
        Probe::Decoded,
        parents_ok,
        effect_ok,
        times_ok,
        keep_times,
    );
    if parents_ok {
        assert(cs[2] == Command::SaveImage);
    }
}

/// A task whose directories or file cannot be written ends in the fatal
/// error of that write; one whose file cannot be opened is skipped, never
/// fatal.
pub proof fn lemma_write_failure_is_fatal(
    kind: EntryKind,
    probe: Probe,
    times_ok: bool,
    keep_times: bool,
)
    ensures
        kind == EntryKind::DirLike ==> task_commands(
            kind,
            probe,
            true,
            false,
            times_ok,
            keep_times,
        ).last() == Command::Finish(Outcome::Fatal(FatalKind::DirectoryCreate)),
        kind == EntryKind::File && probe != Probe::Unreadable ==> task_commands(
            kind,
            probe,
            false,
            true,
            times_ok,
            keep_times,
        ).last() == Command::Finish(Outcome::Fatal(FatalKind::DirectoryCreate)),
        kind == EntryKind::File && probe == Probe::Decoded ==> task_commands(
            kind,
            probe,
            true,
            false,
            times_ok,
            keep_times,
        ).last() == Command::Finish(Outcome::Fatal(FatalKind::ImageWrite)),
        kind == EntryKind::File && probe == Probe::NotAnImage ==> task_commands(
            kind,
            probe,
            true,
            false,
            times_ok,
            keep_times,
        ).last() == Command::Finish(Outcome::Fatal(FatalKind::Copy)),
        kind == EntryKind::File && probe == Probe::Unreadable ==> task_commands(
            kind,
            probe,
            false,
            false,
            times_ok,
            keep_times,
        ).last() == Command::Finish(Outcome::Skipped),
{
}

/// No duplication: two distinct entries under the source root go to two
/// distinct destinations, and each entry's task produces at most one
/// artifact there; exactly one where the entry is a file or directory-like,
/// every file opens, and no write fails. (An entry of another kind, such as
/// a socket, gets none.)
pub proof fn lemma_no_duplication(
    source_root: Seq<Seq<u8>>,
    destination_root: Seq<Seq<u8>>,
    a: Seq<Seq<u8>>,
    b: Seq<Seq<u8>>,
)
    requires
        is_component_prefix(source_root, a),
        is_component_prefix(source_root, b),
        a != b,
    ensures
        mapped_destination(source_root, destination_root, a) != mapped_destination(
            source_root,
            destination_root,
            b,
        ),
        forall|kind: EntryKind, probe: Probe, parents_ok: bool, effect_ok: bool, times_ok: bool, keep_times: bool|
            artifact_count(#[trigger] task_commands(kind, probe, parents_ok, effect_ok, times_ok, keep_times))
                <= 1,
        forall|kind: EntryKind, probe: Probe, times_ok: bool, keep_times: bool|
            kind != EntryKind::Other && probe != Probe::Unreadable ==> artifact_count(
                #[trigger] task_commands(kind, probe, true, true, times_ok, keep_times),
            ) == 1,
{
    lemma_destinations_distinct(source_root, destination_root, a, b);
    assert forall|kind: EntryKind, probe: Probe, parents_ok: bool, effect_ok: bool, times_ok: bool, keep_times: bool|
        artifact_count(#[trigger] task_commands(kind, probe, parents_ok, effect_ok, times_ok, keep_times))
            <= 1 by {
        lemma_one_artifact_per_entry(kind, probe, parents_ok, effect_ok, times_ok, keep_times);
    }
    assert forall|kind: EntryKind, probe: Probe, times_ok: bool, keep_times: bool|
        kind != EntryKind::Other && probe != Probe::Unreadable implies artifact_count(
            #[trigger] task_commands(kind, probe, true, true, times_ok, keep_times),
        ) == 1 by {
        lemma_one_artifact_per_entry(kind, probe, true, true, times_ok, keep_times);
    }
}

} // verus!
