use media_mirror::entry_path::EntryPath;
use media_mirror::materialize::{
    after_effect, after_probe, first_command, Command, FileWrite, Probe,
};
use media_mirror::outcome::{ErrorSlot, FatalKind, Outcome};
use media_mirror::task::{classify, EntryKind, Task};

fn path(parts: &[&str]) -> EntryPath {
    EntryPath::new(parts.iter().map(|p| p.as_bytes().to_vec()).collect())
}

fn names(p: &EntryPath) -> Vec<String> {
    p.parts.iter().map(|c| String::from_utf8(c.clone()).unwrap()).collect()
}

/// Runs the commands of one task against fixed reports, returning every
/// command issued. Parent directories are always created successfully here.
fn drive(kind: EntryKind, probe: Probe, effect_ok: bool, times_ok: bool, keep: bool) -> Vec<Command> {
    let mut out = Vec::new();
    let mut cmd = first_command(kind);
    loop {
        out.push(cmd);
        cmd = match cmd {
            Command::OpenAndDecode => after_probe(probe),
            Command::PreserveTimes => after_effect(cmd, times_ok, keep),
            Command::CreateParentDirs(_) => after_effect(cmd, true, keep),
            Command::CreateDirAll
            | Command::SaveImage
            | Command::CopyBytes => {
                after_effect(cmd, effect_ok, keep)
            }
            Command::Finish(_) => break,
        };
    }
    out
}

#[test]
fn classify_flags() {
    assert_eq!(classify(true, false, false), EntryKind::File);
    assert_eq!(classify(false, true, false), EntryKind::DirLike);
    assert_eq!(classify(false, false, true), EntryKind::DirLike);
    assert_eq!(classify(false, false, false), EntryKind::Other);
    assert_eq!(classify(true, false, true), EntryKind::File);
}

#[test]
fn strip_and_join_paths() {
    let root = path(&["/", "src"]);
    let entry = path(&["/", "src", "sub", "c.png"]);
    assert!(entry.starts_with(&root));
    let rel = entry.strip_root(&root).unwrap();
    assert_eq!(names(&rel), vec!["sub", "c.png"]);
    let joined = path(&["/", "dst"]).join(&rel);
    assert_eq!(names(&joined), vec!["/", "dst", "sub", "c.png"]);
    assert_eq!(joined.len(), 4);
    assert_eq!(names(&joined.duplicate()), names(&joined));
}

#[test]
fn strip_compares_whole_components() {
    let root = path(&["/", "src"]);
    let entry = path(&["/", "srcx", "a"]);
    assert!(!entry.starts_with(&root));
    assert!(entry.strip_root(&root).is_none());
    assert!(path(&["/"]).strip_root(&root).is_none());
}

#[test]
fn root_maps_to_destination_root() {
    let root = path(&["/", "src"]);
    let t = Task::discover(&root, &path(&["/", "dst"]), path(&["/", "src"]), EntryKind::DirLike)
        .unwrap();
    assert_eq!(names(&t.destination), vec!["/", "dst"]);
    assert_eq!(names(&t.source), vec!["/", "src"]);
}

#[test]
fn entry_outside_root_is_fatal() {
    let r = Task::discover(
        &path(&["/", "src"]),
        &path(&["/", "dst"]),
        path(&["/", "other", "a.jpg"]),
        EntryKind::File,
    );
    assert!(matches!(r, Err(FatalKind::OutsideSourceRoot)));
}

#[test]
fn mixed_tree_is_mirrored() {
    let src = path(&["s"]);
    let dst = path(&["d"]);
    let cases: Vec<(Vec<&str>, EntryKind, Probe, Vec<&str>, Command)> = vec![
        (vec!["s"], EntryKind::DirLike, Probe::Decoded, vec!["d"], Command::CreateDirAll),
        (vec!["s", "a.jpg"], EntryKind::File, Probe::Decoded, vec!["d", "a.jpg"], Command::SaveImage),
        (vec!["s", "b.txt"], EntryKind::File, Probe::NotAnImage, vec!["d", "b.txt"], Command::CopyBytes),
        (vec!["s", "sub"], EntryKind::DirLike, Probe::Decoded, vec!["d", "sub"], Command::CreateDirAll),
        (
            vec!["s", "sub", "c.png"],
            EntryKind::File,
            Probe::Decoded,
            vec!["d", "sub", "c.png"],
            Command::SaveImage,
        ),
    ];
    for (entry, kind, probe, want_dest, want_cmd) in cases {
        let t = Task::discover(&src, &dst, path(&entry), kind).unwrap();
        assert_eq!(names(&t.destination), want_dest);
        let cmds = drive(t.kind, probe, true, true, false);
        assert!(cmds.contains(&want_cmd));
        if t.kind == EntryKind::File {
            let parents = cmds.iter().position(|c| matches!(c, Command::CreateParentDirs(_)));
            let write = cmds.iter().position(|c| *c == want_cmd);
            assert!(parents.unwrap() < write.unwrap());
        } else {
            assert!(!cmds.iter().any(|c| matches!(c, Command::CreateParentDirs(_))));
        }
        assert_eq!(*cmds.last().unwrap(), Command::Finish(Outcome::Done));
    }
}

#[test]
fn corrupt_image_is_copied() {
    let cmds = drive(EntryKind::File, Probe::NotAnImage, true, true, false);
    assert_eq!(
        cmds,
        vec![
            Command::OpenAndDecode,
            Command::CreateParentDirs(FileWrite::Copy),
            Command::CopyBytes,
            Command::Finish(Outcome::Done)
        ]
    );
}

#[test]
fn parent_dirs_failure_is_fatal() {
    assert_eq!(
        after_probe(Probe::Decoded),
        Command::CreateParentDirs(FileWrite::Reencode)
    );
    assert_eq!(
        after_effect(Command::CreateParentDirs(FileWrite::Copy), true, true),
        Command::CopyBytes
    );
    assert_eq!(
        after_effect(Command::CreateParentDirs(FileWrite::Reencode), false, false),
        Command::Finish(Outcome::Fatal(FatalKind::DirectoryCreate))
    );
}

#[test]
fn unreadable_file_is_skipped() {
    let cmds = drive(EntryKind::File, Probe::Unreadable, false, false, true);
    assert_eq!(cmds, vec![Command::OpenAndDecode, Command::Finish(Outcome::Skipped)]);
}

#[test]
fn other_entry_needs_nothing() {
    assert_eq!(first_command(EntryKind::Other), Command::Finish(Outcome::Done));
}

#[test]
fn write_failures_are_fatal() {
    assert_eq!(
        *drive(EntryKind::DirLike, Probe::Decoded, false, true, false).last().unwrap(),
        Command::Finish(Outcome::Fatal(FatalKind::DirectoryCreate))
    );
    assert_eq!(
        *drive(EntryKind::File, Probe::Decoded, false, true, false).last().unwrap(),
        Command::Finish(Outcome::Fatal(FatalKind::ImageWrite))
    );
    assert_eq!(
        *drive(EntryKind::File, Probe::NotAnImage, false, true, false).last().unwrap(),
        Command::Finish(Outcome::Fatal(FatalKind::Copy))
    );
}

#[test]
fn times_kept_when_asked() {
    assert_eq!(
        drive(EntryKind::File, Probe::Decoded, true, true, true),
        vec![
            Command::OpenAndDecode,
            Command::CreateParentDirs(FileWrite::Reencode),
            Command::SaveImage,
            Command::PreserveTimes,
            Command::Finish(Outcome::Done)
        ]
    );
    assert_eq!(
        *drive(EntryKind::File, Probe::NotAnImage, true, false, true).last().unwrap(),
        Command::Finish(Outcome::Fatal(FatalKind::Timestamps))
    );
    // directories get no times carried over
    assert_eq!(
        drive(EntryKind::DirLike, Probe::Decoded, true, false, true),
        vec![Command::CreateDirAll, Command::Finish(Outcome::Done)]
    );
}

#[test]
fn first_fatal_error_is_reported() {
    let mut slot: ErrorSlot<FatalKind> = ErrorSlot::new();
    assert!(slot.accepting());
    assert!(slot.record(FatalKind::Copy));
    assert!(!slot.accepting());
    assert!(!slot.record(FatalKind::DirectoryCreate));
    assert!(!slot.record(FatalKind::ImageWrite));
    assert_eq!(slot.into_result(), Err(FatalKind::Copy));
}

#[test]
fn run_without_fatal_succeeds() {
    let slot: ErrorSlot<FatalKind> = ErrorSlot::new();
    assert_eq!(slot.into_result(), Ok(()));
}
