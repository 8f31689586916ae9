use dirlist::collect::hidden_name;
use dirlist::collect::list_contents;
use dirlist::collect::Target;
use dirlist::item::Defaults;
use dirlist::item::EntryMetadata;
use dirlist::item::EntrySource;
use dirlist::item::FileTypeFlags;

fn config(all: bool, human_readable: bool) -> Defaults {
    Defaults { colourize: false, human_readable, long_form: false, all }
}

fn entry(name: &str, size: u64) -> EntrySource {
    EntrySource {
        path: format!("./{}", name),
        file_name: String::from(name),
        metadata: Some(EntryMetadata {
            kind: FileTypeFlags {
                socket: false,
                symlink: false,
                char_device: false,
                fifo: false,
                block_device: false,
                dir: false,
            },
            mode: 0o100644,
            uid: 4000000001,
            gid: 4000000002,
            nlink: 1,
            ctime: 0,
            size,
        }),
        canonical: Some(format!("/home/ann/{}", name)),
    }
}

fn unreadable(name: &str) -> EntrySource {
    EntrySource { metadata: None, ..entry(name, 0) }
}

fn names(collected: &dirlist::collect::Collected) -> Vec<String> {
    collected.items.iter().map(|i| i.file_name.clone()).collect()
}

#[test]
fn hidden_names_start_with_a_dot() {
    assert!(hidden_name(".bashrc"));
    assert!(hidden_name("."));
    assert!(hidden_name(".."));
    assert!(!hidden_name("bashrc"));
    assert!(!hidden_name("a.b"));
    assert!(!hidden_name(""));
    assert!(!hidden_name("é.txt"));
}

#[test]
fn hidden_entries_are_left_out() {
    let d = config(false, false);
    let dir = Target::Directory(vec![
        entry(".git", 1),
        entry("src", 2),
        entry(".env", 3),
        entry("Cargo.toml", 4),
        entry("a.b", 5),
    ]);
    let collected = list_contents(&dir, &d);
    assert_eq!(names(&collected), vec!["src", "Cargo.toml", "a.b"]);
    assert!(collected.failures.is_empty());
    assert!(collected.items.iter().all(|i| !i.file_name.starts_with('.')));
}

#[test]
fn all_entries_are_listed_when_asked_for() {
    let d = config(true, false);
    let dir = Target::Directory(vec![entry(".git", 1), entry("src", 2), entry(".env", 3)]);
    let collected = list_contents(&dir, &d);
    assert_eq!(names(&collected), vec![".git", "src", ".env"]);
}

#[test]
fn order_of_enumeration_is_kept() {
    let d = config(false, false);
    let dir = Target::Directory(vec![entry("zeta", 1), entry("alpha", 2), entry("mid", 3)]);
    assert_eq!(names(&list_contents(&dir, &d)), vec!["zeta", "alpha", "mid"]);
}

#[test]
fn empty_directory_yields_nothing() {
    let d = config(false, false);
    let collected = list_contents(&Target::Directory(Vec::new()), &d);
    assert!(collected.items.is_empty());
    assert!(collected.failures.is_empty());
}

#[test]
fn directory_of_hidden_entries_only_yields_nothing() {
    let d = config(false, false);
    let dir = Target::Directory(vec![entry(".a", 1), entry(".b", 2)]);
    let collected = list_contents(&dir, &d);
    assert!(collected.items.is_empty());
    assert!(collected.failures.is_empty());
}

#[test]
fn a_file_is_listed_by_itself_even_when_hidden() {
    let d = config(false, false);
    let collected = list_contents(&Target::File(entry(".bashrc", 10)), &d);
    assert_eq!(names(&collected), vec![".bashrc"]);
    assert_eq!(collected.items[0].path_disp, "./.bashrc");
    assert_eq!(collected.items[0].path_abs, "/home/ann/.bashrc");
}

#[test]
fn unreadable_entries_are_reported_and_skipped() {
    let d = config(false, false);
    let dir = Target::Directory(vec![
        entry("a", 1),
        unreadable("b"),
        entry("c", 3),
        unreadable(".hidden"),
        EntrySource { canonical: None, ..entry("d", 4) },
    ]);
    let collected = list_contents(&dir, &d);
    assert_eq!(names(&collected), vec!["a", "c"]);
    let failed: Vec<String> = collected.failures.iter().map(|f| f.path.clone()).collect();
    assert_eq!(failed, vec!["./b", "./d"]);
}

#[test]
fn an_unreadable_file_is_a_failure() {
    let d = config(false, false);
    let collected = list_contents(&Target::File(unreadable("x")), &d);
    assert!(collected.items.is_empty());
    assert_eq!(collected.failures.len(), 1);
    assert_eq!(collected.failures[0].path, "./x");
}

#[test]
fn sizes_of_a_directory_in_human_readable_form() {
    let d = config(false, true);
    let dir = Target::Directory(vec![
        entry("empty", 0),
        entry("almost", 1023),
        entry("kibi", 1024),
        entry("mebi", 1048576),
    ]);
    let collected = list_contents(&dir, &d);
    let sizes: Vec<String> = collected.items.iter().map(|i| i.size()).collect();
    assert_eq!(sizes, vec!["0B", "1023B", "1KiB", "1MiB"]);
}

#[test]
fn items_carry_the_configuration() {
    let d = config(true, true);
    let collected = list_contents(&Target::Directory(vec![entry("a", 1)]), &d);
    assert_eq!(*collected.items[0].defaults, d);
}
