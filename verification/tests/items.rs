use dirlist::colour::colourise;
use dirlist::colour::ColourTag;
use dirlist::colour::Hue;
use dirlist::identity::owner_name;
use dirlist::item::Defaults;
use dirlist::item::DeviceType;
use dirlist::item::DirectoryItem;
use dirlist::item::EntryMetadata;
use dirlist::item::EntrySource;
use dirlist::item::FileTypeFlags;
use nix::errno::Errno;

fn config(colourize: bool, human_readable: bool, long_form: bool) -> Defaults {
    Defaults { colourize, human_readable, long_form, all: false }
}

fn no_flags() -> FileTypeFlags {
    FileTypeFlags {
        socket: false,
        symlink: false,
        char_device: false,
        fifo: false,
        block_device: false,
        dir: false,
    }
}

fn metadata(mode: u32, size: u64) -> EntryMetadata {
    EntryMetadata { kind: no_flags(), mode, uid: 4000000001, gid: 4000000002, nlink: 3, ctime: 1431648000, size }
}

fn source(name: &str, metadata: Option<EntryMetadata>, canonical: Option<&str>) -> EntrySource {
    EntrySource {
        path: format!("work/{}", name),
        file_name: String::from(name),
        metadata,
        canonical: canonical.map(String::from),
    }
}

fn item<'a>(file_type: DeviceType, executable: bool, defaults: &'a Defaults) -> DirectoryItem<'a> {
    DirectoryItem {
        path_abs: String::from("/srv/work/notes"),
        path_disp: String::from("work/notes"),
        file_name: String::from("notes"),
        file_type,
        time: 0,
        nlink: 1,
        mode: if executable { 0o755 } else { 0o644 },
        group: String::from("staff"),
        size: 2048,
        user: String::from("ann"),
        executable,
        defaults,
    }
}

#[test]
fn owner_name_takes_the_name_that_was_found() {
    assert_eq!(owner_name(Ok(Some(String::from("ann"))), 1000), "ann");
    assert_eq!(owner_name(Ok(Some(String::new())), 1000), "");
}

#[test]
fn owner_name_falls_back_to_the_number() {
    assert_eq!(owner_name(Ok(None), 1000), "1000");
    assert_eq!(owner_name(Ok(None), 0), "0");
    assert_eq!(owner_name(Ok(None), u32::MAX), "4294967295");
    assert_eq!(owner_name(Err(Errno::EIO), 65534), "65534");
}

#[test]
fn with_owners_fills_every_field() {
    let d = config(true, false, false);
    let src = source("run.sh", Some(metadata(0o100755, 77)), Some("/srv/work/run.sh"));
    let item = DirectoryItem::with_owners(&src, Ok(Some(String::from("staff"))), Ok(None), &d)
        .expect("an entry with metadata and a canonical path");
    assert_eq!(item.path_abs, "/srv/work/run.sh");
    assert_eq!(item.path_disp, "work/run.sh");
    assert_eq!(item.file_name, "run.sh");
    assert_eq!(item.file_type, DeviceType::File);
    assert_eq!(item.time, 1431648000);
    assert_eq!(item.nlink, 3);
    assert_eq!(item.mode, 0o100755);
    assert_eq!(item.group, "staff");
    assert_eq!(item.user, "4000000001");
    assert_eq!(item.size, 77);
    assert!(item.executable);
    assert_eq!(*item.defaults, d);
}

#[test]
fn executable_follows_the_other_execute_bit() {
    let d = config(true, false, false);
    for (mode, expected) in [(0o644u32, false), (0o645, true), (0o750, false), (0o001, true), (0o776, false)] {
        let src = source("f", Some(metadata(mode, 1)), Some("/f"));
        let item = DirectoryItem::with_owners(&src, Ok(None), Ok(None), &d).expect("extractable");
        assert_eq!(item.executable, expected);
    }
}

#[test]
fn kind_comes_from_the_flags() {
    let d = config(true, false, false);
    let mut meta = metadata(0o777, 1);
    meta.kind = FileTypeFlags { symlink: true, dir: true, ..no_flags() };
    let src = source("link", Some(meta), Some("/target"));
    let item = DirectoryItem::with_owners(&src, Ok(None), Ok(None), &d).expect("extractable");
    assert_eq!(item.file_type, DeviceType::Symlink);
}

#[test]
fn missing_metadata_is_an_extraction_failure() {
    let d = config(true, false, false);
    let src = source("gone", None, Some("/srv/work/gone"));
    let err = DirectoryItem::with_owners(&src, Ok(None), Ok(None), &d).expect_err("no metadata");
    assert_eq!(err.path, "work/gone");
    let err = DirectoryItem::from_source(&src, &d).expect_err("no metadata");
    assert_eq!(err.path, "work/gone");
}

#[test]
fn missing_canonical_path_is_an_extraction_failure() {
    let d = config(true, false, false);
    let src = source("dangling", Some(metadata(0o777, 1)), None);
    let err = DirectoryItem::with_owners(&src, Ok(None), Ok(None), &d).expect_err("no canonical path");
    assert_eq!(err.path, "work/dangling");
    let err = DirectoryItem::from_source(&src, &d).expect_err("no canonical path");
    assert_eq!(err.path, "work/dangling");
}

#[test]
fn from_source_shows_unknown_owners_as_numbers() {
    let d = config(false, false, false);
    let src = source("a.txt", Some(metadata(0o100644, 12)), Some("/srv/work/a.txt"));
    let item = DirectoryItem::from_source(&src, &d).expect("extractable");
    assert_eq!(item.user, "4000000001");
    assert_eq!(item.group, "4000000002");
    assert_eq!(item.file_name, "a.txt");
    assert_eq!(item.path_abs, "/srv/work/a.txt");
    assert_eq!(item.size, 12);
    assert!(!item.executable);
}

#[test]
fn colour_by_kind() {
    let d = config(true, false, false);
    assert_eq!(item(DeviceType::Symlink, false, &d).pick_colour(), ColourTag::Bright(Hue::Cyan));
    assert_eq!(item(DeviceType::BlockDevice, false, &d).pick_colour(), ColourTag::Bright(Hue::Yellow));
    assert_eq!(item(DeviceType::CharDevice, false, &d).pick_colour(), ColourTag::Bright(Hue::Magenta));
    assert_eq!(item(DeviceType::Dir, false, &d).pick_colour(), ColourTag::Bright(Hue::Blue));
    assert_eq!(item(DeviceType::Fifo, true, &d).pick_colour(), ColourTag::Plain);
    assert_eq!(item(DeviceType::Socket, true, &d).pick_colour(), ColourTag::Plain);
    assert_eq!(item(DeviceType::File, true, &d).pick_colour(), ColourTag::Bright(Hue::Green));
    assert_eq!(item(DeviceType::File, false, &d).pick_colour(), ColourTag::Plain);
    assert_eq!(item(DeviceType::Dir, true, &d).pick_colour(), ColourTag::Bright(Hue::Blue));
}

#[test]
fn no_colour_when_colouring_is_off() {
    let d = config(false, false, false);
    for kind in [
        DeviceType::Symlink,
        DeviceType::BlockDevice,
        DeviceType::CharDevice,
        DeviceType::Dir,
        DeviceType::Fifo,
        DeviceType::Socket,
        DeviceType::File,
    ] {
        assert_eq!(item(kind, true, &d).pick_colour(), ColourTag::Plain);
    }
}

#[test]
fn display_path_adds_the_arrow_to_long_symlinks_only() {
    let long = config(false, false, true);
    let short = config(false, false, false);
    assert_eq!(
        item(DeviceType::Symlink, false, &long).display_path("LEAD"),
        "LEAD -> /srv/work/notes"
    );
    assert_eq!(item(DeviceType::Symlink, false, &short).display_path("LEAD"), "LEAD");
    assert_eq!(item(DeviceType::Dir, false, &long).display_path("LEAD"), "LEAD");
    assert_eq!(item(DeviceType::File, false, &long).display_path(""), "");
}

#[test]
fn file_path_without_colour() {
    let long = config(false, false, true);
    let short = config(false, false, false);
    assert_eq!(item(DeviceType::File, true, &short).file_path(), "notes");
    assert_eq!(item(DeviceType::File, true, &long).file_path(), "/srv/work/notes");
    assert_eq!(
        item(DeviceType::Symlink, false, &long).file_path(),
        "/srv/work/notes -> /srv/work/notes"
    );
    assert_eq!(item(DeviceType::Symlink, false, &short).file_path(), "notes");
}

#[test]
fn file_path_of_uncoloured_kinds_with_colouring_on() {
    let short = config(true, false, false);
    assert_eq!(item(DeviceType::Fifo, false, &short).file_path(), "notes");
    assert_eq!(item(DeviceType::Socket, false, &short).file_path(), "notes");
    assert_eq!(item(DeviceType::File, false, &short).file_path(), "notes");
}

#[test]
fn file_path_with_colour_keeps_the_name_and_the_arrow() {
    let long = config(true, false, true);
    let path = item(DeviceType::Symlink, false, &long).file_path();
    assert!(path.contains("/srv/work/notes"));
    assert!(path.ends_with(" -> /srv/work/notes"));
    let short = config(true, false, false);
    assert!(item(DeviceType::Dir, false, &short).file_path().contains("notes"));
}

#[test]
fn plain_paint_keeps_the_text() {
    assert_eq!(colourise("notes", ColourTag::Plain), "notes");
    assert_eq!(colourise("", ColourTag::Plain), "");
    assert_eq!(colourise("a\u{1b}[0mb", ColourTag::Plain), "a\u{1b}[0mb");
}

#[test]
fn bright_paint_is_the_text_with_or_without_codes() {
    for (hue, code) in [
        (Hue::Cyan, "\u{1b}[96m"),
        (Hue::Yellow, "\u{1b}[93m"),
        (Hue::Magenta, "\u{1b}[95m"),
        (Hue::Blue, "\u{1b}[94m"),
        (Hue::Green, "\u{1b}[92m"),
    ] {
        let painted = colourise("x y", ColourTag::Bright(hue));
        let candidates =
            [String::from("x y"), String::from("x y\u{1b}[0m"), format!("{}x y\u{1b}[0m", code)];
        assert!(candidates.contains(&painted));
    }
}

#[test]
fn coloured_file_path_is_the_name_with_or_without_codes() {
    let short = config(true, false, false);
    for (kind, executable, code) in [
        (DeviceType::Symlink, false, "\u{1b}[96m"),
        (DeviceType::BlockDevice, false, "\u{1b}[93m"),
        (DeviceType::CharDevice, false, "\u{1b}[95m"),
        (DeviceType::Dir, false, "\u{1b}[94m"),
        (DeviceType::File, true, "\u{1b}[92m"),
    ] {
        let path = item(kind, executable, &short).file_path();
        let candidates = [
            String::from("notes"),
            String::from("notes\u{1b}[0m"),
            format!("{}notes\u{1b}[0m", code),
        ];
        assert!(candidates.contains(&path));
    }
}

#[test]
fn file_name_length_is_in_bytes() {
    let d = config(false, false, false);
    let mut it = item(DeviceType::File, false, &d);
    assert_eq!(it.file_name_length(), 5);
    it.file_name = String::from("né");
    assert_eq!(it.file_name_length(), 3);
    it.file_name = String::new();
    assert_eq!(it.file_name_length(), 0);
}

#[test]
fn time_is_year_month_day_hour_minute() {
    let d = config(false, false, false);
    let mut it = item(DeviceType::File, false, &d);
    it.time = 0;
    assert_eq!(it.time().as_deref(), Some("1970 Jan 01 00:00"));
    it.time = 1431648000;
    assert_eq!(it.time().as_deref(), Some("2015 May 15 00:00"));
    it.time = 1431648000 + 13 * 3600 + 7 * 60 + 59;
    assert_eq!(it.time().as_deref(), Some("2015 May 15 13:07"));
    it.time = -1;
    assert_eq!(it.time().as_deref(), Some("1969 Dec 31 23:59"));
    it.time = 1735689599;
    assert_eq!(it.time().as_deref(), Some("2024 Dec 31 23:59"));
}

#[test]
fn time_outside_the_calendar_is_none() {
    let d = config(false, false, false);
    let mut it = item(DeviceType::File, false, &d);
    it.time = i64::MAX;
    assert_eq!(it.time(), None);
    it.time = i64::MIN;
    assert_eq!(it.time(), None);
}

#[test]
fn size_plain_and_human_readable() {
    let plain = config(false, false, false);
    let human = config(false, true, false);
    assert_eq!(item(DeviceType::File, false, &plain).size(), "2048");
    assert_eq!(item(DeviceType::File, false, &human).size(), "2KiB");
    let mut big = item(DeviceType::File, false, &plain);
    big.size = u64::MAX as u128;
    assert_eq!(big.size(), "18446744073709551615");
}
