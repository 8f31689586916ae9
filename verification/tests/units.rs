use dirlist::item::DirectoryItem;
use dirlist::units::select_unit;
use dirlist::units::SizeUnit;
use dirlist::units::EXBIBYTE;
use dirlist::units::GIBIBYTE;
use dirlist::units::KIBIBYTE;
use dirlist::units::MEBIBYTE;
use dirlist::units::PEBIBYTE;
use dirlist::units::TEBIBYTE;
use dirlist::units::YOBIBYTE;
use dirlist::units::ZEBIBYTE;

#[test]
fn convert_units() {
    assert_eq!("4B", DirectoryItem::convert_units(4));
    assert_eq!("1KiB", DirectoryItem::convert_units(KIBIBYTE));
    assert_eq!("1MiB", DirectoryItem::convert_units(MEBIBYTE));
    assert_eq!("1GiB", DirectoryItem::convert_units(GIBIBYTE));
    assert_eq!("1TiB", DirectoryItem::convert_units(TEBIBYTE));
    assert_eq!("1PiB", DirectoryItem::convert_units(PEBIBYTE));
    assert_eq!("1EiB", DirectoryItem::convert_units(EXBIBYTE));
    assert_eq!("1ZiB", DirectoryItem::convert_units(ZEBIBYTE));
    assert_eq!("1YiB what... how?", DirectoryItem::convert_units(YOBIBYTE));
}

#[test]
fn unit_constants_are_powers_of_1024() {
    assert_eq!(KIBIBYTE, 1024);
    assert_eq!(MEBIBYTE, u128::pow(1024, 2));
    assert_eq!(GIBIBYTE, u128::pow(1024, 3));
    assert_eq!(TEBIBYTE, u128::pow(1024, 4));
    assert_eq!(PEBIBYTE, u128::pow(1024, 5));
    assert_eq!(EXBIBYTE, u128::pow(1024, 6));
    assert_eq!(ZEBIBYTE, u128::pow(1024, 7));
    assert_eq!(YOBIBYTE, u128::pow(1024, 8));
}

#[test]
fn thresholds_belong_to_the_unit_they_open() {
    assert_eq!("0B", DirectoryItem::convert_units(0));
    assert_eq!("1023B", DirectoryItem::convert_units(1023));
    assert_eq!("1KiB", DirectoryItem::convert_units(1024));
    assert_eq!("1023KiB", DirectoryItem::convert_units(MEBIBYTE - 1));
    assert_eq!("1MiB", DirectoryItem::convert_units(MEBIBYTE));
    assert_eq!("1023ZiB", DirectoryItem::convert_units(YOBIBYTE - 1));
}

#[test]
fn division_truncates() {
    assert_eq!("1KiB", DirectoryItem::convert_units(2047));
    assert_eq!("2KiB", DirectoryItem::convert_units(2048));
    assert_eq!("1MiB", DirectoryItem::convert_units(2 * MEBIBYTE - 1));
    assert_eq!("5GiB", DirectoryItem::convert_units(5 * GIBIBYTE + 123));
}

#[test]
fn top_of_the_ladder_keeps_the_marker() {
    assert_eq!("1024YiB what... how?", DirectoryItem::convert_units(1024 * YOBIBYTE));
    assert_eq!(
        "281474976710655YiB what... how?",
        DirectoryItem::convert_units(u128::MAX)
    );
}

#[test]
fn select_unit_gives_unit_and_count() {
    assert_eq!(select_unit(0), (SizeUnit::Byte, 0));
    assert_eq!(select_unit(4), (SizeUnit::Byte, 4));
    assert_eq!(select_unit(1024), (SizeUnit::Kibi, 1));
    assert_eq!(select_unit(3 * MEBIBYTE + 5), (SizeUnit::Mebi, 3));
    assert_eq!(select_unit(7 * GIBIBYTE), (SizeUnit::Gibi, 7));
    assert_eq!(select_unit(TEBIBYTE), (SizeUnit::Tebi, 1));
    assert_eq!(select_unit(PEBIBYTE), (SizeUnit::Pebi, 1));
    assert_eq!(select_unit(EXBIBYTE), (SizeUnit::Exbi, 1));
    assert_eq!(select_unit(ZEBIBYTE), (SizeUnit::Zebi, 1));
    assert_eq!(select_unit(YOBIBYTE), (SizeUnit::Yobi, 1));
}

#[test]
fn suffixes() {
    assert_eq!(SizeUnit::Byte.suffix_str(), "B");
    assert_eq!(SizeUnit::Kibi.suffix_str(), "KiB");
    assert_eq!(SizeUnit::Mebi.suffix_str(), "MiB");
    assert_eq!(SizeUnit::Gibi.suffix_str(), "GiB");
    assert_eq!(SizeUnit::Tebi.suffix_str(), "TiB");
    assert_eq!(SizeUnit::Pebi.suffix_str(), "PiB");
    assert_eq!(SizeUnit::Exbi.suffix_str(), "EiB");
    assert_eq!(SizeUnit::Zebi.suffix_str(), "ZiB");
    assert_eq!(SizeUnit::Yobi.suffix_str(), "YiB what... how?");
}
