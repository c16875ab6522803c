use systemd_gui::unit_name::{get_unit_name, rm_directory_path, rm_extension};

#[test]
fn directory_is_removed_up_to_the_last_slash() {
    assert_eq!(rm_directory_path("/etc/systemd/system/foo.service"), "foo.service");
    assert_eq!(rm_directory_path("/usr/lib/systemd/system/cups.socket"), "cups.socket");
    assert_eq!(rm_directory_path("system/fstrim.timer"), "fstrim.timer");
}

#[test]
fn name_without_directory_is_kept() {
    assert_eq!(rm_directory_path("foo.service"), "foo.service");
    assert_eq!(rm_directory_path("foo"), "foo");
}

#[test]
fn empty_name_stays_empty() {
    assert_eq!(rm_directory_path(""), "");
    assert_eq!(rm_extension(""), "");
    assert_eq!(get_unit_name(""), "");
}

#[test]
fn trailing_slash_leaves_nothing() {
    assert_eq!(rm_directory_path("/etc/systemd/system/"), "");
    assert_eq!(rm_directory_path("/"), "");
}

#[test]
fn repeated_slashes_count_one_by_one() {
    assert_eq!(rm_directory_path("//foo.service"), "foo.service");
    assert_eq!(rm_directory_path("a//b"), "b");
}

#[test]
fn stripped_name_holds_no_slash() {
    for name in ["/a/b/c.service", "a/", "/", "plain", "x/y/z/"] {
        assert!(!rm_directory_path(name).contains('/'));
    }
}

#[test]
fn extension_is_removed_from_the_last_dot() {
    assert_eq!(rm_extension("foo.service"), "foo");
    assert_eq!(rm_extension("cups.socket"), "cups");
    assert_eq!(rm_extension("fstrim.timer"), "fstrim");
}

#[test]
fn only_the_last_dot_starts_the_extension() {
    assert_eq!(rm_extension("org.cups.cupsd.service"), "org.cups.cupsd");
    assert_eq!(rm_extension("a..b"), "a.");
}

#[test]
fn name_without_dot_has_an_empty_stem() {
    assert_eq!(rm_extension("foo"), "");
    assert_eq!(get_unit_name("/etc/systemd/system/foo"), "");
}

#[test]
fn leading_and_trailing_dot() {
    assert_eq!(rm_extension(".service"), "");
    assert_eq!(rm_extension("foo."), "foo");
    assert_eq!(rm_extension("."), "");
}

#[test]
fn display_name_drops_directory_and_extension() {
    assert_eq!(get_unit_name("/etc/systemd/system/foo.service"), "foo");
    assert_eq!(get_unit_name("/usr/lib/systemd/system/dbus.socket"), "dbus");
    assert_eq!(get_unit_name("foo.service"), "foo");
}

#[test]
fn dot_in_the_directory_is_no_extension() {
    assert_eq!(get_unit_name("/etc/systemd.d/foo"), "");
    assert_eq!(get_unit_name("/etc/systemd.d/foo.timer"), "foo");
}

#[test]
fn instance_names_keep_their_at_sign() {
    assert_eq!(get_unit_name("/usr/lib/systemd/system/getty@.service"), "getty@");
}

#[test]
fn positions_count_characters() {
    assert_eq!(rm_directory_path("/é/ü.service"), "ü.service");
    assert_eq!(rm_extension("é.service"), "é");
    assert_eq!(get_unit_name("/opt/système/café.service"), "café");
    assert_eq!(get_unit_name("日本/語.timer"), "語");
}

#[test]
fn display_name_is_extension_after_directory() {
    for name in ["/a/b.c", "a.b/c", "x", "", "/.", "./", "a/b/c.d.e"] {
        assert_eq!(get_unit_name(name), rm_extension(&rm_directory_path(name)));
    }
}
