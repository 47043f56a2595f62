use texpipe::names::extension_of;
use texpipe::names::has_image_extension;
use texpipe::names::intermediate_name;
use texpipe::names::join;
use texpipe::names::replace_extension;
use texpipe::names::str_eq;

#[test]
fn extension_of_simple_name() {
    assert_eq!(extension_of("foo.png"), "png");
    assert_eq!(extension_of("bar.jpg"), "jpg");
    assert_eq!(extension_of("archive.tar.gz"), "gz");
    assert_eq!(extension_of("noext"), "");
}

#[test]
fn image_extension_check() {
    assert!(has_image_extension("foo.png"));
    assert!(has_image_extension("b.jpg"));
    assert!(!has_image_extension("foo.txt"));
    assert!(!has_image_extension("foo.PNG"));
    assert!(!has_image_extension("png"));
    assert!(!has_image_extension("foo.dds"));
}

#[test]
fn replace_extension_simple() {
    assert_eq!(replace_extension("foo.png", "dds"), "foo.dds");
    assert_eq!(replace_extension("noext", "dds"), "noext.dds");
    assert_eq!(replace_extension("a.b.c", "dds"), "a.b.dds");
}

#[test]
fn replace_extension_of_intermediate() {
    assert_eq!(
        replace_extension("foo.png.upscaled.png", "dds"),
        "foo.png.upscaled.dds"
    );
}

#[test]
fn intermediate_name_appends_suffix() {
    assert_eq!(intermediate_name("foo.png"), "foo.png.upscaled.png");
}

#[test]
fn join_dir_and_name() {
    assert_eq!(join("ModA/Textures", "foo.png"), "ModA/Textures/foo.png");
}

#[test]
fn str_eq_behaves_like_equality() {
    assert!(str_eq("abc", "abc"));
    assert!(!str_eq("abc", "abd"));
    assert!(!str_eq("abc", "abcd"));
    assert!(str_eq("", ""));
}
