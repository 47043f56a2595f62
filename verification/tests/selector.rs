use texpipe::select::is_selected;
use texpipe::select::select_candidates;

fn path(segs: &[&str]) -> Vec<String> {
    segs.iter().map(|s| s.to_string()).collect()
}

#[test]
fn selects_png_under_textures() {
    assert!(is_selected(&path(&["root", "ModA", "Textures", "foo.png"])));
}

#[test]
fn selects_jpg_deep_under_textures() {
    assert!(is_selected(&path(&[
        "root", "ModA", "Textures", "Things", "Item", "bar.jpg"
    ])));
}

#[test]
fn rejects_non_image_under_textures() {
    assert!(!is_selected(&path(&["root", "ModA", "Textures", "note.txt"])));
}

#[test]
fn rejects_image_outside_textures() {
    assert!(!is_selected(&path(&["root", "ModA", "About", "preview.png"])));
}

#[test]
fn rejects_ui_assets() {
    assert!(!is_selected(&path(&[
        "root", "ModA", "Textures", "UI", "icon.png"
    ])));
    assert!(!is_selected(&path(&["root", "UI", "Textures", "icon.png"])));
}

#[test]
fn textures_must_be_an_inner_segment() {
    assert!(!is_selected(&path(&["Textures", "foo.png"])));
    assert!(!is_selected(&path(&["root", "Textures"])));
    assert!(!is_selected(&path(&[])));
}

#[test]
fn select_candidates_keeps_exactly_the_matching_paths_in_order() {
    let input = vec![
        path(&["root", "ModA", "Textures", "foo.png"]),
        path(&["root", "ModA", "Textures", "note.txt"]),
        path(&["root", "ModA", "Textures", "UI", "icon.png"]),
        path(&["root", "ModB", "Textures", "deep", "bar.jpg"]),
        path(&["root", "ModB", "About", "preview.png"]),
    ];
    let out = select_candidates(&input);
    assert_eq!(out.len(), 2);
    assert_eq!(out[0], path(&["root", "ModA", "Textures", "foo.png"]));
    assert_eq!(out[1], path(&["root", "ModB", "Textures", "deep", "bar.jpg"]));
}
