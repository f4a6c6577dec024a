use hyprgreetr::locate::{candidate_dirs, first_existing, is_png, pngs_to_copy};

#[test]
fn candidates_in_search_order() {
    let c = candidate_dirs("/opt/app/target/debug", "/work", "examples");
    assert_eq!(
        c,
        vec![
            "/opt/app/target/debug/../../../examples",
            "/opt/app/target/debug/../../examples",
            "/opt/app/target/debug/../examples",
            "/opt/app/target/debug/examples",
            "/work/examples",
        ]
    );
}

#[test]
fn unknown_working_directory_gives_relative_candidate() {
    let c = candidate_dirs("/bin", "", "assets");
    assert_eq!(c[4], "assets");
}

#[test]
fn first_match_wins() {
    assert_eq!(first_existing(&vec![false, true, true]), Some(1));
    assert_eq!(first_existing(&vec![true, false]), Some(0));
    assert_eq!(first_existing(&vec![false, false]), None);
    assert_eq!(first_existing(&vec![]), None);
}

#[test]
fn png_extension_any_case() {
    assert!(is_png("logo.png"));
    assert!(is_png("logo.PNG"));
    assert!(is_png("a.b.Png"));
    assert!(!is_png(".png"));
    assert!(!is_png("png"));
    assert!(!is_png("logo.png.bak"));
    assert!(!is_png("logo.pngx"));
    assert!(!is_png("logo."));
}

fn entries() -> Vec<(String, bool)> {
    vec![
        ("a.png".to_string(), true),
        ("b.PNG".to_string(), true),
        ("notes.txt".to_string(), true),
        ("dir.png".to_string(), false),
        ("c.png".to_string(), true),
    ]
}

#[test]
fn copies_only_absent_png_files() {
    let r = pngs_to_copy(&entries(), &vec!["b.PNG".to_string()]);
    assert_eq!(r, vec!["a.png", "c.png"]);
}

#[test]
fn provisioning_twice_copies_nothing_the_second_time() {
    let first = pngs_to_copy(&entries(), &vec![]);
    assert_eq!(first, vec!["a.png", "b.PNG", "c.png"]);
    let second = pngs_to_copy(&entries(), &first);
    assert!(second.is_empty());
}
