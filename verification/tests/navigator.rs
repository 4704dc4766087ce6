use pictor::navigator::{FilepathsNavigator, NavigatorError, WatchEvent};
use pictor::picture::extensions;

fn listing(names: &[&str]) -> Vec<Vec<u8>> {
    names.iter().map(|n| n.as_bytes().to_vec()).collect()
}

fn nav_over(names: &[&str]) -> FilepathsNavigator {
    FilepathsNavigator::from_path(&b"/pics".to_vec(), false, listing(names), extensions())
        .unwrap()
}

#[test]
fn scan_filters_and_sorts() {
    let nav = nav_over(&["/pics/b.png", "/pics/notes.txt", "/pics/a.PNG", "/pics/c.jpg"]);
    assert_eq!(nav.selected(), &b"/pics/a.PNG".to_vec());
    let mut nav = nav;
    nav.navigate(1);
    assert_eq!(nav.selected(), &b"/pics/b.png".to_vec());
    nav.navigate(1);
    assert_eq!(nav.selected(), &b"/pics/c.jpg".to_vec());
}

#[test]
fn scan_selects_starting_file() {
    let nav = FilepathsNavigator::from_path(
        &b"/pics/b.png".to_vec(),
        true,
        listing(&["/pics/c.png", "/pics/b.png", "/pics/a.png"]),
        extensions(),
    )
    .unwrap();
    assert_eq!(nav.selected(), &b"/pics/b.png".to_vec());
}

#[test]
fn scan_rejects_unlisted_file() {
    let r = FilepathsNavigator::from_path(
        &b"/pics/gone.png".to_vec(),
        true,
        listing(&["/pics/a.png"]),
        extensions(),
    );
    assert!(matches!(r, Err(NavigatorError::NoMatchingEntry(p)) if p == b"/pics/gone.png"));
}

#[test]
fn scan_rejects_empty_directory() {
    let r = FilepathsNavigator::from_path(
        &b"/pics".to_vec(),
        false,
        listing(&["/pics/notes.txt"]),
        extensions(),
    );
    assert!(matches!(r, Err(NavigatorError::EmptyList)));
}

#[test]
fn navigation_wraps_both_ways() {
    let mut nav = nav_over(&["/pics/a.png", "/pics/b.png", "/pics/c.png"]);
    assert_eq!(nav.selected(), &b"/pics/a.png".to_vec());
    nav.navigate(-1);
    assert_eq!(nav.selected(), &b"/pics/c.png".to_vec());
    nav.navigate(1);
    assert_eq!(nav.selected(), &b"/pics/a.png".to_vec());
    nav.navigate(7);
    assert_eq!(nav.selected(), &b"/pics/b.png".to_vec());
    nav.navigate(-5);
    assert_eq!(nav.selected(), &b"/pics/c.png".to_vec());
}

#[test]
fn navigation_wraps_on_single_entry() {
    let mut nav = nav_over(&["/pics/a.png"]);
    nav.navigate(1);
    assert_eq!(nav.selected(), &b"/pics/a.png".to_vec());
    nav.navigate(-1);
    assert_eq!(nav.selected(), &b"/pics/a.png".to_vec());
}

#[test]
fn write_to_selected_marks_dirty() {
    let mut nav = nav_over(&["/pics/a.png", "/pics/b.png"]);
    let events = vec![WatchEvent::Write(b"/pics/a.png".to_vec())];
    let flags = nav.refresh(&events).unwrap();
    assert!(flags.dirty);
    assert!(!flags.rescan);
}

#[test]
fn write_elsewhere_is_ignored() {
    let mut nav = nav_over(&["/pics/a.png", "/pics/b.png"]);
    let events = vec![WatchEvent::Write(b"/pics/b.png".to_vec())];
    let flags = nav.refresh(&events).unwrap();
    assert!(!flags.dirty);
    assert!(!flags.rescan);
}

#[test]
fn create_and_chmod_ask_for_rescan() {
    let mut nav = nav_over(&["/pics/a.png"]);
    let flags = nav.refresh(&vec![WatchEvent::Create]).unwrap();
    assert!(flags.rescan);
    let flags = nav.refresh(&vec![WatchEvent::Chmod]).unwrap();
    assert!(flags.rescan);
    let flags = nav.refresh(&vec![WatchEvent::Rescan]).unwrap();
    assert!(flags.rescan);
}

#[test]
fn removal_before_cursor_decrements_cursor() {
    let mut nav = nav_over(&["/pics/a.png", "/pics/b.png", "/pics/c.png"]);
    nav.navigate(2);
    assert_eq!(nav.selected(), &b"/pics/c.png".to_vec());
    let events = vec![WatchEvent::Remove(b"/pics/a.png".to_vec())];
    let flags = nav.refresh(&events).unwrap();
    assert!(!flags.dirty);
    assert_eq!(nav.selected(), &b"/pics/c.png".to_vec());
}

#[test]
fn removal_of_selected_wraps_and_marks_dirty() {
    let mut nav = nav_over(&["/pics/a.png", "/pics/b.png", "/pics/c.png"]);
    nav.navigate(2);
    let events = vec![WatchEvent::Remove(b"/pics/c.png".to_vec())];
    let flags = nav.refresh(&events).unwrap();
    assert!(flags.dirty);
    // the cursor wraps from the removed tail entry to the head
    assert_eq!(nav.selected(), &b"/pics/a.png".to_vec());
}

#[test]
fn removal_of_last_entry_is_fatal() {
    let mut nav = nav_over(&["/pics/a.png"]);
    let events = vec![WatchEvent::Remove(b"/pics/a.png".to_vec())];
    assert!(matches!(nav.refresh(&events), Err(NavigatorError::EmptyList)));
}

#[test]
fn rename_of_selected_updates_path_and_asks_rescan() {
    let mut nav = nav_over(&["/pics/a.png", "/pics/b.png"]);
    let events = vec![WatchEvent::Rename(
        b"/pics/a.png".to_vec(),
        b"/pics/a2.png".to_vec(),
    )];
    let flags = nav.refresh(&events).unwrap();
    assert!(flags.rescan);
    assert_eq!(nav.selected(), &b"/pics/a2.png".to_vec());
}

#[test]
fn rescan_keeps_selection_when_path_survives() {
    let mut nav = nav_over(&["/pics/a.png", "/pics/c.png"]);
    nav.navigate(1);
    assert_eq!(nav.selected(), &b"/pics/c.png".to_vec());
    // a new entry appears before the selected one: the cursor moves, the
    // selected path does not
    nav.rescan(listing(&["/pics/a.png", "/pics/b.png", "/pics/c.png"]))
        .unwrap();
    assert_eq!(nav.selected(), &b"/pics/c.png".to_vec());
    nav.navigate(-1);
    assert_eq!(nav.selected(), &b"/pics/b.png".to_vec());
}

#[test]
fn rescan_fails_when_selection_vanished() {
    let mut nav = nav_over(&["/pics/a.png", "/pics/b.png"]);
    let r = nav.rescan(listing(&["/pics/b.png"]));
    assert!(matches!(r, Err(NavigatorError::NoMatchingEntry(p)) if p == b"/pics/a.png"));
    // the failed rescan left the navigator untouched
    assert_eq!(nav.selected(), &b"/pics/a.png".to_vec());
}

#[test]
fn extension_match_ignores_ascii_case() {
    let nav = nav_over(&["/pics/UPPER.PNG", "/pics/lower.png"]);
    assert_eq!(nav.selected(), &b"/pics/UPPER.PNG".to_vec());
}

#[test]
fn hidden_files_have_no_extension() {
    let r = FilepathsNavigator::from_path(
        &b"/pics".to_vec(),
        false,
        listing(&["/pics/.png"]),
        extensions(),
    );
    assert!(matches!(r, Err(NavigatorError::EmptyList)));
}
