//! Page-navigation decisions of the viewer.

use wsl_kernel::viewer::{
    last_page_target, next_page, preload_candidates, previous_page, ViewMode,
};

#[test]
fn mode_labels() {
    assert_eq!(ViewMode::SinglePage.label(), "Single Page");
    assert_eq!(ViewMode::DualPage.label(), "Dual Page");
    assert_eq!(ViewMode::ContinuousScroll.label(), "Continuous");
    assert_eq!(ViewMode::default(), ViewMode::SinglePage);
}

#[test]
fn single_page_steps() {
    assert_eq!(next_page(ViewMode::SinglePage, 0, 3), 1);
    assert_eq!(next_page(ViewMode::SinglePage, 2, 3), 2);
    assert_eq!(next_page(ViewMode::SinglePage, 0, 0), 0);
    assert_eq!(previous_page(ViewMode::SinglePage, 2), 1);
    assert_eq!(previous_page(ViewMode::SinglePage, 0), 0);
}

#[test]
fn dual_page_steps() {
    assert_eq!(next_page(ViewMode::DualPage, 0, 5), 2);
    assert_eq!(next_page(ViewMode::DualPage, 2, 5), 4);
    assert_eq!(next_page(ViewMode::DualPage, 4, 5), 4);
    assert_eq!(previous_page(ViewMode::DualPage, 4), 2);
    assert_eq!(previous_page(ViewMode::DualPage, 1), 0);
}

#[test]
fn last_page_targets() {
    assert_eq!(last_page_target(0), 0);
    assert_eq!(last_page_target(7), 6);
}

#[test]
fn empty_document_preloads_nothing() {
    assert_eq!(
        preload_candidates(ViewMode::SinglePage, 0, 0, None, None),
        Vec::<usize>::new()
    );
    assert_eq!(
        preload_candidates(ViewMode::DualPage, 0, 0, None, None),
        Vec::<usize>::new()
    );
    assert_eq!(
        preload_candidates(ViewMode::ContinuousScroll, 0, 0, None, None),
        Vec::<usize>::new()
    );
}

#[test]
fn preload_around_single_page() {
    assert_eq!(
        preload_candidates(ViewMode::SinglePage, 3, 10, None, None),
        vec![2, 4]
    );
    assert_eq!(
        preload_candidates(ViewMode::SinglePage, 0, 1, None, None),
        Vec::<usize>::new()
    );
}

#[test]
fn preload_around_dual_page() {
    assert_eq!(
        preload_candidates(ViewMode::DualPage, 4, 10, None, None),
        vec![2, 3, 6, 7]
    );
    assert_eq!(
        preload_candidates(ViewMode::DualPage, 1, 3, None, None),
        vec![0]
    );
}

#[test]
fn preload_around_visible_range() {
    assert_eq!(
        preload_candidates(ViewMode::ContinuousScroll, 0, 10, Some(3), Some(5)),
        vec![2, 1, 6, 7]
    );
    assert_eq!(
        preload_candidates(ViewMode::ContinuousScroll, 0, 10, None, None),
        Vec::<usize>::new()
    );
    assert_eq!(
        preload_candidates(ViewMode::ContinuousScroll, 0, 6, Some(0), Some(5)),
        Vec::<usize>::new()
    );
}
