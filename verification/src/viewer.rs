//! Page-navigation decisions of the document viewer: which page a step
//! lands on, and which pages to preload around the view. Scroll offsets,
//! zoom and rendering are the display layer's fractional business and
//! stay outside; everything that picks a page number is decided here.

use vstd::prelude::*;

verus! {

/// How pages are laid out in the view.
#[derive(Clone, Copy, Debug, PartialEq, Eq, Structural)]
pub enum ViewMode {
    SinglePage,
    DualPage,
    ContinuousScroll,
}

impl Default for ViewMode {
    /// The viewer opens in single-page layout.
    fn default() -> (r: ViewMode)
        ensures
            r == ViewMode::SinglePage,
    {
        ViewMode::SinglePage
    }
}

impl ViewMode {
    /// The label the mode selector shows for this mode.
    pub fn label(&self) -> (r: &'static str)
        ensures
            *self == ViewMode::SinglePage ==> r@ == "Single Page"@,
            *self == ViewMode::DualPage ==> r@ == "Dual Page"@,
            *self == ViewMode::ContinuousScroll ==> r@ == "Continuous"@,
    {
        match self {
            ViewMode::SinglePage => "Single Page",
            ViewMode::DualPage => "Dual Page",
            ViewMode::ContinuousScroll => "Continuous",
        }
    }
}

/// How many pages one step moves: two side-by-side pages in dual-page
/// layout, one otherwise.
pub open spec fn page_step(mode: ViewMode) -> nat {
    if mode == ViewMode::DualPage {
        2
    } else {
        1
    }
}

/// The page a forward step lands on: one step ahead when that page
/// exists, the current page otherwise (also for an empty document).
pub fn next_page(mode: ViewMode, current: usize, page_count: usize) -> (r: usize)
    requires
        page_count == 0 || current < page_count,
    ensures
        page_count == 0 ==> r == current,
        page_count > 0 && current + page_step(mode) < page_count ==> r == current + page_step(
            mode,
        ),
        page_count > 0 && current + page_step(mode) >= page_count ==> r == current,
{
    if page_count == 0 {
        return current;
    }
    let step: usize = if mode == ViewMode::DualPage {
        2
    } else {
        1
    };
    if page_count - current > step {
        current + step
    } else {
        current
    }
}

/// The page a backward step lands on: one step back where the document
/// allows it, the first page when fewer than a step remains.
pub fn previous_page(mode: ViewMode, current: usize) -> (r: usize)
    ensures
        current >= page_step(mode) ==> r == current - page_step(mode),
        current < page_step(mode) ==> r == 0,
{
    let step: usize = if mode == ViewMode::DualPage {
        2
    } else {
        1
    };
    if current >= step {
        current - step
    } else {
        0
    }
}

/// The page the end of the document is shown at in page layouts.
pub fn last_page_target(page_count: usize) -> (r: usize)
    ensures
        page_count == 0 ==> r == 0,
        page_count > 0 ==> r == page_count - 1,
{
    if page_count == 0 {
        0
    } else {
        page_count - 1
    }
}

/// The pages to preload around the view, in the order they are asked
/// for: nothing for an empty document, the neighbours of the current
/// page in page layouts, and the pages just outside the visible range in
/// continuous layout.
pub open spec fn spec_preload_candidates(
    mode: ViewMode,
    current: int,
    page_count: int,
    visible_first: Option<int>,
    visible_last: Option<int>,
) -> Seq<int> {
    if page_count <= 0 {
        Seq::<int>::empty()
    } else if mode == ViewMode::SinglePage {
        (if current > 0 {
            seq![current - 1]
        } else {
            Seq::<int>::empty()
        }) + (if current + 1 < page_count {
            seq![current + 1]
        } else {
            Seq::<int>::empty()
        })
    } else if mode == ViewMode::DualPage {
        (if current >= 2 {
            seq![current - 2, current - 1]
        } else if current >= 1 {
            seq![current - 1]
        } else {
            Seq::<int>::empty()
        }) + (if current + 2 < page_count {
            seq![current + 2]
        } else {
            Seq::<int>::empty()
        }) + (if current + 3 < page_count {
            seq![current + 3]
        } else {
            Seq::<int>::empty()
        })
    } else {
        (match visible_first {
            Some(first) => (if first > 0 {
                seq![first - 1]
            } else {
                Seq::<int>::empty()
            }) + (if first > 1 {
                seq![first - 2]
            } else {
                Seq::<int>::empty()
            }),
            None => Seq::<int>::empty(),
        }) + (match visible_last {
            Some(last) => (if last + 1 < page_count {
                seq![last + 1]
            } else {
                Seq::<int>::empty()
            }) + (if last + 2 < page_count {
                seq![last + 2]
            } else {
                Seq::<int>::empty()
            }),
            None => Seq::<int>::empty(),
        })
    }
}

/// The view of an optional page index.
pub open spec fn opt_page_view(p: Option<usize>) -> Option<int> {
    match p {
        Some(x) => Some(x as int),
        None => None,
    }
}

/// Computes the preload candidates for the current layout: nothing at
/// all for an empty document. The visible range, when given, holds valid
/// page indexes.
pub fn preload_candidates(
    mode: ViewMode,
    current: usize,
    page_count: usize,
    visible_first: Option<usize>,
    visible_last: Option<usize>,
) -> (r: Vec<usize>)
    requires
        page_count == 0 || current < page_count,
        visible_first matches Some(f) ==> f < page_count,
        visible_last matches Some(l) ==> l < page_count,
    ensures
        r@.map_values(|p: usize| p as int) == spec_preload_candidates(
            mode,
            current as int,
            page_count as int,
            opt_page_view(visible_first),
            opt_page_view(visible_last),
        ),
{
    let mut r: Vec<usize> = Vec::new();
    if page_count == 0 {
        proof {
            assert(r@.map_values(|p: usize| p as int) =~= Seq::<int>::empty());
        }
        return r;
    }
    match mode {
        ViewMode::SinglePage => {
            if current > 0 {
                r.push(current - 1);
            }
            if page_count > 0 && page_count - current > 1 {
                r.push(current + 1);
            }
        },
        ViewMode::DualPage => {
            if current >= 2 {
                r.push(current - 2);
                r.push(current - 1);
            } else if current >= 1 {
                r.push(current - 1);
            }
            if page_count > 0 && page_count - current > 2 {
                r.push(current + 2);
            }
            if page_count > 0 && page_count - current > 3 {
                r.push(current + 3);
            }
        },
        ViewMode::ContinuousScroll => {
            match visible_first {
                Some(first) => {
                    if first > 0 {
                        r.push(first - 1);
                    }
                    if first > 1 {
                        r.push(first - 2);
                    }
                },
                None => {},
            }
            match visible_last {
                Some(last) => {
                    if page_count - last > 1 {
                        r.push(last + 1);
                    }
                    if page_count - last > 2 {
                        r.push(last + 2);
                    }
                },
                None => {},
            }
        },
    }
    proof {
        assert(r@.map_values(|p: usize| p as int) =~= spec_preload_candidates(
            mode,
            current as int,
            page_count as int,
            opt_page_view(visible_first),
            opt_page_view(visible_last),
        ));
    }
    r
}

/// Preloading never reaches outside the document and never asks twice:
/// for an empty document there are no candidates at all, and otherwise
/// every candidate is a valid page index and no index repeats.
pub proof fn lemma_preload_candidates_sound(
    mode: ViewMode,
    current: int,
    page_count: int,
    visible_first: Option<int>,
    visible_last: Option<int>,
)
    requires
        page_count == 0 || 0 <= current < page_count,
        visible_first matches Some(f) ==> 0 <= f < page_count,
        visible_last matches Some(l) ==> 0 <= l < page_count,
        visible_first matches Some(f) ==> (visible_last matches Some(l) && f <= l),
    ensures
        page_count == 0 ==> spec_preload_candidates(
            mode,
            current,
            page_count,
            visible_first,
            visible_last,
        ) == Seq::<int>::empty(),
        forall|i: int|
            0 <= i < spec_preload_candidates(mode, current, page_count, visible_first, visible_last).len()
                ==> 0 <= #[trigger] spec_preload_candidates(
                mode,
                current,
                page_count,
                visible_first,
                visible_last,
            )[i] < page_count,
        forall|i: int, j: int|
            0 <= i < j < spec_preload_candidates(
                mode,
                current,
                page_count,
                visible_first,
                visible_last,
            ).len() ==> spec_preload_candidates(mode, current, page_count, visible_first, visible_last)[i]
                != spec_preload_candidates(mode, current, page_count, visible_first, visible_last)[j],
{
}

} // verus!
