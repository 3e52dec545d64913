//! The page indicator: a short line that always names page 1 and the last
//! page, shows the current page between its two neighbours, and marks the
//! pages it leaves out with an ellipsis.

use vstd::prelude::*;
use vstd::string::StringExecFns;
use crate::text::{decimal, decimal_string};

verus! {

/// The marker that opens the indicator.
pub open spec fn previous_marker() -> Seq<char> {
    seq!['<', 'H', ' ']
}

/// The marker that closes the indicator.
pub open spec fn next_marker() -> Seq<char> {
    seq!['L', '>']
}

/// The sign for pages that are left out.
pub open spec fn ellipsis() -> Seq<char> {
    seq!['.', '.', '.', ' ']
}

/// One page number followed by a space; the current page stands in brackets.
pub open spec fn page_label(page: nat, current: nat) -> Seq<char> {
    if page == current {
        seq!['['] + decimal(page) + seq![']', ' ']
    } else {
        decimal(page) + seq![' ']
    }
}

/// First page of the neighbour window: the page before the current one, but
/// never page 1, which is always shown on its own.
pub open spec fn window_start(current: nat) -> int {
    if current >= 3 {
        current - 1
    } else {
        2
    }
}

/// Last page of the neighbour window: the page after the current one, but
/// never the last page, which is always shown on its own.
pub open spec fn window_end(total: nat, current: nat) -> int {
    if current + 1 <= total - 1 {
        current as int + 1
    } else {
        total - 1
    }
}

/// The labels of the pages `lo..=hi` in ascending order.
pub open spec fn window_labels(lo: int, hi: int, current: nat) -> Seq<char>
    decreases hi - lo + 1,
{
    if hi < lo || hi < 0 {
        Seq::<char>::empty()
    } else {
        window_labels(lo, hi - 1, current) + page_label(hi as nat, current)
    }
}

/// Whether pages are left out between page 1 and the neighbour window.
pub open spec fn skips_before(total: nat, current: nat) -> bool {
    total > 1 && current > 3
}

/// Whether pages are left out between the neighbour window and the last page.
pub open spec fn skips_after(total: nat, current: nat) -> bool {
    current + 2 < total
}

/// The whole indicator for `total` pages with `current` selected.
///
/// With at most one page it is page 1 between the two markers.
pub open spec fn pagination(total: nat, current: nat) -> Seq<char> {
    previous_marker() + page_label(1, current) + (if skips_before(total, current) {
        ellipsis()
    } else {
        Seq::<char>::empty()
    }) + window_labels(window_start(current), window_end(total, current), current) + (
    if skips_after(total, current) {
        ellipsis()
    } else {
        Seq::<char>::empty()
    }) + (if total > 1 {
        page_label(total, current)
    } else {
        Seq::<char>::empty()
    }) + next_marker()
}

/// An ellipsis stands exactly where pages are left out: before the window
/// where the window does not start right after page 1, behind it where it
/// does not end right before the last page.
pub proof fn lemma_ellipsis_marks_gap(total: nat, current: nat)
    ensures
        total > 1 ==> (skips_before(total, current) <==> window_start(current) > 2),
        skips_after(total, current) <==> window_end(total, current) < total - 1,
        total <= 1 ==> !skips_before(total, current) && !skips_after(total, current)
            && window_end(total, current) < window_start(current),
{
}

/// The window holds the current page and its two neighbours, as far as
/// they lie between page 1 and the last page.
pub proof fn lemma_window_is_neighbourhood(total: nat, current: nat, page: int)
    ensures
        (window_start(current) <= page <= window_end(total, current)) <==> (current - 1 <= page
            <= current + 1 && 2 <= page <= total - 1),
{
}

fn push_page(out: &mut String, page: usize, current: usize)
    ensures
        final(out)@ == old(out)@ + page_label(page as nat, current as nat),
{
    let number: String = decimal_string(page);
    proof {
        reveal_strlit("[");
        reveal_strlit("] ");
        reveal_strlit(" ");
    }
    if page == current {
        out.append("[");
        out.append(number.as_str());
        out.append("] ");
        assert("["@ =~= seq!['[']);
        assert("] "@ =~= seq![']', ' ']);
    } else {
        out.append(number.as_str());
        out.append(" ");
        assert(" "@ =~= seq![' ']);
    }
    assert(out@ =~= old(out)@ + page_label(page as nat, current as nat));
}

/// Builds the page indicator for `total_pages` pages with `current_page`
/// selected. Pages count from 1.
pub fn build_paginator(total_pages: usize, current_page: usize) -> (pagination: String)
    ensures
        pagination@ == self::pagination(total_pages as nat, current_page as nat),
{
    let ghost total = total_pages as nat;
    let ghost current = current_page as nat;
    let mut out: String = String::new();
    proof {
        reveal_strlit("<H ");
        reveal_strlit("... ");
        reveal_strlit("L>");
        assert("<H "@ =~= previous_marker());
        assert("... "@ =~= ellipsis());
        assert("L>"@ =~= next_marker());
    }
    out.append("<H ");
    push_page(&mut out, 1, current_page);
    if total_pages > 1 && current_page > 3 {
        out.append("... ");
    }
    let ghost head = out@;
    assert(head =~= previous_marker() + page_label(1, current) + (if skips_before(
        total,
        current,
    ) {
        ellipsis()
    } else {
        Seq::<char>::empty()
    }));
    let lo: usize = if current_page >= 3 {
        current_page - 1
    } else {
        2
    };
    if total_pages >= 1 {
        let hi: usize = if current_page >= total_pages - 1 {
            total_pages - 1
        } else {
            current_page + 1
        };
        let mut page: usize = lo;
        assert(window_labels(lo as int, page - 1, current) =~= Seq::<char>::empty());
        while page <= hi
            invariant
                lo <= page,
                page <= hi + 1 || hi < lo,
                hi < lo ==> page == lo,
                hi < usize::MAX,
                current == current_page as nat,
                out@ == head + window_labels(lo as int, page - 1, current),
            decreases hi + 1 - page,
        {
            let ghost shown = page as int;
            let ghost earlier = window_labels(lo as int, shown - 1, current);
            let ghost label = page_label(shown as nat, current);
            push_page(&mut out, page, current_page);
            page = page + 1;
            assert(window_labels(lo as int, shown, current) == earlier + label);
            assert(out@ == (head + earlier) + label);
            assert((head + earlier) + label =~= head + (earlier + label));
        }
        assert(hi < lo ==> window_labels(lo as int, hi as int, current) =~= Seq::<char>::empty());
        assert(out@ == head + window_labels(lo as int, hi as int, current));
    }
    assert(out@ == head + window_labels(window_start(current), window_end(total, current), current));
    if total_pages >= 3 && current_page < total_pages - 2 {
        out.append("... ");
    }
    if total_pages > 1 {
        push_page(&mut out, total_pages, current_page);
    }
    out.append("L>");
    assert(out@ =~= self::pagination(total, current));
    out
}

} // verus!
