use vstd::prelude::*;

verus! {

/// The position `delta` steps away from `current` in a list of `len` items, wrapping around
/// at both ends. Position and length are taken as `i32`, as the editor stores them.
pub fn cycle_index(current: usize, len: usize, delta: i32) -> (r: usize)
    requires
        len as i32 != 0,
        i32::MIN <= (current as i32) + delta <= i32::MAX,
        !((current as i32) + delta == i32::MIN && len as i32 == -1),
    ensures
        r == ((current as i32) + delta) % (len as i32 as int),
{
    let l = len as i32;
    let s = current as i32 + delta;
    match s.checked_rem_euclid(l) {
        Some(v) => v as usize,
        None => 0,
    }
}

/// For lists that an `i32` can count, the step wraps within the list.
pub proof fn law_cycle_index_stays_in_list(current: usize, len: usize, delta: i32)
    requires
        0 < len <= i32::MAX,
        current <= i32::MAX,
    ensures
        current as i32 == current,
        len as i32 == len,
        0 <= (current + delta) % (len as int) < len,
{
}

/// Moving forward and then back by the same number of steps returns to the start.
pub proof fn law_cycle_index_round_trip(current: int, len: int, delta: int)
    requires
        0 < len,
        0 <= current < len,
    ensures
        ((current + delta) % len - delta) % len == current,
{
    vstd::arithmetic::div_mod::lemma_mod_sub_multiples_vanish(current, len);
    let m = (current + delta) % len;
    vstd::arithmetic::div_mod::lemma_fundamental_div_mod(current + delta, len);
    let q = (current + delta) / len;
    assert(m - delta == current - q * len);
    vstd::arithmetic::div_mod::lemma_mod_multiples_vanish(-q, current, len);
    assert(current - q * len == (-q) * len + current) by (nonlinear_arith);
    vstd::arithmetic::div_mod::lemma_small_mod(current as nat, len as nat);
}

/// The selection held to the last of `len` items.
pub open spec fn held_index(current: usize, len: usize) -> usize {
    if current < len { current } else { (len - 1) as usize }
}

/// Whether a selection can move by `delta` in a list of `len` items without overflowing the
/// editor's `i32` arithmetic (an empty list never moves).
pub open spec fn step_fits(current: usize, len: usize, delta: i32) -> bool {
    len > 0 ==> {
        let h = held_index(current, len);
        &&& len as i32 != 0
        &&& i32::MIN <= (h as i32) + delta <= i32::MAX
        &&& !((h as i32) + delta == i32::MIN && len as i32 == -1)
    }
}

/// Where the selection lands: `None` for an empty list, otherwise the held selection moved
/// `delta` steps with wrap-around.
pub open spec fn stepped_index(current: usize, len: usize, delta: i32) -> Option<int> {
    if len == 0 {
        None
    } else {
        Some(((held_index(current, len) as i32) + delta) % (len as i32 as int))
    }
}

/// Moves a list's selection by `delta`. An empty list has nothing to select (`None`); a
/// selection past the end is first held to the last item.
pub fn step_selection(current: usize, len: usize, delta: i32) -> (r: Option<usize>)
    requires
        step_fits(current, len, delta),
    ensures
        r matches Some(i) ==> stepped_index(current, len, delta) == Some(i as int),
        r is None <==> stepped_index(current, len, delta) is None,
{
    if len == 0 {
        None
    } else {
        let held = if current < len { current } else { len - 1 };
        Some(cycle_index(held, len, delta))
    }
}

/// The scroll offset of the shortcut help after scrolling `delta` lines. The step is the
/// distance cut to its low 16 bits, as the editor's `u16` conversion keeps them; the offset
/// stops at 0 and at `u16::MAX`. Closed help does not scroll.
pub open spec fn help_scrolled(open: bool, scroll: u16, delta: i32) -> u16 {
    if !open {
        scroll
    } else if delta < 0 {
        let step = (-(delta as int)) as u16;
        if scroll >= step {
            (scroll - step) as u16
        } else {
            0
        }
    } else {
        let step = delta as u16;
        if scroll + step <= u16::MAX {
            (scroll + step) as u16
        } else {
            u16::MAX
        }
    }
}

/// Scrolls the shortcut help by `delta` lines (see [`help_scrolled`]).
pub fn scroll_shortcut_help(open: bool, scroll: u16, delta: i32) -> (r: u16)
    ensures
        r == help_scrolled(open, scroll, delta),
{
    if !open {
        return scroll;
    }
    if delta < 0 {
        let distance: u32 = (0i64 - delta as i64) as u32;
        let step: u16 = distance as u16;
        scroll.saturating_sub(step)
    } else {
        let step: u16 = delta as u16;
        scroll.saturating_add(step)
    }
}

/// Scrolling the open help down never lowers its offset, and scrolling up never raises it.
pub proof fn law_help_scrolls_down_and_up(scroll: u16, delta: i32)
    ensures
        delta > 0 ==> help_scrolled(true, scroll, delta) >= scroll,
        delta < 0 ==> help_scrolled(true, scroll, delta) <= scroll,
        delta == 1 && scroll < u16::MAX ==> help_scrolled(true, scroll, delta) == scroll + 1,
        delta == -1 && scroll > 0 ==> help_scrolled(true, scroll, delta) == scroll - 1,
{
    if delta == -1 {
        assert(-(delta as int) == 1);
    }
}

} // verus!
