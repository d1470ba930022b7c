use vstd::prelude::*;

use vstd::arithmetic::div_mod::{lemma_add_mod_noop_right, lemma_mod_self_0, lemma_small_mod};

use crate::container::CursorVecView;
use crate::cursor::{CursorStateView, CursorView};

verus! {

/// Bringing the cursor up to date leaves it in step with the elements, with an
/// index below their number whenever there are any; the current element then
/// never reads as out of range.
pub proof fn lemma_resync_bounds_cursor<T>(v: CursorVecView<T>)
    ensures
        v.resynced().synced(),
        v.resynced().cursor.wf(),
        v.elements.len() > 0 ==> v.resynced().cursor.index < v.elements.len(),
        v.elements.len() == 0 ==> v.resynced().current() == CursorStateView::<T>::EmptyContainer,
        !(v.resynced().current() is OutOfRange),
{
}

/// Bringing the cursor up to date twice has the same effect as doing it once.
pub proof fn lemma_update_cursor_idempotent<T>(v: CursorVecView<T>)
    ensures
        v.resynced().resynced() == v.resynced(),
{
}

/// After the elements are replaced by `s`, setting the cursor to any `k` below the
/// length of `s` makes the current element `s[k]`. Setting it to the length of `s`
/// is refused, and the current element is then the one under the unchanged cursor
/// (or `EmptyContainer` when `s` is empty).
pub proof fn lemma_set_container_then_cursor<T>(v: CursorVecView<T>, s: Seq<T>, k: nat)
    requires
        k <= s.len(),
    ensures
        ({
            let w = (CursorVecView { elements: s, cursor: v.cursor }).resynced();
            &&& k < w.cursor.capacity <==> k < s.len()
            &&& k < s.len() ==> w.with_cursor(CursorView { index: k, ..w.cursor }).current()
                == CursorStateView::Valid(s[k as int])
            &&& k == s.len() && s.len() > 0 ==> w.current() == CursorStateView::Valid(
                s[w.cursor.index as int],
            )
            &&& s.len() == 0 ==> w.current() == CursorStateView::<T>::EmptyContainer
        }),
{
}

/// Without rotation, a cursor at the last index refuses every further step
/// forward and stays where it is.
pub proof fn lemma_no_drift_at_end(c: CursorView, n: nat)
    requires
        c.wf(),
        !c.rotation,
        c.capacity > 0,
        c.index == c.capacity - 1,
    ensures
        c.step_forward() is None,
        c.forward_n(n) == (c, n == 0),
{
}

/// Without rotation, a cursor at index 0 refuses every further step backward and
/// stays where it is.
pub proof fn lemma_no_drift_at_start(c: CursorView, n: nat)
    requires
        c.wf(),
        !c.rotation,
        c.capacity > 0,
        c.index == 0,
    ensures
        c.step_backward() is None,
        c.backward_n(n) == (c, n == 0),
{
}

/// With rotation, one step forward from the last index of a non-empty, up-to-date
/// container lands on index 0 and reads the first element.
pub proof fn lemma_rotation_wraps_to_first<T>(v: CursorVecView<T>)
    requires
        v.synced(),
        v.cursor.rotation,
        v.elements.len() > 0,
        v.cursor.index == v.elements.len() - 1,
    ensures
        v.cursor.step_forward() == Some(CursorView { index: 0, ..v.cursor }),
        v.with_cursor(CursorView { index: 0, ..v.cursor }).current() == CursorStateView::Valid(
            v.elements[0],
        ),
{
}

/// With rotation, `n` steps forward always succeed and land on
/// `(index + n) % capacity`.
pub proof fn lemma_rotating_forward_n(c: CursorView, n: nat)
    requires
        c.wf(),
        c.rotation,
        c.capacity > 0,
    ensures
        c.forward_n(n) == (CursorView { index: ((c.index + n) % c.capacity) as nat, ..c }, true),
    decreases n,
{
    if n == 0 {
        lemma_small_mod(c.index, c.capacity);
    } else {
        let m = c.capacity as int;
        let i = c.index as int;
        let k = n - 1;
        let d = c.step_forward().unwrap();
        if c.index + 1 == c.capacity {
            lemma_mod_self_0(m);
        } else {
            lemma_small_mod((c.index + 1) as nat, c.capacity);
        }
        assert(d.index == (i + 1) % m);
        lemma_rotating_forward_n(d, (n - 1) as nat);
        lemma_add_mod_noop_right(k, i + 1, m);
        assert(d.index + k == k + (i + 1) % m);
        assert(k + (i + 1) == i + n);
    }
}

} // verus!
