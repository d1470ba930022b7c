use vstd::prelude::*;

use crate::cursor::{Cursor, CursorState, CursorStateView, CursorView};
use crate::result::{error, is_true, OpResult};

verus! {

/// What a cursor vector holds, as mathematical values.
pub struct CursorVecView<T> {
    /// The elements of the backing vector, in order.
    pub elements: Seq<T>,
    /// The cursor.
    pub cursor: CursorView,
}

impl<T> CursorVecView<T> {
    /// The cursor's capacity agrees with the number of elements.
    pub open spec fn synced(self) -> bool {
        self.cursor.capacity == self.elements.len()
    }

    /// The same elements, with the cursor's capacity set to their number.
    pub open spec fn resynced(self) -> CursorVecView<T> {
        CursorVecView {
            elements: self.elements,
            cursor: self.cursor.with_capacity(self.elements.len()),
        }
    }

    /// The same elements under another cursor.
    pub open spec fn with_cursor(self, cursor: CursorView) -> CursorVecView<T> {
        CursorVecView { elements: self.elements, cursor }
    }

    /// The element under the cursor, if the index is within the elements.
    pub open spec fn current_value(self) -> Option<T> {
        if self.cursor.index < self.elements.len() {
            Some(self.elements[self.cursor.index as int])
        } else {
            None
        }
    }

    /// The state that reading the current element reports.
    pub open spec fn current(self) -> CursorStateView<T> {
        if self.elements.len() == 0 {
            CursorStateView::EmptyContainer
        } else if self.cursor.index < self.elements.len() {
            CursorStateView::Valid(self.elements[self.cursor.index as int])
        } else {
            CursorStateView::OutOfRange
        }
    }
}

/// An optional reference, seen as an optional value.
pub open spec fn deref_opt<T>(o: Option<&T>) -> Option<T> {
    match o {
        Some(x) => Some(*x),
        None => None,
    }
}

/// A vector with a cursor over its elements.
///
/// Cursor operations report whether they succeeded. The vector can also be
/// changed directly, through `container_mut`; the cursor then has to be brought
/// up to date with `update_cursor` before its reads can be trusted.
#[derive(Debug)]
pub struct CursorVec<T> {
    vector: Vec<T>,
    cursor: Cursor,
}

impl<T> View for CursorVec<T> {
    type V = CursorVecView<T>;

    closed spec fn view(&self) -> CursorVecView<T> {
        CursorVecView { elements: self.vector@, cursor: self.cursor@ }
    }
}

impl<T> core::ops::Deref for CursorVec<T> {
    type Target = Vec<T>;

    /// The elements, for reading.
    fn deref(&self) -> (r: &Vec<T>)
        ensures
            r@ == self@.elements,
    {
        &self.vector
    }
}

impl<T> core::ops::DerefMut for CursorVec<T> {
    /// The elements, for changing directly. The cursor is left as it is.
    fn deref_mut(&mut self) -> (r: &mut Vec<T>)
        ensures
            r@ == old(self)@.elements,
            final(self)@ == (CursorVecView { elements: final(r)@, cursor: old(self)@.cursor }),
    {
        &mut self.vector
    }
}

impl<T> Default for CursorVec<T> {
    /// An empty container, as `new` makes it.
    fn default() -> (r: Self)
        ensures
            r@ == (CursorVecView {
                elements: Seq::<T>::empty(),
                cursor: CursorView { capacity: 0, rotation: false, index: 0 },
            }),
    {
        Self::new()
    }
}

impl<T> CursorVec<T> {
    /// An empty container whose cursor is at 0, without rotation.
    pub fn new() -> (r: Self)
        ensures
            r@ == (CursorVecView {
                elements: Seq::<T>::empty(),
                cursor: CursorView { capacity: 0, rotation: false, index: 0 },
            }),
    {
        Self { vector: Vec::new(), cursor: Cursor::new(0) }
    }

    /// The same container holding `vector`, the cursor brought up to date.
    pub fn with_container(self, vector: Vec<T>) -> (r: Self)
        ensures
            r@ == (CursorVecView { elements: vector@, cursor: self@.cursor }).resynced(),
    {
        let mut built = self;
        built.vector = vector;
        built.cursor.set_capacity(built.vector.len());
        built
    }

    /// The same container, with rotation turned on or off.
    pub fn rotatable(self, rotatable: bool) -> (r: Self)
        ensures
            r@ == self@.with_cursor(CursorView { rotation: rotatable, ..self@.cursor }),
    {
        let mut built = self;
        built.cursor.set_rotation(rotatable);
        built
    }

    /// Turns the cursor's rotation on or off.
    pub fn set_rotatable(&mut self, rotatable: bool)
        ensures
            final(self)@ == old(self)@.with_cursor(
                CursorView { rotation: rotatable, ..old(self)@.cursor },
            ),
    {
        self.cursor.set_rotation(rotatable);
    }

    /// Replaces the elements, and brings the cursor up to date.
    pub fn set_container(&mut self, container: Vec<T>)
        ensures
            final(self)@ == (CursorVecView {
                elements: container@,
                cursor: old(self)@.cursor,
            }).resynced(),
    {
        self.vector = container;
        self.update_cursor();
    }

    /// Changes the elements with `f`, then brings the cursor up to date.
    pub fn modify<F: Fn(&mut Vec<T>)>(&mut self, f: F)
        requires
            forall|v: &mut Vec<T>| #[trigger] f.requires((v,)),
        ensures
            exists|v: &mut Vec<T>|
                #![trigger f.ensures((v,), ())]
                f.ensures((v,), ()) && v@ == old(self)@.elements && final(v)@ == final(self)@.elements,
            final(self)@ == (CursorVecView {
                elements: final(self)@.elements,
                cursor: old(self)@.cursor,
            }).resynced(),
    {
        f(&mut self.vector);
        self.update_cursor();
    }

    /// Sets the cursor's capacity to the number of elements, clamping its index.
    ///
    /// Needed after the vector was changed directly.
    pub fn update_cursor(&mut self)
        ensures
            final(self)@ == old(self)@.resynced(),
    {
        self.cursor.set_capacity(self.vector.len());
    }

    /// One step forward, then the element under the cursor. Reports `EmptyContainer`
    /// on an empty container and `MaxOut` where the cursor refuses the step, moving
    /// nothing in either case.
    pub fn move_next_and_get(&mut self) -> (r: CursorState<'_, T>)
        ensures
            old(self)@.elements.len() == 0 ==> r@ == CursorStateView::<T>::EmptyContainer
                && final(self)@ == old(self)@,
            old(self)@.elements.len() > 0 ==> match old(self)@.cursor.step_forward() {
                None => r@ == CursorStateView::<T>::MaxOut && final(self)@ == old(self)@,
                Some(c) => final(self)@ == old(self)@.with_cursor(c) && r@ == final(self)@.current(),
            },
    {
        if self.is_empty_container() {
            return CursorState::EmptyContainer;
        }
        if !is_true(self.cursor.increase()) {
            return CursorState::MaxOut;
        }
        self.state_of_current()
    }

    /// One step forward if the cursor allows it, then the element under the cursor,
    /// moved or not. `None` on an empty container, where nothing moves.
    pub fn move_next_and_get_always(&mut self) -> (r: Option<&T>)
        ensures
            old(self)@.elements.len() == 0 ==> r is None && final(self)@ == old(self)@,
            old(self)@.elements.len() > 0 ==> final(self)@ == old(self)@.with_cursor(
                old(self)@.cursor.forward_n(1).0,
            ) && deref_opt(r) == final(self)@.current_value(),
    {
        if self.is_empty_container() {
            return None;
        }
        proof {
            reveal_with_fuel(CursorView::forward_n, 2);
        }
        let _ = self.cursor.increase();
        self.get_cursor_value()
    }

    /// `amount` steps forward, then the element under the cursor. Reports
    /// `EmptyContainer` on an empty container, where nothing moves, and `MaxOut` at
    /// the first step the cursor refuses, where the cursor stays at the position
    /// reached so far.
    pub fn move_next_nth_and_get(&mut self, amount: usize) -> (r: CursorState<'_, T>)
        ensures
            old(self)@.elements.len() == 0 ==> r@ == CursorStateView::<T>::EmptyContainer
                && final(self)@ == old(self)@,
            old(self)@.elements.len() > 0 ==> final(self)@ == old(self)@.with_cursor(
                old(self)@.cursor.forward_n(amount as nat).0,
            ) && r@ == (if old(self)@.cursor.forward_n(amount as nat).1 {
                final(self)@.current()
            } else {
                CursorStateView::<T>::MaxOut
            }),
    {
        if self.is_empty_container() {
            return CursorState::EmptyContainer;
        }
        let mut i: usize = 0;
        while i < amount
            invariant
                i <= amount,
                self@.elements == old(self)@.elements,
                self@.elements.len() > 0,
                old(self)@.cursor.forward_n(amount as nat) == self@.cursor.forward_n(
                    (amount - i) as nat,
                ),
            decreases amount - i,
        {
            if !is_true(self.cursor.increase()) {
                return CursorState::MaxOut;
            }
            i += 1;
        }
        self.state_of_current()
    }

    /// Up to `amount` steps forward, stopping at the first step the cursor refuses,
    /// then the element under the cursor. `None` on an empty container, where
    /// nothing moves.
    pub fn move_next_nth_and_get_always(&mut self, amount: usize) -> (r: Option<&T>)
        ensures
            old(self)@.elements.len() == 0 ==> r is None && final(self)@ == old(self)@,
            old(self)@.elements.len() > 0 ==> final(self)@ == old(self)@.with_cursor(
                old(self)@.cursor.forward_n(amount as nat).0,
            ) && deref_opt(r) == final(self)@.current_value(),
    {
        if self.is_empty_container() {
            return None;
        }
        let mut i: usize = 0;
        while i < amount
            invariant
                i <= amount,
                self@.elements == old(self)@.elements,
                self@.elements.len() > 0,
                old(self)@.cursor.forward_n(amount as nat) == self@.cursor.forward_n(
                    (amount - i) as nat,
                ),
            decreases amount - i,
        {
            if !is_true(self.cursor.increase()) {
                return self.get_cursor_value();
            }
            i += 1;
        }
        self.get_cursor_value()
    }

    /// One step backward, then the element under the cursor. Reports `EmptyContainer`
    /// on an empty container and `MinOut` where the cursor refuses the step, moving
    /// nothing in either case.
    pub fn move_prev_and_get(&mut self) -> (r: CursorState<'_, T>)
        ensures
            old(self)@.elements.len() == 0 ==> r@ == CursorStateView::<T>::EmptyContainer
                && final(self)@ == old(self)@,
            old(self)@.elements.len() > 0 ==> match old(self)@.cursor.step_backward() {
                None => r@ == CursorStateView::<T>::MinOut && final(self)@ == old(self)@,
                Some(c) => final(self)@ == old(self)@.with_cursor(c) && r@ == final(self)@.current(),
            },
    {
        if self.is_empty_container() {
            return CursorState::EmptyContainer;
        }
        if !is_true(self.cursor.decrease()) {
            return CursorState::MinOut;
        }
        self.state_of_current()
    }

    /// One step backward if the cursor allows it, then the element under the cursor,
    /// moved or not. `None` on an empty container, where nothing moves.
    pub fn move_prev_and_get_always(&mut self) -> (r: Option<&T>)
        ensures
            old(self)@.elements.len() == 0 ==> r is None && final(self)@ == old(self)@,
            old(self)@.elements.len() > 0 ==> final(self)@ == old(self)@.with_cursor(
                old(self)@.cursor.backward_n(1).0,
            ) && deref_opt(r) == final(self)@.current_value(),
    {
        if self.is_empty_container() {
            return None;
        }
        proof {
            reveal_with_fuel(CursorView::backward_n, 2);
        }
        let _ = self.cursor.decrease();
        self.get_cursor_value()
    }

    /// `amount` steps backward, then the element under the cursor. Reports
    /// `EmptyContainer` on an empty container, where nothing moves, and `MinOut` at
    /// the first step the cursor refuses, where the cursor stays at the position
    /// reached so far.
    pub fn move_prev_nth_and_get(&mut self, amount: usize) -> (r: CursorState<'_, T>)
        ensures
            old(self)@.elements.len() == 0 ==> r@ == CursorStateView::<T>::EmptyContainer
                && final(self)@ == old(self)@,
            old(self)@.elements.len() > 0 ==> final(self)@ == old(self)@.with_cursor(
                old(self)@.cursor.backward_n(amount as nat).0,
            ) && r@ == (if old(self)@.cursor.backward_n(amount as nat).1 {
                final(self)@.current()
            } else {
                CursorStateView::<T>::MinOut
            }),
    {
        if self.is_empty_container() {
            return CursorState::EmptyContainer;
        }
        let mut i: usize = 0;
        while i < amount
            invariant
                i <= amount,
                self@.elements == old(self)@.elements,
                self@.elements.len() > 0,
                old(self)@.cursor.backward_n(amount as nat) == self@.cursor.backward_n(
                    (amount - i) as nat,
                ),
            decreases amount - i,
        {
            if !is_true(self.cursor.decrease()) {
                return CursorState::MinOut;
            }
            i += 1;
        }
        self.state_of_current()
    }

    /// Up to `amount` steps backward, stopping at the first step the cursor refuses,
    /// then the element under the cursor. `None` on an empty container, where
    /// nothing moves.
    pub fn move_prev_nth_and_get_always(&mut self, amount: usize) -> (r: Option<&T>)
        ensures
            old(self)@.elements.len() == 0 ==> r is None && final(self)@ == old(self)@,
            old(self)@.elements.len() > 0 ==> final(self)@ == old(self)@.with_cursor(
                old(self)@.cursor.backward_n(amount as nat).0,
            ) && deref_opt(r) == final(self)@.current_value(),
    {
        if self.is_empty_container() {
            return None;
        }
        let mut i: usize = 0;
        while i < amount
            invariant
                i <= amount,
                self@.elements == old(self)@.elements,
                self@.elements.len() > 0,
                old(self)@.cursor.backward_n(amount as nat) == self@.cursor.backward_n(
                    (amount - i) as nat,
                ),
            decreases amount - i,
        {
            if !is_true(self.cursor.decrease()) {
                return self.get_cursor_value();
            }
            i += 1;
        }
        self.get_cursor_value()
    }

    /// The element under the cursor, reported as a state.
    pub fn get_current(&self) -> (r: CursorState<'_, T>)
        ensures
            r@ == self@.current(),
    {
        if self.is_empty_container() {
            return CursorState::EmptyContainer;
        }
        self.state_of_current()
    }

    /// One step forward. Fails on an empty container, and where the cursor refuses
    /// the step.
    pub fn move_next(&mut self) -> (r: OpResult)
        ensures
            old(self)@.elements.len() == 0 ==> (r matches Err(m) && m@ == "empty container"@)
                && final(self)@ == old(self)@,
            old(self)@.elements.len() > 0 && old(self)@.cursor.capacity == 0 ==> (r matches Err(m)
                && m@ == "Empty container"@),
            old(self)@.elements.len() > 0 && old(self)@.cursor.capacity > 0
                && old(self)@.cursor.step_forward() is None ==> (r matches Err(m) && m@
                == "Cursor out of range"@),
            old(self)@.elements.len() > 0 ==> match old(self)@.cursor.step_forward() {
                None => final(self)@ == old(self)@,
                Some(c) => r is Ok && final(self)@ == old(self)@.with_cursor(c),
            },
    {
        if self.is_empty_container() {
            return error("empty container");
        }
        self.cursor.increase()
    }

    /// One step backward. Fails on an empty container, and where the cursor refuses
    /// the step.
    pub fn move_prev(&mut self) -> (r: OpResult)
        ensures
            old(self)@.elements.len() == 0 ==> (r matches Err(m) && m@ == "empty container"@)
                && final(self)@ == old(self)@,
            old(self)@.elements.len() > 0 && old(self)@.cursor.capacity == 0 ==> (r matches Err(m)
                && m@ == "Empty container"@),
            old(self)@.elements.len() > 0 && old(self)@.cursor.capacity > 0
                && old(self)@.cursor.step_backward() is None ==> (r matches Err(m) && m@
                == "Cursor out of range"@),
            old(self)@.elements.len() > 0 ==> match old(self)@.cursor.step_backward() {
                None => final(self)@ == old(self)@,
                Some(c) => r is Ok && final(self)@ == old(self)@.with_cursor(c),
            },
    {
        if self.is_empty_container() {
            return error("empty container");
        }
        self.cursor.decrease()
    }

    /// The cursor's index, or `None` when the container is empty.
    pub fn get_cursor(&self) -> (r: Option<usize>)
        ensures
            self@.elements.len() == 0 ==> r is None,
            self@.elements.len() > 0 ==> r == Some(self@.cursor.index as usize),
            self@.synced() && self@.elements.len() > 0 ==> r.unwrap() < self@.elements.len(),
    {
        if self.vector.is_empty() {
            None
        } else {
            Some(self.cursor.get_value())
        }
    }

    /// Moves the cursor to `cursor` if it is below the cursor's capacity; fails and
    /// changes nothing otherwise.
    pub fn set_cursor(&mut self, cursor: usize) -> (r: OpResult)
        ensures
            cursor < old(self)@.cursor.capacity ==> r is Ok && final(self)@ == old(self)@.with_cursor(
                CursorView { index: cursor as nat, ..old(self)@.cursor },
            ),
            cursor >= old(self)@.cursor.capacity ==> (r matches Err(m) && m@ == "Cursor out of range"@)
                && final(self)@ == old(self)@,
    {
        self.cursor.set_value(cursor)
    }

    /// The elements, for reading.
    pub fn container(&self) -> (r: &Vec<T>)
        ensures
            r@ == self@.elements,
    {
        &self.vector
    }

    /// The elements, for changing directly. The cursor is left as it is: call
    /// `update_cursor` afterwards.
    pub fn container_mut(&mut self) -> (r: &mut Vec<T>)
        ensures
            r@ == old(self)@.elements,
            final(self)@ == (CursorVecView { elements: final(r)@, cursor: old(self)@.cursor }),
    {
        &mut self.vector
    }

    /// The element under the cursor, if its index is within the vector.
    fn get_cursor_value(&self) -> (r: Option<&T>)
        ensures
            deref_opt(r) == self@.current_value(),
    {
        let i = self.cursor.get_value();
        if i < self.vector.len() {
            Some(&self.vector[i])
        } else {
            None
        }
    }

    /// The state reported for a non-empty container: the element under the cursor,
    /// or `OutOfRange`.
    fn state_of_current(&self) -> (r: CursorState<'_, T>)
        requires
            self@.elements.len() > 0,
        ensures
            r@ == self@.current(),
    {
        match self.get_cursor_value() {
            Some(v) => CursorState::Valid(v),
            None => CursorState::OutOfRange,
        }
    }

    /// Whether the vector has no elements.
    fn is_empty_container(&self) -> (r: bool)
        ensures
            r == (self@.elements.len() == 0),
    {
        self.vector.is_empty()
    }
}

} // verus!
