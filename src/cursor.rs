use vstd::prelude::*;

use crate::result::{error, ok, OpResult};

verus! {

/// What a cursor holds, as mathematical values.
pub struct CursorView {
    /// The length of the sequence the cursor ranges over.
    pub capacity: nat,
    /// Whether moving past either end wraps around to the other end.
    pub rotation: bool,
    /// The current position.
    pub index: nat,
}

impl CursorView {
    /// The position is a valid subscript, or 0 when there is nothing to point at.
    pub open spec fn wf(self) -> bool {
        &&& self.capacity == 0 ==> self.index == 0
        &&& self.capacity > 0 ==> self.index < self.capacity
    }

    /// The cursor after its capacity is set to `capacity`: an index that no longer
    /// fits is clamped to the last slot, or to 0 when nothing is left.
    pub open spec fn with_capacity(self, capacity: nat) -> CursorView {
        let index = if self.index < capacity {
            self.index
        } else if capacity == 0 {
            0
        } else {
            (capacity - 1) as nat
        };
        CursorView { capacity, rotation: self.rotation, index }
    }

    /// The cursor after one step forward, or `None` when the step is refused.
    pub open spec fn step_forward(self) -> Option<CursorView> {
        if self.capacity == 0 {
            None
        } else if self.index + 1 == self.capacity {
            if self.rotation {
                Some(CursorView { index: 0, ..self })
            } else {
                None
            }
        } else {
            Some(CursorView { index: self.index + 1, ..self })
        }
    }

    /// The cursor after one step backward, or `None` when the step is refused.
    pub open spec fn step_backward(self) -> Option<CursorView> {
        if self.capacity == 0 {
            None
        } else if self.index == 0 {
            if self.rotation {
                Some(CursorView { index: (self.capacity - 1) as nat, ..self })
            } else {
                None
            }
        } else {
            Some(CursorView { index: (self.index - 1) as nat, ..self })
        }
    }

    /// Up to `n` steps forward, stopping at the first refused step: the cursor
    /// reached, and whether all `n` steps were taken.
    pub open spec fn forward_n(self, n: nat) -> (CursorView, bool)
        decreases n,
    {
        if n == 0 {
            (self, true)
        } else {
            match self.step_forward() {
                None => (self, false),
                Some(c) => c.forward_n((n - 1) as nat),
            }
        }
    }

    /// Up to `n` steps backward, stopping at the first refused step: the cursor
    /// reached, and whether all `n` steps were taken.
    pub open spec fn backward_n(self, n: nat) -> (CursorView, bool)
        decreases n,
    {
        if n == 0 {
            (self, true)
        } else {
            match self.step_backward() {
                None => (self, false),
                Some(c) => c.backward_n((n - 1) as nat),
            }
        }
    }
}

/// A position over a sequence that it knows only by its length (the capacity).
///
/// The index is always a valid subscript when the capacity is positive, and 0
/// otherwise.
#[derive(Debug, PartialEq)]
pub struct Cursor {
    capacity: usize,
    rotation: bool,
    index: usize,
}

impl View for Cursor {
    type V = CursorView;

    closed spec fn view(&self) -> CursorView {
        CursorView {
            capacity: self.capacity as nat,
            rotation: self.rotation,
            index: self.index as nat,
        }
    }
}

impl Cursor {
    #[verifier::type_invariant]
    spec fn inv(&self) -> bool {
        self@.wf()
    }

    /// A cursor at index 0, without rotation.
    pub fn new(capacity: usize) -> (c: Self)
        ensures
            c@ == (CursorView { capacity: capacity as nat, rotation: false, index: 0 }),
    {
        Self { capacity, rotation: false, index: 0 }
    }

    /// Turns wrap-around at the ends on or off.
    pub fn set_rotation(&mut self, rotation: bool)
        ensures
            final(self)@ == (CursorView { rotation, ..old(self)@ }),
    {
        proof {
            use_type_invariant(&*self);
        }
        self.rotation = rotation;
    }

    /// The current index.
    pub fn get_value(&self) -> (r: usize)
        ensures
            r == self@.index,
            self@.wf(),
    {
        proof {
            use_type_invariant(self);
        }
        self.index
    }

    /// Moves to `value` if it is a valid subscript (`value < capacity`); fails and
    /// leaves the cursor unchanged otherwise.
    ///
    /// The bound is strict, so that the index never points one past the last slot.
    pub fn set_value(&mut self, value: usize) -> (r: OpResult)
        ensures
            value < old(self)@.capacity ==> r is Ok && final(self)@ == (CursorView {
                index: value as nat,
                ..old(self)@
            }),
            value >= old(self)@.capacity ==> (r matches Err(m) && m@ == "Cursor out of range"@)
                && final(self)@ == old(self)@,
    {
        if value >= self.capacity {
            error("Cursor out of range")
        } else {
            self.index = value;
            ok()
        }
    }

    /// Sets the capacity, clamping the index into the new range (to 0 when the
    /// capacity becomes 0).
    pub fn set_capacity(&mut self, capacity: usize)
        ensures
            final(self)@ == old(self)@.with_capacity(capacity as nat),
    {
        let index = if self.index < capacity {
            self.index
        } else if capacity == 0 {
            0
        } else {
            capacity - 1
        };
        *self = Cursor { capacity, rotation: self.rotation, index };
    }

    /// One step forward. At the last slot it wraps to 0 with rotation, and fails
    /// without; it also fails when the capacity is 0. A failed step changes nothing.
    pub fn increase(&mut self) -> (r: OpResult)
        ensures
            old(self)@.capacity == 0 ==> (r matches Err(m) && m@ == "Empty container"@),
            old(self)@.capacity > 0 && old(self)@.step_forward() is None ==> (r matches Err(m)
                && m@ == "Cursor out of range"@),
            match old(self)@.step_forward() {
                None => final(self)@ == old(self)@,
                Some(c) => r is Ok && final(self)@ == c,
            },
    {
        proof {
            use_type_invariant(&*self);
        }
        if self.capacity == 0 {
            return error("Empty container");
        }
        if self.index == self.capacity - 1 {
            if self.rotation {
                self.index = 0;
                ok()
            } else {
                error("Cursor out of range")
            }
        } else {
            self.index += 1;
            ok()
        }
    }

    /// One step backward. At index 0 it wraps to the last slot with rotation, and
    /// fails without; it also fails when the capacity is 0. A failed step changes
    /// nothing.
    pub fn decrease(&mut self) -> (r: OpResult)
        ensures
            old(self)@.capacity == 0 ==> (r matches Err(m) && m@ == "Empty container"@),
            old(self)@.capacity > 0 && old(self)@.step_backward() is None ==> (r matches Err(m)
                && m@ == "Cursor out of range"@),
            match old(self)@.step_backward() {
                None => final(self)@ == old(self)@,
                Some(c) => r is Ok && final(self)@ == c,
            },
    {
        proof {
            use_type_invariant(&*self);
        }
        if self.capacity == 0 {
            return error("Empty container");
        }
        if self.index == 0 {
            if self.rotation {
                self.index = self.capacity - 1;
                ok()
            } else {
                error("Cursor out of range")
            }
        } else {
            self.index -= 1;
            ok()
        }
    }
}

/// What a cursor state holds, as mathematical values.
pub enum CursorStateView<T> {
    MinOut,
    EmptyContainer,
    Valid(T),
    OutOfRange,
    MaxOut,
}

/// State of a cursor after a read or a move.
///
/// `value` turns it into an option.
#[derive(Debug, PartialEq)]
pub enum CursorState<'container, T> {
    /// The cursor cannot move back: it reached index 0.
    MinOut,
    /// The cursor cannot point at anything: the container is empty.
    EmptyContainer,
    /// The cursor is at a valid position and refers to this element.
    Valid(&'container T),
    /// The cursor is not within the container's range: the container was changed
    /// directly and the cursor was not updated since.
    OutOfRange,
    /// The cursor cannot move forward: it reached the last index.
    MaxOut,
}

impl<'container, T> View for CursorState<'container, T> {
    type V = CursorStateView<T>;

    open spec fn view(&self) -> CursorStateView<T> {
        match *self {
            CursorState::MinOut => CursorStateView::MinOut,
            CursorState::EmptyContainer => CursorStateView::EmptyContainer,
            CursorState::Valid(v) => CursorStateView::Valid(*v),
            CursorState::OutOfRange => CursorStateView::OutOfRange,
            CursorState::MaxOut => CursorStateView::MaxOut,
        }
    }
}

impl<'container, T> CursorState<'container, T> {
    /// The element referred to, if the state is `Valid`.
    pub fn value(&self) -> (r: Option<&T>)
        ensures
            self@ matches CursorStateView::Valid(v) ==> r matches Some(x) && *x == v,
            !(self@ is Valid) ==> r is None,
    {
        if let CursorState::Valid(val) = self {
            Some(*val)
        } else {
            None
        }
    }
}

} // verus!
