//! The stack of variables used during code generation.
//!
//! The stack is composed of frames stacked one on top of another; each
//! frame can hold one or more variables. It lives in a bounded region
//! of guest linear memory and is mirrored host-side, because values
//! like structures, maps and arrays cannot be handled by guest code
//! directly and must stay reachable from host functions called from
//! the guest. The two mirrored stacks always reserve space together,
//! so their used ranges are numerically identical; the allocator below
//! models that single logical stack of abstract slots.

use vstd::prelude::*;

use crate::types::Type;

verus! {

/// Start of the guest-memory region that holds the variables stack.
pub const VARS_STACK_START: i32 = 1024;

/// End of the guest-memory region that holds the variables stack:
/// room for 1024 slots of [`VAR_SLOT_SIZE`] bytes each.
pub const VARS_STACK_END: i32 = VARS_STACK_START + 1024 * 8;

/// Width in bytes of one stack slot; guest memory holds each variable
/// as one 64-bit value.
pub const VAR_SLOT_SIZE: i32 = 8;

/// Reserving a frame would push the stack past the end of its region.
/// This is a normal, user-triggerable compilation failure (the source
/// rules nest too deeply), reported through the same channel as other
/// rule-compilation errors; it is not an internal defect.
#[derive(Clone, Copy, Debug, PartialEq, Eq, Structural)]
pub struct StackExhausted;

/// A variable in the stack: its type and the slot index through which
/// generated guest code addresses it. The variable's value resides at
/// [`VARS_STACK_START`] `+ index * VAR_SLOT_SIZE` in guest memory. A
/// `Var` is only meaningful while the frame that produced it is alive.
#[derive(Clone, Copy, Debug, PartialEq, Eq, Structural)]
pub struct Var {
    /// The type of the variable.
    pub ty: Type,
    /// The slot index corresponding to this variable.
    pub index: i32,
}

/// A frame in the stack of variables: a contiguous reserved range of
/// `capacity` slots beginning at `start`. Individual variables are
/// allocated within a frame with [`VarStackFrame::new_var`].
#[derive(Clone, Debug)]
pub struct VarStackFrame {
    /// First slot of the range this frame reserved.
    pub start: i32,
    /// Slots of this frame already handed out.
    pub used: i32,
    /// Slots this frame reserved; `new_var` may not exceed it.
    pub capacity: i32,
}

impl VarStackFrame {
    /// A frame is well formed when its range is non-negative, it has
    /// not handed out more slots than it reserved, and its end fits in
    /// a slot index.
    pub open spec fn wf(self) -> bool {
        &&& 0 <= self.start
        &&& 0 <= self.used <= self.capacity
        &&& self.start + self.capacity <= i32::MAX
    }

    /// Allocates space for one new variable in the frame.
    ///
    /// Callers declare a frame's capacity up front from a static count
    /// of the variables their lexical scope needs, so asking for more
    /// than that capacity is a compiler defect, excluded here rather
    /// than handled.
    pub fn new_var(&mut self, ty: Type) -> (v: Var)
        requires
            old(self).wf(),
            old(self).used < old(self).capacity,
        ensures
            final(self).wf(),
            final(self).start == old(self).start,
            final(self).capacity == old(self).capacity,
            final(self).used == old(self).used + 1,
            v == (Var { ty, index: (old(self).start + old(self).used) as i32 }),
    {
        let index = self.used + self.start;
        self.used = self.used + 1;
        Var { ty, index }
    }
}

/// The stack of variables: tracks how many slots of the shared region
/// are in use. One instance exists per compilation; it is exclusively
/// owned by the compilation context.
#[derive(Clone, Debug)]
pub struct VarStack {
    /// High-water mark: the number of slots currently reserved.
    pub used: i32,
    /// Size in bytes of the shared region this stack may occupy; fixed
    /// at construction.
    pub region_size: i32,
}

impl VarStack {
    /// The stack invariant: the reserved slots always fit the region.
    pub open spec fn wf(self) -> bool {
        &&& 0 <= self.used
        &&& 0 <= self.region_size
        &&& self.used * VAR_SLOT_SIZE <= self.region_size
    }

    /// Whether a frame of `capacity` slots fits on top of the current
    /// cursor.
    pub open spec fn frame_fits(self, capacity: i32) -> bool {
        (self.used + capacity) * VAR_SLOT_SIZE <= self.region_size
    }

    /// The stack and frame that a successful reservation of `capacity`
    /// slots produces.
    pub open spec fn spec_new_frame(self, capacity: i32) -> (VarStack, VarStackFrame) {
        (
            VarStack { used: (self.used + capacity) as i32, region_size: self.region_size },
            VarStackFrame { start: self.used, used: 0, capacity },
        )
    }

    /// The stack that unwinding `frame` leaves behind: the cursor is
    /// back at the frame's start.
    pub open spec fn spec_unwind(self, frame: VarStackFrame) -> VarStack {
        VarStack { used: frame.start, region_size: self.region_size }
    }

    /// Creates a stack of variables sized for the fixed guest-memory
    /// region.
    pub fn new() -> (s: Self)
        ensures
            s.used == 0,
            s.region_size == VARS_STACK_END - VARS_STACK_START,
            s.wf(),
    {
        VarStack { used: 0, region_size: VARS_STACK_END - VARS_STACK_START }
    }

    /// Creates a stack of variables over a region of `region_size`
    /// bytes.
    pub fn with_region_size(region_size: i32) -> (s: Self)
        requires
            region_size >= 0,
        ensures
            s.used == 0,
            s.region_size == region_size,
            s.wf(),
    {
        VarStack { used: 0, region_size }
    }

    /// Creates a new stack frame with the given capacity on top of the
    /// existing ones. The returned frame can hold `capacity` variables,
    /// but not more; use [`VarStackFrame::new_var`] to allocate the
    /// individual variables within it.
    ///
    /// Reservation fails with [`StackExhausted`] exactly when the new
    /// cursor would exceed the shared region, and on failure the stack
    /// is left unchanged.
    pub fn new_frame(&mut self, capacity: i32) -> (r: Result<VarStackFrame, StackExhausted>)
        requires
            old(self).wf(),
            capacity >= 0,
        ensures
            final(self).wf(),
            final(self).region_size == old(self).region_size,
            r is Ok <==> old(self).frame_fits(capacity),
            r is Err ==> *final(self) == *old(self),
            r matches Ok(f) ==> {
                &&& (*final(self), f) == old(self).spec_new_frame(capacity)
                &&& f.wf()
            },
    {
        let needed: i64 = (self.used as i64 + capacity as i64) * (VAR_SLOT_SIZE as i64);
        if needed > self.region_size as i64 {
            return Err(StackExhausted);
        }
        let start = self.used;
        self.used = self.used + capacity;
        Ok(VarStackFrame { start, used: 0, capacity })
    }

    /// Unwinds the stack, freeing every frame that was reserved after
    /// the given one, the given frame included: the cursor returns to
    /// `frame.start`.
    ///
    /// Unwinding a frame that was already unwound past (a double free)
    /// is a compiler defect, excluded here rather than handled.
    pub fn unwind(&mut self, frame: &VarStackFrame)
        requires
            old(self).wf(),
            0 <= frame.start,
            frame.start <= old(self).used,
        ensures
            final(self).wf(),
            *final(self) == old(self).spec_unwind(*frame),
            final(self).used == frame.start,
            final(self).region_size == old(self).region_size,
    {
        self.used = frame.start;
    }
}

/// Whether a tower of nested reservations, one frame per entry of
/// `caps`, fits the region when stacked onto `s`.
pub open spec fn nested_frames_fit(s: VarStack, caps: Seq<i32>) -> bool
    decreases caps.len(),
{
    caps.len() == 0 || {
        &&& 0 <= caps[0]
        &&& s.frame_fits(caps[0])
        &&& nested_frames_fit(s.spec_new_frame(caps[0]).0, caps.drop_first())
    }
}

/// The stack left behind by a strictly nested run over `s`: reserve a
/// frame of `caps[0]` slots, run the rest of the tower inside it, then
/// unwind the frame, exactly as code generation does when it descends
/// into nested lexical scopes.
pub open spec fn run_nested(s: VarStack, caps: Seq<i32>) -> VarStack
    decreases caps.len(),
{
    if caps.len() == 0 {
        s
    } else {
        let (entered, frame) = s.spec_new_frame(caps[0]);
        run_nested(entered, caps.drop_first()).spec_unwind(frame)
    }
}

/// Frames are released last-in-first-out: after any strictly nested
/// sequence of reservations and unwinds, the cursor stands exactly
/// where it stood before the first reservation, and the region is
/// untouched.
pub proof fn lemma_frame_lifo(s: VarStack, caps: Seq<i32>)
    ensures
        run_nested(s, caps).used == s.used,
        run_nested(s, caps).region_size == s.region_size,
    decreases caps.len(),
{
    if caps.len() > 0 {
        lemma_frame_lifo(s.spec_new_frame(caps[0]).0, caps.drop_first());
    }
}

/// Unwinding a frame restores the cursor to where it stood when the
/// frame was reserved, whatever reservations and releases happened in
/// between: the frame's start is fixed at reservation time, and
/// unwinding moves the cursor to exactly that start.
pub proof fn lemma_unwind_restores(s0: VarStack, capacity: i32, inner: VarStack)
    requires
        0 <= capacity,
        s0.frame_fits(capacity),
        inner.region_size == s0.region_size,
    ensures
        inner.spec_unwind(s0.spec_new_frame(capacity).1) == (VarStack {
            used: s0.used,
            region_size: s0.region_size,
        }),
{
}

} // verus!
