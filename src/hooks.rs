use vstd::prelude::*;

use crate::control::{ControlledInterpreter, FrameInfo, InterpreterState};
use crate::key::Keys;

verus! {

/// Whether later hooks still see an item.
#[derive(Debug, Copy, Clone, PartialEq, Eq, Structural)]
pub enum FurtherHooks {
    Continue,
    Stop,
}

/// What a hook makes of an item: a replacement, or none, and whether later
/// hooks are asked.
#[derive(Debug, Copy, Clone, PartialEq, Eq)]
pub struct HookedItem<T> {
    pub item: Option<T>,
    pub behaviour: FurtherHooks,
}

impl<T> HookedItem<T> {
    /// Replaces the item and lets later hooks go on.
    pub fn passthrough(item: T) -> (r: Self)
        ensures
            r.item == Some(item),
            r.behaviour == FurtherHooks::Continue,
    {
        HookedItem { item: Some(item), behaviour: FurtherHooks::Continue }
    }

    /// Replaces the item and asks no later hook.
    pub fn finish(item: T) -> (r: Self)
        ensures
            r.item == Some(item),
            r.behaviour == FurtherHooks::Stop,
    {
        HookedItem { item: Some(item), behaviour: FurtherHooks::Stop }
    }

    /// Leaves the item as it is.
    pub fn ignore() -> (r: Self)
        ensures
            r.item.is_none(),
            r.behaviour == FurtherHooks::Continue,
    {
        HookedItem { item: None, behaviour: FurtherHooks::Continue }
    }
}

/// The keys after a hook's answer: its replacement, if it gave one.
pub open spec fn spec_apply_keys(keys: Keys, answer: HookedItem<Keys>) -> Keys {
    match answer.item {
        Some(k) => k,
        None => keys,
    }
}

/// The keys after a hook's answer: its replacement, if it gave one.
pub fn apply_keys(keys: Keys, answer: HookedItem<Keys>) -> (r: Keys)
    ensures
        r == spec_apply_keys(keys, answer),
{
    match answer.item {
        Some(k) => k,
        None => keys,
    }
}

/// The answer of two hooks in a row, where the second saw the keys that the
/// first left: the first one that stops decides; otherwise the later
/// replacement wins.
pub open spec fn spec_combine(first: HookedItem<Keys>, second: HookedItem<Keys>) -> HookedItem<Keys> {
    HookedItem {
        item: match second.item {
            Some(k) => Some(k),
            None => first.item,
        },
        behaviour: second.behaviour,
    }
}

/// An observer of the interpreter, called at fixed points of each step.
/// Each call is described by a relation between what the hook was handed
/// and what it left.
pub trait InterpreterHook<T: ControlledInterpreter>: Sized {
    /// The hook only watches: it changes nothing it is handed, gives no
    /// keys of its own, and stays so.
    spec fn spec_transparent(&self) -> bool;

    /// `pre_cycle` may take the hook to `after` and the state to `state_after`.
    spec fn spec_pre_cycle(&self, state: InterpreterState, after: Self, state_after: InterpreterState) -> bool;

    /// `get_keys` may take the hook to `after` and answer `answer`.
    spec fn spec_get_keys(
        &self,
        state: InterpreterState,
        interpreter: T,
        keys: Keys,
        after: Self,
        answer: HookedItem<Keys>,
    ) -> bool;

    /// `before_step` may take the hook, the engine and the frame to these.
    spec fn spec_before_step(
        &self,
        interpreter: T,
        frame: FrameInfo,
        after: Self,
        interpreter_after: T,
        frame_after: FrameInfo,
    ) -> bool;

    /// `after_step` may take the hook, the engine and the frame to these.
    spec fn spec_after_step(
        &self,
        interpreter: T,
        frame: FrameInfo,
        after: Self,
        interpreter_after: T,
        frame_after: FrameInfo,
    ) -> bool;

    /// `post_cycle` may take the hook to `after` and the state to `state_after`.
    spec fn spec_post_cycle(&self, state: InterpreterState, after: Self, state_after: InterpreterState) -> bool;

    /// Called at the very start of each step.
    fn pre_cycle(&mut self, state: &mut InterpreterState)
        ensures
            old(self).spec_pre_cycle(*old(state), *final(self), *final(state)),
            old(self).spec_transparent() ==> *final(state) == *old(state)
                && final(self).spec_transparent(),
    ;

    /// Called with the keys read from the host; may replace them.
    fn get_keys(&mut self, state: InterpreterState, interpreter: &T, keys: Keys) -> (r: HookedItem<Keys>)
        ensures
            old(self).spec_get_keys(state, *interpreter, keys, *final(self), r),
            old(self).spec_transparent() ==> r.item.is_none() && final(self).spec_transparent(),
    ;

    /// Called immediately before the engine's step.
    fn before_step(&mut self, interpreter: &mut T, frame: &mut FrameInfo)
        requires
            old(interpreter).wf(),
        ensures
            final(interpreter).wf(),
            old(self).spec_before_step(*old(interpreter), *old(frame), *final(self), *final(interpreter), *final(frame)),
            old(self).spec_transparent() ==> *final(interpreter) == *old(interpreter)
                && *final(frame) == *old(frame) && final(self).spec_transparent(),
    ;

    /// Called immediately after the engine's step.
    fn after_step(&mut self, interpreter: &mut T, frame: &mut FrameInfo)
        requires
            old(interpreter).wf(),
        ensures
            final(interpreter).wf(),
            old(self).spec_after_step(*old(interpreter), *old(frame), *final(self), *final(interpreter), *final(frame)),
            old(self).spec_transparent() ==> *final(interpreter) == *old(interpreter)
                && *final(frame) == *old(frame) && final(self).spec_transparent(),
    ;

    /// Called at the very end of each step.
    fn post_cycle(&mut self, state: &mut InterpreterState)
        ensures
            old(self).spec_post_cycle(*old(state), *final(self), *final(state)),
            old(self).spec_transparent() ==> *final(state) == *old(state)
                && final(self).spec_transparent(),
    ;
}

/// The answer of a hook that leaves the keys alone.
pub open spec fn spec_ignore() -> HookedItem<Keys> {
    HookedItem { item: None, behaviour: FurtherHooks::Continue }
}

/// The empty hook pipeline.
#[derive(Debug, Copy, Clone, PartialEq, Eq, Structural, Default)]
pub struct NoHooks;

impl<T: ControlledInterpreter> InterpreterHook<T> for NoHooks {
    open spec fn spec_transparent(&self) -> bool {
        true
    }

    open spec fn spec_pre_cycle(&self, state: InterpreterState, after: Self, state_after: InterpreterState) -> bool {
        after == *self && state_after == state
    }

    open spec fn spec_get_keys(
        &self,
        state: InterpreterState,
        interpreter: T,
        keys: Keys,
        after: Self,
        answer: HookedItem<Keys>,
    ) -> bool {
        after == *self && answer == spec_ignore()
    }

    open spec fn spec_before_step(
        &self,
        interpreter: T,
        frame: FrameInfo,
        after: Self,
        interpreter_after: T,
        frame_after: FrameInfo,
    ) -> bool {
        after == *self && interpreter_after == interpreter && frame_after == frame
    }

    open spec fn spec_after_step(
        &self,
        interpreter: T,
        frame: FrameInfo,
        after: Self,
        interpreter_after: T,
        frame_after: FrameInfo,
    ) -> bool {
        after == *self && interpreter_after == interpreter && frame_after == frame
    }

    open spec fn spec_post_cycle(&self, state: InterpreterState, after: Self, state_after: InterpreterState) -> bool {
        after == *self && state_after == state
    }

    fn pre_cycle(&mut self, state: &mut InterpreterState) {
    }

    fn get_keys(&mut self, state: InterpreterState, interpreter: &T, keys: Keys) -> (r: HookedItem<Keys>) {
        HookedItem::ignore()
    }

    fn before_step(&mut self, interpreter: &mut T, frame: &mut FrameInfo) {
    }

    fn after_step(&mut self, interpreter: &mut T, frame: &mut FrameInfo) {
    }

    fn post_cycle(&mut self, state: &mut InterpreterState) {
    }
}

/// Two hooks in order: `first` is called before `second` at every point.
#[derive(Debug)]
pub struct HookChain<A, B> {
    pub first: A,
    pub second: B,
}

impl<T: ControlledInterpreter, A: InterpreterHook<T>, B: InterpreterHook<T>> InterpreterHook<T> for HookChain<A, B> {
    open spec fn spec_transparent(&self) -> bool {
        self.first.spec_transparent() && self.second.spec_transparent()
    }

    /// First the first hook, then the second on the state it left.
    open spec fn spec_pre_cycle(&self, state: InterpreterState, after: Self, state_after: InterpreterState) -> bool {
        exists|mid: InterpreterState|
            #[trigger] self.first.spec_pre_cycle(state, after.first, mid) && self.second.spec_pre_cycle(
                mid,
                after.second,
                state_after,
            )
    }

    /// The first hook answers; where it stops, that is the answer and the
    /// second is not asked; otherwise the second answers on the keys the
    /// first left, and the answers combine (`spec_combine`).
    open spec fn spec_get_keys(
        &self,
        state: InterpreterState,
        interpreter: T,
        keys: Keys,
        after: Self,
        answer: HookedItem<Keys>,
    ) -> bool {
        exists|a: HookedItem<Keys>|
            #[trigger] self.first.spec_get_keys(state, interpreter, keys, after.first, a) && if a.behaviour
                == FurtherHooks::Stop {
                answer == a && after.second == self.second
            } else {
                exists|b: HookedItem<Keys>|
                    #[trigger] self.second.spec_get_keys(
                        state,
                        interpreter,
                        spec_apply_keys(keys, a),
                        after.second,
                        b,
                    ) && answer == spec_combine(a, b)
            }
    }

    open spec fn spec_before_step(
        &self,
        interpreter: T,
        frame: FrameInfo,
        after: Self,
        interpreter_after: T,
        frame_after: FrameInfo,
    ) -> bool {
        exists|mi: T, mf: FrameInfo|
            #[trigger] self.first.spec_before_step(interpreter, frame, after.first, mi, mf)
                && self.second.spec_before_step(mi, mf, after.second, interpreter_after, frame_after)
    }

    open spec fn spec_after_step(
        &self,
        interpreter: T,
        frame: FrameInfo,
        after: Self,
        interpreter_after: T,
        frame_after: FrameInfo,
    ) -> bool {
        exists|mi: T, mf: FrameInfo|
            #[trigger] self.first.spec_after_step(interpreter, frame, after.first, mi, mf)
                && self.second.spec_after_step(mi, mf, after.second, interpreter_after, frame_after)
    }

    open spec fn spec_post_cycle(&self, state: InterpreterState, after: Self, state_after: InterpreterState) -> bool {
        exists|mid: InterpreterState|
            #[trigger] self.first.spec_post_cycle(state, after.first, mid) && self.second.spec_post_cycle(
                mid,
                after.second,
                state_after,
            )
    }

    fn pre_cycle(&mut self, state: &mut InterpreterState) {
        self.first.pre_cycle(state);
        let ghost mid = *state;
        self.second.pre_cycle(state);
        assert(old(self).first.spec_pre_cycle(*old(state), self.first, mid));
    }

    fn get_keys(&mut self, state: InterpreterState, interpreter: &T, keys: Keys) -> (r: HookedItem<Keys>) {
        let first = self.first.get_keys(state, interpreter, keys);
        assert(old(self).first.spec_get_keys(state, *interpreter, keys, self.first, first));
        if first.behaviour == FurtherHooks::Stop {
            return first;
        }
        let second = self.second.get_keys(state, interpreter, apply_keys(keys, first));
        let r = combine(first, second);
        assert(old(self).second.spec_get_keys(state, *interpreter, spec_apply_keys(keys, first), self.second, second));
        assert(exists|b: HookedItem<Keys>|
            #[trigger] old(self).second.spec_get_keys(
                state,
                *interpreter,
                spec_apply_keys(keys, first),
                self.second,
                b,
            ) && r == spec_combine(first, b));
        assert(old(self).first.spec_get_keys(state, *interpreter, keys, self.first, first));
        assert(old(self).spec_get_keys(state, *interpreter, keys, *self, r));
        r
    }

    fn before_step(&mut self, interpreter: &mut T, frame: &mut FrameInfo) {
        self.first.before_step(interpreter, frame);
        let ghost mi = *interpreter;
        let ghost mf = *frame;
        self.second.before_step(interpreter, frame);
        assert(old(self).first.spec_before_step(*old(interpreter), *old(frame), self.first, mi, mf));
    }

    fn after_step(&mut self, interpreter: &mut T, frame: &mut FrameInfo) {
        self.first.after_step(interpreter, frame);
        let ghost mi = *interpreter;
        let ghost mf = *frame;
        self.second.after_step(interpreter, frame);
        assert(old(self).first.spec_after_step(*old(interpreter), *old(frame), self.first, mi, mf));
    }

    fn post_cycle(&mut self, state: &mut InterpreterState) {
        self.first.post_cycle(state);
        let ghost mid = *state;
        self.second.post_cycle(state);
        assert(old(self).first.spec_post_cycle(*old(state), self.first, mid));
    }
}

/// The answer of two hooks in a row; see `spec_combine`.
pub fn combine(first: HookedItem<Keys>, second: HookedItem<Keys>) -> (r: HookedItem<Keys>)
    ensures
        r == spec_combine(first, second),
{
    HookedItem {
        item: match second.item {
            Some(k) => Some(k),
            None => first.item,
        },
        behaviour: second.behaviour,
    }
}

/// Applying the combined answer of two hooks gives the keys that applying
/// their answers one after the other gives.
pub proof fn lemma_combine_applies_in_order(keys: Keys, first: HookedItem<Keys>, second: HookedItem<Keys>)
    ensures
        spec_apply_keys(keys, spec_combine(first, second)) == spec_apply_keys(
            spec_apply_keys(keys, first),
            second,
        ),
{
}

/// A hook that can be switched off; while off it is never called.
#[derive(Debug)]
pub struct EnabledHook<I> {
    inner: I,
    enabled: bool,
}

impl<I> EnabledHook<I> {
    pub closed spec fn spec_enabled(&self) -> bool {
        self.enabled
    }

    pub closed spec fn spec_inner(&self) -> I {
        self.inner
    }

    pub fn new(inner: I, enabled: bool) -> (r: Self)
        ensures
            r.spec_enabled() == enabled,
            r.spec_inner() == inner,
    {
        EnabledHook { inner, enabled }
    }

    pub fn enable(&mut self)
        ensures
            final(self).spec_enabled(),
            final(self).spec_inner() == old(self).spec_inner(),
    {
        self.enabled = true;
    }

    pub fn disable(&mut self)
        ensures
            !final(self).spec_enabled(),
            final(self).spec_inner() == old(self).spec_inner(),
    {
        self.enabled = false;
    }

    pub fn is_enabled(&self) -> (r: bool)
        ensures
            r == self.spec_enabled(),
    {
        self.enabled
    }
}

impl<T: ControlledInterpreter, I: InterpreterHook<T>> InterpreterHook<T> for EnabledHook<I> {
    open spec fn spec_transparent(&self) -> bool {
        !self.spec_enabled() || self.spec_inner().spec_transparent()
    }

    /// Enabled: the inner hook's call. Disabled: nothing happens.
    open spec fn spec_pre_cycle(&self, state: InterpreterState, after: Self, state_after: InterpreterState) -> bool {
        if self.spec_enabled() {
            after.spec_enabled() && self.spec_inner().spec_pre_cycle(state, after.spec_inner(), state_after)
        } else {
            after == *self && state_after == state
        }
    }

    /// Enabled: the inner hook's answer. Disabled: `spec_ignore()`.
    open spec fn spec_get_keys(
        &self,
        state: InterpreterState,
        interpreter: T,
        keys: Keys,
        after: Self,
        answer: HookedItem<Keys>,
    ) -> bool {
        if self.spec_enabled() {
            after.spec_enabled() && self.spec_inner().spec_get_keys(
                state,
                interpreter,
                keys,
                after.spec_inner(),
                answer,
            )
        } else {
            after == *self && answer == spec_ignore()
        }
    }

    open spec fn spec_before_step(
        &self,
        interpreter: T,
        frame: FrameInfo,
        after: Self,
        interpreter_after: T,
        frame_after: FrameInfo,
    ) -> bool {
        if self.spec_enabled() {
            after.spec_enabled() && self.spec_inner().spec_before_step(
                interpreter,
                frame,
                after.spec_inner(),
                interpreter_after,
                frame_after,
            )
        } else {
            after == *self && interpreter_after == interpreter && frame_after == frame
        }
    }

    open spec fn spec_after_step(
        &self,
        interpreter: T,
        frame: FrameInfo,
        after: Self,
        interpreter_after: T,
        frame_after: FrameInfo,
    ) -> bool {
        if self.spec_enabled() {
            after.spec_enabled() && self.spec_inner().spec_after_step(
                interpreter,
                frame,
                after.spec_inner(),
                interpreter_after,
                frame_after,
            )
        } else {
            after == *self && interpreter_after == interpreter && frame_after == frame
        }
    }

    /// Enabled: the inner hook's post-cycle call. Disabled: nothing happens.
    open spec fn spec_post_cycle(&self, state: InterpreterState, after: Self, state_after: InterpreterState) -> bool {
        if self.spec_enabled() {
            after.spec_enabled() && self.spec_inner().spec_post_cycle(state, after.spec_inner(), state_after)
        } else {
            after == *self && state_after == state
        }
    }

    fn pre_cycle(&mut self, state: &mut InterpreterState) {
        if self.enabled {
            self.inner.pre_cycle(state);
        }
    }

    fn get_keys(&mut self, state: InterpreterState, interpreter: &T, keys: Keys) -> (r: HookedItem<Keys>) {
        if self.enabled {
            self.inner.get_keys(state, interpreter, keys)
        } else {
            HookedItem::ignore()
        }
    }

    fn before_step(&mut self, interpreter: &mut T, frame: &mut FrameInfo) {
        if self.enabled {
            self.inner.before_step(interpreter, frame);
        }
    }

    fn after_step(&mut self, interpreter: &mut T, frame: &mut FrameInfo) {
        if self.enabled {
            self.inner.after_step(interpreter, frame);
        }
    }

    fn post_cycle(&mut self, state: &mut InterpreterState) {
        if self.enabled {
            self.inner.post_cycle(state);
        }
    }
}

} // verus!
