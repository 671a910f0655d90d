//! A `RenderState` together with a sticky flag that remembers whether a
//! value was ever loaded.
use vstd::prelude::*;
use crate::render_state::RenderState;

verus! {

/// The lifecycle of a remotely fetched value.
///
/// `reset` starts a new fetch and keeps the sticky flag, so that a
/// view can go on showing that data once existed; `hard_reset` clears both.
pub struct DataState<T> {
    inner: RenderState<T>,
    had_data_loaded_once: bool,
}

/// The two phases in which there is nothing to render yet.
#[derive(Debug, Clone, Copy, PartialEq, Eq, Structural)]
pub enum NotLoadedCases {
    Unloaded,
    Loading,
}

/// The operations that move a `DataState` from one phase to another.
pub enum Transition<T> {
    Loading,
    Loaded(T),
    Error(String),
    Reset,
    HardReset,
}

/// The phase after one transition.
pub open spec fn phase_after<T>(t: Transition<T>) -> RenderState<T> {
    match t {
        Transition::Loading => RenderState::Loading,
        Transition::Loaded(v) => RenderState::Loaded(v),
        Transition::Error(reason) => RenderState::Error(reason),
        Transition::Reset => RenderState::Unloaded,
        Transition::HardReset => RenderState::Unloaded,
    }
}

/// The sticky flag after one transition: set by a load, cleared only by a
/// hard reset, kept by everything else.
pub open spec fn flag_after<T>(flag: bool, t: Transition<T>) -> bool {
    match t {
        Transition::Loaded(_) => true,
        Transition::HardReset => false,
        _ => flag,
    }
}

/// The sticky flag after a run of transitions, applied first to last.
pub open spec fn flag_after_all<T>(flag: bool, ts: Seq<Transition<T>>) -> bool
    decreases ts.len(),
{
    if ts.len() == 0 {
        flag
    } else {
        flag_after(flag_after_all(flag, ts.drop_last()), ts.last())
    }
}

impl<T> DataState<T> {
    /// The current phase.
    pub closed spec fn phase(&self) -> RenderState<T> {
        self.inner
    }

    /// The state as it stands after transition `t`.
    pub open spec fn after(&self, t: Transition<T>) -> (RenderState<T>, bool) {
        (phase_after(t), flag_after(self.ever_loaded(), t))
    }

    /// Whether a value was ever loaded.
    pub closed spec fn ever_loaded(&self) -> bool {
        self.had_data_loaded_once
    }

    /// The phase and the sticky flag.
    pub closed spec fn spec_view(&self) -> (RenderState<T>, bool) {
        (self.phase(), self.ever_loaded())
    }

    /// Unloaded, and never loaded.
    pub fn new() -> (r: Self)
        ensures
            r.phase() is Unloaded,
            !r.ever_loaded(),
    {
        DataState { inner: RenderState::Unloaded, had_data_loaded_once: false }
    }

    pub fn is_none(&self) -> (r: bool)
        ensures
            r == self.phase() is Unloaded,
    {
        self.inner.is_none()
    }

    pub fn set_loading(&mut self)
        ensures
            final(self).spec_view() == old(self).after(Transition::Loading),
            final(self).phase() is Loading,
            final(self).ever_loaded() == old(self).ever_loaded(),
    {
        self.inner.set_loading();
    }

    pub fn set_loaded(&mut self, value: T)
        ensures
            final(self).spec_view() == old(self).after(Transition::Loaded(value)),
            final(self).phase() == RenderState::Loaded(value),
            final(self).ever_loaded(),
    {
        self.inner.set_loaded(value);
        self.had_data_loaded_once = true;
    }

    /// Records a failure; a value loaded earlier is still remembered.
    pub fn set_error(&mut self, reason: String)
        ensures
            final(self).spec_view() == old(self).after(Transition::Error(reason)),
            final(self).phase() == RenderState::<T>::Error(reason),
            final(self).ever_loaded() == old(self).ever_loaded(),
    {
        self.inner.set_error(reason);
    }

    /// Back to `Unloaded` to start a new fetch; the sticky flag is kept.
    pub fn reset(&mut self)
        ensures
            final(self).spec_view() == old(self).after(Transition::Reset),
            final(self).phase() is Unloaded,
            final(self).ever_loaded() == old(self).ever_loaded(),
    {
        self.inner = RenderState::Unloaded;
    }

    /// Back to the state of `new`: `Unloaded`, and the sticky flag cleared.
    pub fn hard_reset(&mut self)
        ensures
            final(self).spec_view() == old(self).after(Transition::HardReset),
            final(self).phase() is Unloaded,
            !final(self).ever_loaded(),
    {
        self.inner = RenderState::Unloaded;
        self.had_data_loaded_once = false;
    }

    pub fn is_loading(&self) -> (r: bool)
        ensures
            r == self.phase() is Loading,
    {
        self.inner.is_loading()
    }

    pub fn has_value(&self) -> (r: bool)
        ensures
            r == self.phase() is Loaded,
    {
        self.inner.has_value()
    }

    /// The value, when there is one; never fails.
    pub fn try_unwrap_as_loaded(&self) -> (r: Option<&T>)
        ensures
            match r {
                Some(v) => self.phase() == RenderState::Loaded(*v),
                None => !(self.phase() is Loaded),
            },
    {
        self.inner.try_unwrap_as_loaded()
    }

    /// Whether a value was ever loaded since creation or the last hard reset.
    pub fn had_data_loaded_once(&self) -> (r: bool)
        ensures
            r == self.ever_loaded(),
    {
        self.had_data_loaded_once
    }

    /// The value. Asking for it in any other phase than `Loaded` is a
    /// logic error that the caller rules out first, with `has_value` or
    /// `try_unwrap_as_loaded`.
    pub fn unwrap_as_loaded(&self) -> (r: &T)
        requires
            self.phase() is Loaded,
        ensures
            self.phase() == RenderState::Loaded(*r),
    {
        self.inner.unwrap_as_loaded()
    }

    /// Folds `Unloaded` and `Loading` into `NotLoadedCases`; nothing for
    /// `Loaded` and `Error`, which are rendered on their own.
    pub fn to_not_loaded_cases(&self) -> (r: Option<NotLoadedCases>)
        ensures
            r == match self.phase() {
                RenderState::Unloaded => Some(NotLoadedCases::Unloaded),
                RenderState::Loading => Some(NotLoadedCases::Loading),
                _ => None::<NotLoadedCases>,
            },
    {
        match &self.inner {
            RenderState::Unloaded => Some(NotLoadedCases::Unloaded),
            RenderState::Loading => Some(NotLoadedCases::Loading),
            RenderState::Loaded(_) => None,
            RenderState::Error(_) => None,
        }
    }

    /// Same as `set_loaded`.
    pub fn set_value(&mut self, value: T)
        ensures
            final(self).spec_view() == old(self).after(Transition::Loaded(value)),
            final(self).phase() == RenderState::Loaded(value),
            final(self).ever_loaded(),
    {
        self.inner = RenderState::Loaded(value);
        self.had_data_loaded_once = true;
    }

    /// A mutable reference to the value, to change it in place; never fails.
    pub fn try_unwrap_as_loaded_mut(&mut self) -> (r: Option<&mut T>)
        ensures
            final(self).ever_loaded() == old(self).ever_loaded(),
            match r {
                Some(v) => old(self).phase() == RenderState::Loaded(*v)
                    && final(self).phase() == RenderState::Loaded(*final(v)),
                None => !(old(self).phase() is Loaded) && final(self).phase() == old(self).phase(),
            },
    {
        self.inner.try_unwrap_as_loaded_mut()
    }

    /// A mutable reference to the value, to change it in place; only in the
    /// `Loaded` phase, like `unwrap_as_loaded`.
    pub fn unwrap_as_loaded_mut(&mut self) -> (r: &mut T)
        requires
            old(self).phase() is Loaded,
        ensures
            final(self).ever_loaded() == old(self).ever_loaded(),
            old(self).phase() == RenderState::Loaded(*r),
            final(self).phase() == RenderState::Loaded(*final(r)),
    {
        self.inner.unwrap_as_loaded_mut()
    }

    pub fn as_ref(&self) -> (r: &RenderState<T>)
        ensures
            *r == self.phase(),
    {
        &self.inner
    }
}

impl<T> Default for DataState<T> {
    fn default() -> (r: Self)
        ensures
            r.phase() is Unloaded,
            !r.ever_loaded(),
    {
        Self::new()
    }
}

/// Once a value is loaded, the sticky flag stays set through every later
/// transition but a hard reset.
pub proof fn lemma_loaded_flag_is_sticky<T>(flag: bool, ts: Seq<Transition<T>>, i: int)
    requires
        0 <= i < ts.len(),
        ts[i] is Loaded,
        forall|j: int| i < j < ts.len() ==> !(#[trigger] ts[j] is HardReset),
    ensures
        flag_after_all(flag, ts),
    decreases ts.len(),
{
    if i < ts.len() - 1 {
        let init = ts.drop_last();
        assert forall|j: int| i < j < init.len() implies !(#[trigger] init[j] is HardReset) by {
            assert(init[j] == ts[j]);
        }
        lemma_loaded_flag_is_sticky(flag, init, i);
    }
}

/// The value accessor may not be used on a fresh state (phase `Unloaded`,
/// as `new` leaves it), and right after a load of `v` it may, and returns
/// exactly `v`.
pub proof fn lemma_get_loaded_after_load<T>(s: DataState<T>, v: T)
    ensures
        !(RenderState::<T>::Unloaded is Loaded),
        s.after(Transition::Loaded(v)).0 is Loaded,
        s.after(Transition::Loaded(v)).0 == RenderState::Loaded(v),
{
}

} // verus!
