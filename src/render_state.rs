//! The phase of a value that is obtained asynchronously.
use vstd::prelude::*;

verus! {

/// Where the fetch of a value stands: nothing asked yet, in flight, done
/// with a value, or failed with a reason.
pub enum RenderState<T> {
    Unloaded,
    Loading,
    Loaded(T),
    Error(String),
}

impl<T> RenderState<T> {
    /// A state in which nothing has been asked for yet.
    pub fn new() -> (r: Self)
        ensures
            r is Unloaded,
    {
        RenderState::Unloaded
    }

    pub fn is_none(&self) -> (r: bool)
        ensures
            r == self is Unloaded,
    {
        match self {
            RenderState::Unloaded => true,
            _ => false,
        }
    }

    pub fn set_loading(&mut self)
        ensures
            *final(self) is Loading,
    {
        *self = RenderState::Loading;
    }

    pub fn set_loaded(&mut self, value: T)
        ensures
            *final(self) == RenderState::Loaded(value),
    {
        *self = RenderState::Loaded(value);
    }

    /// Records a failure, with the reason that is shown to the user.
    pub fn set_error(&mut self, reason: String)
        ensures
            *final(self) == RenderState::<T>::Error(reason),
    {
        *self = RenderState::Error(reason);
    }

    pub fn set_none(&mut self)
        ensures
            *final(self) is Unloaded,
    {
        *self = RenderState::Unloaded;
    }

    pub fn is_loading(&self) -> (r: bool)
        ensures
            r == self is Loading,
    {
        match self {
            RenderState::Loading => true,
            _ => false,
        }
    }

    pub fn has_value(&self) -> (r: bool)
        ensures
            r == self is Loaded,
    {
        match self {
            RenderState::Loaded(_) => true,
            _ => false,
        }
    }

    /// The value, when there is one; never fails.
    pub fn try_unwrap_as_loaded(&self) -> (r: Option<&T>)
        ensures
            match r {
                Some(v) => *self == RenderState::Loaded(*v),
                None => !(self is Loaded),
            },
    {
        match self {
            RenderState::Loaded(value) => Some(value),
            _ => None,
        }
    }

    /// The value. Asking for it in any other phase than `Loaded` is a
    /// logic error that the caller rules out first, with `has_value` or
    /// `try_unwrap_as_loaded`.
    pub fn unwrap_as_loaded(&self) -> (r: &T)
        requires
            self is Loaded,
        ensures
            *self == RenderState::Loaded(*r),
    {
        match self {
            RenderState::Loaded(value) => value,
            _ => unreached(),
        }
    }

    /// Same as `set_loaded`.
    pub fn set_value(&mut self, value: T)
        ensures
            *final(self) == RenderState::Loaded(value),
    {
        *self = RenderState::Loaded(value);
    }

    /// A mutable reference to the value, when there is one; never fails.
    pub fn try_unwrap_as_loaded_mut(&mut self) -> (r: Option<&mut T>)
        ensures
            match r {
                Some(v) => *old(self) == RenderState::Loaded(*v)
                    && *final(self) == RenderState::Loaded(*final(v)),
                None => !(*old(self) is Loaded) && *final(self) == *old(self),
            },
    {
        match self {
            RenderState::Loaded(value) => Some(value),
            _ => None,
        }
    }

    /// A mutable reference to the value, to change it in place; only in the
    /// `Loaded` phase, like `unwrap_as_loaded`.
    pub fn unwrap_as_loaded_mut(&mut self) -> (r: &mut T)
        requires
            *old(self) is Loaded,
        ensures
            *old(self) == RenderState::Loaded(*r),
            *final(self) == RenderState::Loaded(*final(r)),
    {
        match self {
            RenderState::Loaded(value) => value,
            _ => unreached(),
        }
    }

    pub fn as_ref(&self) -> (r: &Self)
        ensures
            *r == *self,
    {
        self
    }
}

} // verus!
