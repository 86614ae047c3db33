//! A value bundled with the callbacks that render it for display and for
//! debug output.

use vstd::prelude::*;

use crate::style::FormattingFunction;

verus! {

/// Data together with the callbacks that render it.
pub struct FormattingCallbacks<Data: Copy, Callback: Copy> {
    data: Data,
    callback: Callback,
}

/// One item, rendered by a display callback and a debug callback.
pub type Format1With2Callbacks<D, F, G> = FormattingCallbacks<(D,), (F, G)>;

/// Two items, rendered by a display callback and a debug callback.
pub type Format2With2Callbacks<D, E, F, G> = FormattingCallbacks<(D, E), (F, G)>;

/// One item, rendered by one callback that is told which output is asked for.
pub type Format1With1Callback<D, F> = FormattingCallbacks<(D,), F>;

/// Two items, rendered by one callback that is told which output is asked for.
pub type Format2With1Callback<D, E, F> = FormattingCallbacks<(D, E), F>;

impl<Data: Copy, Callback: Copy> FormattingCallbacks<Data, Callback> {
    /// Bundles `data` with `callback`.
    pub fn new(data: Data, callback: Callback) -> (r: Self)
        ensures
            r.data() == data,
            r.callback() == callback,
    {
        FormattingCallbacks { data, callback }
    }

    /// The data to render.
    pub closed spec fn data(self) -> Data {
        self.data
    }

    /// The callbacks that render it.
    pub closed spec fn callback(self) -> Callback {
        self.callback
    }
}

/// One item rendered by two callbacks: the first for display output, the
/// second for debug output.
impl<D: Copy, F: Fn(D) -> String + Copy, G: Fn(D) -> String + Copy> FormattingCallbacks<(D,), (F, G)> {
    /// Display output: the first callback on the item.
    pub fn display_one(&self) -> (s: String)
        requires
            self.callback().0.requires((self.data().0,)),
        ensures
            self.callback().0.ensures((self.data().0,), s),
    {
        (self.callback.0)(self.data.0)
    }

    /// Debug output: the second callback on the item.
    pub fn debug_one(&self) -> (s: String)
        requires
            self.callback().1.requires((self.data().0,)),
        ensures
            self.callback().1.ensures((self.data().0,), s),
    {
        (self.callback.1)(self.data.0)
    }
}

/// Two items rendered by two callbacks: the first for display output, the
/// second for debug output.
impl<D: Copy, E: Copy, F: Fn(D, E) -> String + Copy, G: Fn(D, E) -> String + Copy> FormattingCallbacks<(D, E), (F, G)> {
    /// Display output: the first callback on both items.
    pub fn display_two(&self) -> (s: String)
        requires
            self.callback().0.requires((self.data().0, self.data().1)),
        ensures
            self.callback().0.ensures((self.data().0, self.data().1), s),
    {
        (self.callback.0)(self.data.0, self.data.1)
    }

    /// Debug output: the second callback on both items.
    pub fn debug_two(&self) -> (s: String)
        requires
            self.callback().1.requires((self.data().0, self.data().1)),
        ensures
            self.callback().1.ensures((self.data().0, self.data().1), s),
    {
        (self.callback.1)(self.data.0, self.data.1)
    }
}

/// One item rendered by one callback that is told which output is asked for.
impl<D: Copy, F: Fn(D, FormattingFunction) -> String + Copy> FormattingCallbacks<(D,), F> {
    /// Display output: the callback, told `Display`.
    pub fn display_one_with(&self) -> (s: String)
        requires
            self.callback().requires((self.data().0, FormattingFunction::Display)),
        ensures
            self.callback().ensures((self.data().0, FormattingFunction::Display), s),
    {
        (self.callback)(self.data.0, FormattingFunction::Display)
    }

    /// Debug output: the callback, told `Debug`.
    pub fn debug_one_with(&self) -> (s: String)
        requires
            self.callback().requires((self.data().0, FormattingFunction::Debug)),
        ensures
            self.callback().ensures((self.data().0, FormattingFunction::Debug), s),
    {
        (self.callback)(self.data.0, FormattingFunction::Debug)
    }
}

/// Two items rendered by one callback that is told which output is asked for.
impl<D: Copy, E: Copy, F: Fn(D, E, FormattingFunction) -> String + Copy> FormattingCallbacks<(D, E), F> {
    /// Display output: the callback on both items, told `Display`.
    pub fn display_two_with(&self) -> (s: String)
        requires
            self.callback().requires((self.data().0, self.data().1, FormattingFunction::Display)),
        ensures
            self.callback().ensures((self.data().0, self.data().1, FormattingFunction::Display), s),
    {
        (self.callback)(self.data.0, self.data.1, FormattingFunction::Display)
    }

    /// Debug output: the callback on both items, told `Debug`.
    pub fn debug_two_with(&self) -> (s: String)
        requires
            self.callback().requires((self.data().0, self.data().1, FormattingFunction::Debug)),
        ensures
            self.callback().ensures((self.data().0, self.data().1, FormattingFunction::Debug), s),
    {
        (self.callback)(self.data.0, self.data.1, FormattingFunction::Debug)
    }
}

} // verus!
