//! A formatting hook that renders contexts, attachments or both of one type
//! through another handler.

use std::marker::PhantomData;
use vstd::prelude::*;

use crate::style::{AttachmentFormattingStyle, ContextFormattingStyle};

verus! {

/// Renders values of type `CoA` through the handler `H`: as contexts when
/// `CTX` holds, as attachments when `ATT` holds.
pub struct AlternateHandlerHook<CoA, H, const CTX: bool, const ATT: bool>(PhantomData<(CoA, H)>);

impl<C, H> AlternateHandlerHook<C, H, true, false> {
    /// A hook for contexts of type `C`.
    pub fn new() -> Self {
        AlternateHandlerHook(PhantomData)
    }
}

impl<A, H> AlternateHandlerHook<A, H, false, true> {
    /// A hook for attachments of type `A`.
    pub fn new() -> Self {
        AlternateHandlerHook(PhantomData)
    }
}

impl<CoA, H> AlternateHandlerHook<CoA, H, true, true> {
    /// A hook for contexts and attachments of type `CoA`.
    pub fn new() -> Self {
        AlternateHandlerHook(PhantomData)
    }
}

impl<CoA, H, const CTX: bool, const ATT: bool> AlternateHandlerHook<CoA, H, CTX, ATT> {
    /// Whether the hook renders contexts.
    pub fn applies_to_contexts(&self) -> (b: bool)
        ensures
            b == CTX,
    {
        CTX
    }

    /// Whether the hook renders attachments.
    pub fn applies_to_attachments(&self) -> (b: bool)
        ensures
            b == ATT,
    {
        ATT
    }

    /// The preferences of an attachment: the handler's, when the attachment
    /// is of the hooked type (`handler_style` is present), else the
    /// attachment's own.
    pub fn attachment_preferred_formatting_style(
        handler_style: Option<AttachmentFormattingStyle>,
        unhooked: AttachmentFormattingStyle,
    ) -> (s: AttachmentFormattingStyle)
        ensures
            s == match handler_style {
                Some(h) => h,
                None => unhooked,
            },
    {
        match handler_style {
            Some(h) => h,
            None => unhooked,
        }
    }

    /// The preferences of a context: the handler's, when the context is of
    /// the hooked type (`handler_style` is present), else the context's own.
    pub fn context_preferred_formatting_style(
        handler_style: Option<ContextFormattingStyle>,
        unhooked: ContextFormattingStyle,
    ) -> (s: ContextFormattingStyle)
        ensures
            s == match handler_style {
                Some(h) => h,
                None => unhooked,
            },
    {
        match handler_style {
            Some(h) => h,
            None => unhooked,
        }
    }
}

} // verus!
