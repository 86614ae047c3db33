//! Rendering a borrowed value through a pair of functions, and a byte
//! writer that appends UTF-8 text to rendered output.

use vstd::prelude::*;
use vstd::string::StringSliceAdditionalSpecFns;
use vstd::utf8::{decode_utf8, valid_utf8};

verus! {

/// A borrowed value with the functions that render it for display and for
/// debug output.
pub struct FormatFunctions<'a, Data, F, G> {
    data: &'a Data,
    display: F,
    debug: G,
}

impl<'a, Data, F: Fn(&'a Data) -> String, G: Fn(&'a Data) -> String> FormatFunctions<'a, Data, F, G> {
    /// Bundles `data` with its display and debug functions.
    pub fn new(data: &'a Data, display: F, debug: G) -> (r: Self)
        ensures
            r.data() == data,
            r.display_fn() == display,
            r.debug_fn() == debug,
    {
        FormatFunctions { data, display, debug }
    }

    /// The value rendered.
    pub closed spec fn data(self) -> &'a Data {
        self.data
    }

    /// The function that renders it for display output.
    pub closed spec fn display_fn(self) -> F {
        self.display
    }

    /// The function that renders it for debug output.
    pub closed spec fn debug_fn(self) -> G {
        self.debug
    }

    /// Display output: the display function on the value.
    pub fn display(&self) -> (s: String)
        requires
            self.display_fn().requires((self.data(),)),
        ensures
            self.display_fn().ensures((self.data(),), s),
    {
        (self.display)(self.data)
    }

    /// Debug output: the debug function on the value.
    pub fn debug(&self) -> (s: String)
        requires
            self.debug_fn().requires((self.data(),)),
        ensures
            self.debug_fn().ensures((self.data(),), s),
    {
        (self.debug)(self.data)
    }
}

/// Why bytes could not be written as text.
#[derive(Debug, Clone, Copy, PartialEq, Eq)]
pub enum WriteError {
    /// The bytes are not valid UTF-8.
    InvalidUtf8,
}

/// Reads `bytes` as UTF-8 text, if they are valid UTF-8.
#[verifier::external_body]
fn str_from_utf8(bytes: &[u8]) -> (r: Option<&str>)
    ensures
        r is Some <==> valid_utf8(bytes@),
        r matches Some(s) ==> s@ == decode_utf8(bytes@) && s.spec_bytes() == bytes@,
{
    match std::str::from_utf8(bytes) {
        Ok(s) => Some(s),
        Err(_) => None,
    }
}

/// A byte writer that appends what it is given, read as UTF-8, to text.
pub struct FormatterWriter {
    out: String,
}

impl FormatterWriter {
    /// A writer that appends to `out`.
    pub fn new(out: String) -> (w: Self)
        ensures
            w.text() == out@,
    {
        FormatterWriter { out }
    }

    /// The text written so far.
    pub closed spec fn text(self) -> Seq<char> {
        self.out@
    }

    /// Appends `buf`, read as UTF-8, and reports all of it written; bytes
    /// that are not valid UTF-8 are refused and nothing is appended.
    pub fn write(&mut self, buf: &[u8]) -> (r: Result<usize, WriteError>)
        ensures
            r is Ok <==> valid_utf8(buf@),
            r matches Ok(n) ==> n == buf@.len() && final(self).text() == old(self).text()
                + decode_utf8(buf@),
            r matches Err(e) ==> e == WriteError::InvalidUtf8 && final(self).text() == old(
                self,
            ).text(),
    {
        let len: usize = buf.len();
        match str_from_utf8(buf) {
            Some(text) => {
                self.out.append(text);
                assert(text.spec_bytes().len() == buf@.len());
                assert(len == buf@.len());
                Ok(text.len())
            },
            None => Err(WriteError::InvalidUtf8),
        }
    }

    /// Nothing is buffered, so flushing does nothing and succeeds.
    pub fn flush(&mut self) -> (r: Result<(), WriteError>)
        ensures
            r is Ok,
            final(self).text() == old(self).text(),
    {
        Ok(())
    }

    /// The text written.
    pub fn into_text(self) -> (s: String)
        ensures
            s@ == self.text(),
    {
        self.out
    }
}

} // verus!
