//! A text buffer of fixed capacity for the counter on the display.
//!
//! The characters live in a `heapless::String`, which never allocates and
//! never grows. This module states what its operations do to the stored text
//! and builds the buffer's own operations on those statements.

use core::fmt::Write;
use vstd::prelude::*;
use vstd::string::StrSliceExecFns;
use vstd::utf8::is_ascii_chars;
use crate::decimal::{
    decimal, decimal_len, is_decimal_text, lemma_decimal_is_decimal_text, lemma_decimal_len, pow10,
};

verus! {

/// The number of characters that a [`TextBuffer`] can hold.
pub const TEXT_CAPACITY: usize = 6;

/// `heapless::String<N>`, a string of at most `N` bytes that lives where it
/// is declared. Nothing is known of what a value holds but through
/// [`stored_text`].
#[verifier::external_type_specification]
#[verifier::external_body]
pub struct ExHeaplessString<const N: usize>(heapless::String<N>);

/// The characters that a `heapless::String` holds, first to last.
pub uninterp spec fn stored_text(s: heapless::String<TEXT_CAPACITY>) -> Seq<char>;

/// `heapless::String::new`: a string that holds no character.
#[verifier::external_body]
fn heapless_new() -> (s: heapless::String<TEXT_CAPACITY>)
    ensures
        stored_text(s) == Seq::<char>::empty(),
{
    heapless::String::new()
}

/// `heapless::String::clear`: afterwards the string holds no character.
#[verifier::external_body]
fn heapless_clear(s: &mut heapless::String<TEXT_CAPACITY>)
    ensures
        stored_text(*final(s)) == Seq::<char>::empty(),
{
    s.clear()
}

/// `heapless::String::as_str`: the stored characters as a string slice.
#[verifier::external_body]
fn heapless_as_str(s: &heapless::String<TEXT_CAPACITY>) -> (t: &str)
    ensures
        t@ == stored_text(*s),
{
    s.as_str()
}

/// `write!` with the format `{}` and one `u64`, through the `core::fmt::Write`
/// of `heapless::String`, whose `write_str` is `push_str`.
///
/// `{}` produces the decimal notation of the number, and `push_str` takes a
/// piece when, and only when, it fits into the bytes that are left. On a
/// string that holds one-byte characters only, which is what the
/// precondition asks for, the call therefore succeeds exactly when the
/// digits fit, and then the digits stand behind the old text. Nothing is
/// claimed about the stored text after a failure.
#[verifier::external_body]
fn heapless_write_u64(s: &mut heapless::String<TEXT_CAPACITY>, value: u64) -> (r: Result<(), ()>)
    requires
        is_ascii_chars(stored_text(*old(s))),
    ensures
        r.is_ok() <==> stored_text(*old(s)).len() + decimal(value as nat).len() <= TEXT_CAPACITY,
        r.is_ok() ==> stored_text(*final(s)) == stored_text(*old(s)) + decimal(value as nat),
{
    write!(s, "{}", value).map_err(|_| ())
}

/// A number did not fit into what was left of a [`TextBuffer`].
#[derive(Clone, Copy, Debug, PartialEq, Eq, Structural)]
pub struct CapacityError {
    /// The number of characters that the number needs.
    pub needed: usize,
    /// The number of characters that were free.
    pub available: usize,
}

/// A text of at most [`TEXT_CAPACITY`] decimal digits that numbers are
/// appended to.
pub struct TextBuffer {
    inner: heapless::String<TEXT_CAPACITY>,
}

impl View for TextBuffer {
    type V = Seq<char>;

    closed spec fn view(&self) -> Seq<char> {
        stored_text(self.inner)
    }
}

impl TextBuffer {
    /// The buffer holds digits only, and no more than its capacity.
    pub open spec fn wf(&self) -> bool {
        &&& is_decimal_text(self@)
        &&& self@.len() <= TEXT_CAPACITY
    }

    /// An empty buffer.
    pub fn new() -> (buffer: Self)
        ensures
            buffer.wf(),
            buffer@ == Seq::<char>::empty(),
    {
        TextBuffer { inner: heapless_new() }
    }

    /// The number of characters that the buffer can hold.
    pub fn capacity(&self) -> (n: usize)
        ensures
            n == TEXT_CAPACITY,
    {
        TEXT_CAPACITY
    }

    /// The number of characters that the buffer holds.
    pub fn len(&self) -> (n: usize)
        ensures
            n == self@.len(),
    {
        heapless_as_str(&self.inner).unicode_len()
    }

    /// Appends the decimal notation of `value`.
    ///
    /// A number that does not fit into the free part of the buffer is
    /// refused as a whole: the call returns the error and the text stays as
    /// it was. Nothing is ever cut short.
    pub fn append(&mut self, value: u64) -> (r: Result<(), CapacityError>)
        requires
            old(self).wf(),
        ensures
            final(self).wf(),
            r.is_ok() <==> old(self)@.len() + decimal(value as nat).len() <= TEXT_CAPACITY,
            r.is_ok() ==> final(self)@ == old(self)@ + decimal(value as nat),
            r matches Err(e) ==> {
                &&& final(self)@ == old(self)@
                &&& e.needed == decimal(value as nat).len()
                &&& e.available == TEXT_CAPACITY - old(self)@.len()
            },
    {
        let needed = decimal_len(value);
        let available = TEXT_CAPACITY - self.len();
        if needed > available {
            return Err(CapacityError { needed, available });
        }
        proof {
            lemma_decimal_is_decimal_text(value as nat);
        }
        match heapless_write_u64(&mut self.inner, value) {
            Ok(()) => Ok(()),
            Err(()) => Err(CapacityError { needed, available }),
        }
    }

    /// Empties the buffer. Clearing an empty buffer leaves it empty.
    pub fn clear(&mut self)
        ensures
            final(self).wf(),
            final(self)@ == Seq::<char>::empty(),
    {
        heapless_clear(&mut self.inner);
    }

    /// The text of the buffer.
    pub fn as_str(&self) -> (text: &str)
        ensures
            text@ == self@,
    {
        heapless_as_str(&self.inner)
    }
}

/// A number fits an empty buffer exactly when it is below one million.
pub proof fn lemma_fits_empty_buffer(value: nat)
    ensures
        decimal(value).len() <= TEXT_CAPACITY <==> value < 1_000_000,
{
    reveal_with_fuel(pow10, 7);
    lemma_decimal_len(value, 6);
}

} // verus!
