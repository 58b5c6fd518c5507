//! Fixed-capacity strings of `heapless`, as this library uses them: one capacity
//! for a display row, one for a token and one for the posted form.
//!
//! Verus does not look inside a `heapless::String`. What each one holds is given
//! a name here, and the few methods the library calls are stated over that name.
//! The fixed-capacity vector of the same crate is declared here too; the one
//! list that the library reads is named where its items are defined.
use vstd::prelude::*;
use vstd::string::*;

verus! {

/// Capacity of one display row, in bytes.
pub const ROW_BYTES: usize = 40;

/// Capacity of a token string, in bytes.
pub const TOKEN_BYTES: usize = 300;

/// Capacity of the posted form, in bytes.
pub const FORM_BYTES: usize = 512;

#[verifier::external_type_specification]
#[verifier::external_body]
pub struct ExBoundedString<const N: usize>(heapless::String<N>);

#[verifier::external_type_specification]
#[verifier::external_body]
#[verifier::reject_recursive_types(T)]
pub struct ExBoundedVec<T, const N: usize>(heapless::Vec<T, N>);

/// The UTF-8 bytes that a row string holds.
pub uninterp spec fn row_bytes(s: heapless::String<40>) -> Seq<u8>;

/// The UTF-8 bytes that a token string holds.
pub uninterp spec fn token_bytes(s: heapless::String<300>) -> Seq<u8>;

/// The UTF-8 bytes that a form string holds.
pub uninterp spec fn form_bytes(s: heapless::String<512>) -> Seq<u8>;

/// `heapless::String::<40>::new`: an empty string.
#[verifier::external_body]
pub(crate) fn row_new() -> (s: heapless::String<40>)
    ensures
        row_bytes(s) == Seq::<u8>::empty(),
{
    heapless::String::<40>::new()
}

/// `heapless::String::<40>::push_str`: appends all of `text` where the result
/// fits in 40 bytes, and otherwise changes nothing and reports an error.
#[verifier::external_body]
pub(crate) fn row_push_str(s: &mut heapless::String<40>, text: &str) -> (r: Result<(), ()>)
    ensures
        r is Ok <==> row_bytes(*old(s)).len() + text.spec_bytes().len() <= 40,
        r is Ok ==> row_bytes(*final(s)) == row_bytes(*old(s)) + text.spec_bytes(),
        r is Err ==> row_bytes(*final(s)) == row_bytes(*old(s)),
{
    s.push_str(text)
}

/// `heapless::String::<40>::as_str`: the contents, which never exceed 40 bytes.
#[verifier::external_body]
pub(crate) fn row_as_str(s: &heapless::String<40>) -> (r: &str)
    ensures
        r.spec_bytes() == row_bytes(*s),
        r.spec_bytes().len() <= 40,
{
    s.as_str()
}

/// `==` on two `heapless::String<40>`: whether they hold the same bytes.
#[verifier::external_body]
pub(crate) fn row_eq(a: &heapless::String<40>, b: &heapless::String<40>) -> (r: bool)
    ensures
        r == (row_bytes(*a) == row_bytes(*b)),
{
    a == b
}

/// `heapless::String::<300>::new`: an empty string.
#[verifier::external_body]
pub(crate) fn token_new() -> (s: heapless::String<300>)
    ensures
        token_bytes(s) == Seq::<u8>::empty(),
{
    heapless::String::<300>::new()
}

/// `heapless::String::<300>::push_str`: appends all of `text` where the result
/// fits in 300 bytes, and otherwise changes nothing and reports an error.
#[verifier::external_body]
pub(crate) fn token_push_str(s: &mut heapless::String<300>, text: &str) -> (r: Result<(), ()>)
    ensures
        r is Ok <==> token_bytes(*old(s)).len() + text.spec_bytes().len() <= 300,
        r is Ok ==> token_bytes(*final(s)) == token_bytes(*old(s)) + text.spec_bytes(),
        r is Err ==> token_bytes(*final(s)) == token_bytes(*old(s)),
{
    s.push_str(text)
}

/// `heapless::String::<300>::as_str`: the contents, which never exceed 300 bytes.
#[verifier::external_body]
pub(crate) fn token_as_str(s: &heapless::String<300>) -> (r: &str)
    ensures
        r.spec_bytes() == token_bytes(*s),
        r.spec_bytes().len() <= 300,
{
    s.as_str()
}

/// `heapless::String::<512>::new`: an empty string.
#[verifier::external_body]
pub(crate) fn form_new() -> (s: heapless::String<512>)
    ensures
        form_bytes(s) == Seq::<u8>::empty(),
{
    heapless::String::<512>::new()
}

/// `heapless::String::<512>::push_str`: appends all of `text` where the result
/// fits in 512 bytes, and otherwise changes nothing and reports an error.
#[verifier::external_body]
pub(crate) fn form_push_str(s: &mut heapless::String<512>, text: &str) -> (r: Result<(), ()>)
    ensures
        r is Ok <==> form_bytes(*old(s)).len() + text.spec_bytes().len() <= 512,
        r is Ok ==> form_bytes(*final(s)) == form_bytes(*old(s)) + text.spec_bytes(),
        r is Err ==> form_bytes(*final(s)) == form_bytes(*old(s)),
{
    s.push_str(text)
}

} // verus!
