use vstd::prelude::*;
use vstd::utf8::encode_utf8;

verus! {

#[verifier::external_type_specification]
#[verifier::external_body]
pub struct ExBoundedString<const N: usize>(heapless::String<N>);

/// The bytes held by a fixed-capacity network name.
pub uninterp spec fn ssid_bytes(s: heapless::String<32>) -> Seq<u8>;

/// Relies on heapless::String::new: the string starts empty.
#[verifier::external_body]
pub(crate) fn ssid_new() -> (r: heapless::String<32>)
    ensures
        ssid_bytes(r) == Seq::<u8>::empty(),
{
    heapless::String::new()
}

/// Relies on heapless::String::push_str: the UTF-8 bytes of `t` are appended
/// when they fit in the 32-byte capacity; otherwise nothing changes and `Err`
/// comes back.
#[verifier::external_body]
pub(crate) fn ssid_push_str(s: &mut heapless::String<32>, t: &str) -> (r: Result<(), ()>)
    ensures
        ssid_bytes(*old(s)).len() + encode_utf8(t@).len() <= 32 ==> {
            &&& r is Ok
            &&& ssid_bytes(*final(s)) == ssid_bytes(*old(s)) + encode_utf8(t@)
        },
        ssid_bytes(*old(s)).len() + encode_utf8(t@).len() > 32 ==> {
            &&& r is Err
            &&& ssid_bytes(*final(s)) == ssid_bytes(*old(s))
        },
{
    s.push_str(t)
}

} // verus!
