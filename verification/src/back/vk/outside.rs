//! The calls this backend makes into `ash`, `bytemuck` and `core::str`.
//!
//! Nothing in this file is proved. Each contract restates what the called code does, and every
//! proof elsewhere in the crate that goes through one of these functions rests on it.

use vstd::prelude::*;
use vstd::string::StringSliceAdditionalSpecFns;
use vstd::utf8::valid_utf8;

use super::init::api_version;
use super::probe::{has_compute, is_device_local};
use super::text::byte_values;

verus! {

/// `bytemuck::cast_slice`, from `i8` to `u8`.
///
/// Both element types have size and alignment one, so the cast cannot fail: the result
/// covers the same memory with the same length, and each element is the two's complement
/// bit pattern of the `i8` at that position read as a `u8`.
#[verifier::external_body]
pub(crate) fn chars_as_bytes<'a>(chars: &'a [i8]) -> (bytes: &'a [u8])
    ensures
        bytes@ == byte_values(chars@),
{
    bytemuck::cast_slice(chars)
}

/// `core::str::from_utf8`.
///
/// The call succeeds exactly on well-formed UTF-8, and the string it returns borrows the
/// very bytes it was given.
#[verifier::external_body]
pub(crate) fn utf8_text<'a>(bytes: &'a [u8]) -> (text: Option<&'a str>)
    ensures
        text is Some <==> valid_utf8(bytes@),
        text matches Some(s) ==> s.spec_bytes() == bytes@,
{
    match core::str::from_utf8(bytes) {
        Ok(s) => Some(s),
        Err(_) => None,
    }
}

/// `ash::vk::make_api_version` packs its four arguments into one word: the variant from bit
/// 29 up, the major number from bit 22, the minor number from bit 12, the patch number in
/// the low bits. Bits shifted out at the top are lost, and fields that overlap are or-ed.
pub assume_specification[ ash::vk::make_api_version ](
    variant: u32,
    major: u32,
    minor: u32,
    patch: u32,
) -> (version: u32)
    ensures
        version == api_version(variant, major, minor, patch),
;

/// `ash::vk::API_VERSION_1_3`, which `ash` defines as `make_api_version(0, 1, 3, 0)`.
#[verifier::external_body]
pub(crate) fn api_version_1_3() -> (version: u32)
    ensures
        version == api_version(0, 1, 3, 0),
{
    ash::vk::API_VERSION_1_3
}

/// `ash::vk::QueueFlags::contains`, asked of a queue family's capability word whether it
/// holds `ash::vk::QueueFlags::COMPUTE`.
///
/// `contains` tests that every bit of its argument is set in the receiver, and `COMPUTE` is
/// the single bit `0b10`.
#[verifier::external_body]
pub(crate) fn queue_flags_have_compute(flags: u32) -> (yes: bool)
    ensures
        yes == has_compute(flags),
{
    ash::vk::QueueFlags::from_raw(flags).contains(ash::vk::QueueFlags::COMPUTE)
}

/// `ash::vk::MemoryHeapFlags::contains`, asked of a memory heap's flag word whether it holds
/// `ash::vk::MemoryHeapFlags::DEVICE_LOCAL`.
///
/// `contains` tests that every bit of its argument is set in the receiver, and
/// `DEVICE_LOCAL` is the single bit `0b1`.
#[verifier::external_body]
pub(crate) fn heap_flags_are_device_local(flags: u32) -> (yes: bool)
    ensures
        yes == is_device_local(flags),
{
    ash::vk::MemoryHeapFlags::from_raw(flags).contains(ash::vk::MemoryHeapFlags::DEVICE_LOCAL)
}

} // verus!
