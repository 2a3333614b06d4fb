//! Device capabilities, as a bit set.
use vstd::prelude::*;

verus! {

pub const CAPABILITY_KEYBOARD: u32 = 1;

pub const CAPABILITY_POINTER: u32 = 2;

pub const CAPABILITY_TOUCHSCREEN: u32 = 4;

/// What a session can be granted at most: keyboard and pointer.
pub const SUPPORTED_CAPABILITIES: u32 = 3;

/// The capabilities granted to a request: those of the request that are supported. A
/// request that names none stands for all supported ones.
pub open spec fn granted(requested: Option<u32>) -> u32 {
    match requested {
        Some(capabilities) => capabilities & SUPPORTED_CAPABILITIES,
        None => SUPPORTED_CAPABILITIES,
    }
}

/// Whether the set `capabilities` holds the single bit `capability`.
pub open spec fn includes(capabilities: u32, capability: u32) -> bool {
    capabilities & capability != 0
}

/// The supported capabilities are the keyboard and the pointer.
pub proof fn supported_are_keyboard_and_pointer()
    ensures
        SUPPORTED_CAPABILITIES == CAPABILITY_KEYBOARD | CAPABILITY_POINTER,
{
    assert(1u32 | 2u32 == 3u32) by (bit_vector);
}

/// The supported capabilities.
pub fn supported() -> (res: u32)
    ensures
        res == SUPPORTED_CAPABILITIES,
        res == CAPABILITY_KEYBOARD | CAPABILITY_POINTER,
{
    proof {
        supported_are_keyboard_and_pointer();
    }
    CAPABILITY_KEYBOARD | CAPABILITY_POINTER
}

/// Answers a request for capabilities with the supported part of it.
pub fn grant(requested: Option<u32>) -> (res: u32)
    ensures
        res == granted(requested),
        requested matches Some(capabilities) ==> res == capabilities % 4,
        requested is None ==> res == 3,
{
    let supported = supported();
    let capabilities = match requested {
        Some(capabilities) => capabilities,
        None => supported,
    };
    proof {
        assert(3u32 & 3u32 == 3u32) by (bit_vector);
        grants_are_the_supported_part(requested);
    }
    capabilities & supported
}

/// Nothing is granted that is not supported, nothing that a request did not name, and
/// every supported capability that it named; a touchscreen is never granted. Asking for
/// what was granted is granted unchanged.
pub proof fn grants_are_the_supported_part(requested: Option<u32>)
    ensures
        !includes(granted(requested), CAPABILITY_TOUCHSCREEN),
        granted(requested) & SUPPORTED_CAPABILITIES == granted(requested),
        granted(requested) < 4,
        requested is None ==> granted(requested) == 3,
        requested matches Some(capabilities) ==> {
            &&& granted(requested) == capabilities % 4
            &&& includes(granted(requested), CAPABILITY_KEYBOARD) == includes(
                capabilities,
                CAPABILITY_KEYBOARD,
            )
            &&& includes(granted(requested), CAPABILITY_POINTER) == includes(
                capabilities,
                CAPABILITY_POINTER,
            )
        },
        granted(Some(granted(requested))) == granted(requested),
{
    assert(3u32 & 4 == 0 && 3u32 & 3 == 3) by (bit_vector);
    if let Some(capabilities) = requested {
        assert((capabilities & 3) & 4 == 0 && (capabilities & 3) & 3 == capabilities & 3
            && capabilities & 3 == capabilities % 4 && capabilities & 3 < 4 && (capabilities & 3)
            & 1 == capabilities & 1 && (capabilities & 3) & 2 == capabilities & 2)
            by (bit_vector);
    }
}

} // verus!
