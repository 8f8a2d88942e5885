use vstd::prelude::*;

verus! {

/// Offset of the GPIO registers from the peripheral base.
pub const GPIO_REG_OFFSET: usize = 0x200000;

/// The number of GPIO pins.
pub const PIN_COUNT: u8 = 54;

/// The number of pins whose function one select register holds.
pub const PINS_PER_SELECT: u8 = 10;

/// The three-bit function field of slot `k` (0 to 9) of a function select
/// register's value `v`.
pub open spec fn select_field(v: u32, k: u32) -> u32 {
    (v >> (3 * k)) & 7
}

/// The index of the function select register that holds `pin`.
pub fn select_register(pin: u8) -> (r: usize)
    requires
        pin < PIN_COUNT,
    ensures
        r == pin / 10,
        r < 6,
{
    (pin / PINS_PER_SELECT) as usize
}

/// The value of a function select register, read as `current`, once the
/// field of `pin` is set to `function` and every other field is kept.
pub fn select_function(current: u32, pin: u8, function: u32) -> (r: u32)
    requires
        pin < PIN_COUNT,
        function < 8,
    ensures
        forall|k: u32|
            k < 10 ==> #[trigger] select_field(r, k) == if k == pin % 10 {
                function
            } else {
                select_field(current, k)
            },
        r >> 30u32 == current >> 30u32,
{
    let slot = (pin % PINS_PER_SELECT) as u32;
    let shift = 3 * slot;
    let r = (current & !(7u32 << shift)) | (function << shift);
    assert forall|k: u32| k < 10 implies #[trigger] select_field(r, k) == if k == slot {
        function
    } else {
        select_field(current, k)
    } by {
        assert(((r >> (3 * k)) & 7) == if k == slot {
            function
        } else {
            (current >> (3 * k)) & 7
        }) by (bit_vector)
            requires
                r == (current & !(7u32 << shift)) | (function << shift),
                shift == 3 * slot,
                slot < 10,
                k < 10,
                function < 8,
        ;
    }
    assert(r >> 30u32 == current >> 30u32) by (bit_vector)
        requires
            r == (current & !(7u32 << shift)) | (function << shift),
            shift == 3 * slot,
            slot < 10,
            function < 8,
    ;
    r
}

} // verus!
