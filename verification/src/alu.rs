// Arithmetic of the processor on bytes and flags.
use vstd::prelude::*;

verus! {

/// Result of an addition or subtraction: the byte, the carry out and the
/// signed-overflow flag.
#[derive(Clone, Copy, Debug, PartialEq, Eq, Structural)]
pub struct Sum {
    pub val: u8,
    pub carry: bool,
    pub overflow: bool,
}

/// Result of a shift, rotate or comparison: the byte and the carry out.
#[derive(Clone, Copy, Debug, PartialEq, Eq, Structural)]
pub struct Shifted {
    pub val: u8,
    pub carry: bool,
}

/// The six flags of the processor.
#[derive(Clone, Copy, Debug, PartialEq, Eq, Structural)]
pub struct Flags {
    pub n: bool,
    pub v: bool,
    pub d: bool,
    pub i: bool,
    pub z: bool,
    pub c: bool,
}

/// 1 for a set flag, 0 for a clear one.
pub open spec fn bit(flag: bool) -> int {
    if flag {
        1
    } else {
        0
    }
}

/// The byte read as a two's-complement number.
pub open spec fn signed(val: u8) -> int {
    if val >= 128 {
        val - 256
    } else {
        val as int
    }
}

/// The one's complement of a byte.
pub open spec fn complement(val: u8) -> u8 {
    (255 - val) as u8
}

/// The number that a byte stands for when each nibble is a decimal digit.
pub open spec fn bcd_value(val: u8) -> int {
    10 * (val / 16) + val % 16
}

/// Both nibbles are decimal digits.
pub open spec fn is_bcd(val: u8) -> bool {
    val / 16 <= 9 && val % 16 <= 9
}

/// `a + m + c` in binary: the low eight bits, the ninth bit as carry, and
/// overflow where the signed sum leaves the range of a signed byte.
pub open spec fn add_binary(a: u8, m: u8, c: bool) -> Sum {
    let total = a + m + bit(c);
    let signed_total = signed(a) + signed(m) + bit(c);
    Sum {
        val: (total % 256) as u8,
        carry: total > 255,
        overflow: signed_total < -128 || signed_total > 127,
    }
}

/// `a + m + c` digit by digit: a nibble sum above 9 is adjusted by 6 and
/// carries into the next digit. Overflow is that of the binary addition.
pub open spec fn add_decimal(a: u8, m: u8, c: bool) -> Sum {
    let lo = digit_up(a % 16 + m % 16 + bit(c));
    let hi = digit_up(a / 16 + m / 16 + bit(lo.1));
    Sum { val: (16 * hi.0 + lo.0) as u8, carry: hi.1, overflow: add_binary(a, m, c).overflow }
}

/// ADC: binary or decimal as the decimal flag `d` says.
pub open spec fn add_with_carry(a: u8, m: u8, c: bool, d: bool) -> Sum {
    if d {
        add_decimal(a, m, c)
    } else {
        add_binary(a, m, c)
    }
}

/// Binary subtraction is the addition of the one's complement.
pub open spec fn sub_binary(a: u8, m: u8, c: bool) -> Sum {
    add_binary(a, complement(m), c)
}

/// `a - m - (1 - c)` digit by digit: a negative nibble difference is adjusted
/// by 6 and borrows from the next digit. Carry and overflow are those of the
/// binary subtraction.
pub open spec fn sub_decimal(a: u8, m: u8, c: bool) -> Sum {
    let lo = digit_down(a % 16 - m % 16 - bit(!c));
    let hi = digit_down(a / 16 - m / 16 - bit(lo.1));
    Sum {
        val: (16 * hi.0 + lo.0) as u8,
        carry: sub_binary(a, m, c).carry,
        overflow: sub_binary(a, m, c).overflow,
    }
}

/// SBC: binary or decimal as the decimal flag `d` says.
pub open spec fn sub_with_borrow(a: u8, m: u8, c: bool, d: bool) -> Sum {
    if d {
        sub_decimal(a, m, c)
    } else {
        sub_binary(a, m, c)
    }
}

/// Shift left: bit 7 leaves into the carry.
pub open spec fn shift_left(val: u8) -> Shifted {
    Shifted { val: (2 * val % 256) as u8, carry: val >= 128 }
}

/// Shift right: bit 0 leaves into the carry.
pub open spec fn shift_right(val: u8) -> Shifted {
    Shifted { val: val / 2, carry: val % 2 == 1 }
}

/// Rotate left through the carry.
pub open spec fn rotate_left(val: u8, c: bool) -> Shifted {
    Shifted { val: (2 * val % 256 + bit(c)) as u8, carry: val >= 128 }
}

/// Rotate right through the carry.
pub open spec fn rotate_right(val: u8, c: bool) -> Shifted {
    Shifted { val: (val / 2 + 128 * bit(c)) as u8, carry: val % 2 == 1 }
}

/// Comparison: the low byte of `reg - m`, and carry where no borrow occurs.
pub open spec fn difference(reg: u8, m: u8) -> Shifted {
    Shifted { val: ((reg - m) % 256) as u8, carry: reg >= m }
}

/// The byte plus one, wrapping.
pub open spec fn increment(val: u8) -> u8 {
    ((val + 1) % 256) as u8
}

/// The byte minus one, wrapping.
pub open spec fn decrement(val: u8) -> u8 {
    ((val + 255) % 256) as u8
}

/// The status byte as it is pushed: bit 5 always set, bit 4 as `b` says.
pub open spec fn pack_status(f: Flags, b: bool) -> u8 {
    (32 + 128 * bit(f.n) + 64 * bit(f.v) + 16 * bit(b) + 8 * bit(f.d) + 4 * bit(f.i) + 2 * bit(
        f.z,
    ) + bit(f.c)) as u8
}

/// The flags that a pulled status byte sets: bits 4 and 5 are ignored.
pub open spec fn unpack_status(status: u8) -> Flags {
    Flags {
        n: status / 128 % 2 == 1,
        v: status / 64 % 2 == 1,
        d: status / 8 % 2 == 1,
        i: status / 4 % 2 == 1,
        z: status / 2 % 2 == 1,
        c: status % 2 == 1,
    }
}

/// The digit and the carry of a nibble sum `lo` in decimal mode.
pub open spec fn digit_up(lo: int) -> (int, bool) {
    if lo > 9 {
        ((lo + 6) % 16, true)
    } else {
        (lo, false)
    }
}

/// The digit and the borrow of a nibble difference `lo` in decimal mode.
pub open spec fn digit_down(lo: int) -> (int, bool) {
    if lo < 0 {
        ((lo - 6) % 16, true)
    } else {
        (lo, false)
    }
}

fn adjust_up(lo: u8) -> (out: (u8, u8))
    requires
        lo <= 31,
    ensures
        out.0 == digit_up(lo as int).0,
        out.1 == bit(digit_up(lo as int).1),
        out.0 <= 15,
{
    if lo > 9 {
        ((lo + 6) % 16, 1)
    } else {
        (lo, 0)
    }
}

fn adjust_down(lo: u8) -> (out: (u8, u8))
    requires
        lo <= 31,
    ensures
        out.0 == digit_down(lo - 16).0,
        out.1 == bit(digit_down(lo - 16).1),
        out.0 <= 15,
{
    if lo < 16 {
        ((lo + 10) % 16, 1)
    } else {
        (lo - 16, 0)
    }
}

fn adc_binary(a: u8, m: u8, c: bool) -> (sum: Sum)
    ensures
        sum == add_binary(a, m, c),
{
    let carry_in: u16 = if c {
        1
    } else {
        0
    };
    let total: u16 = a as u16 + m as u16 + carry_in;
    let val: u8 = (total % 256) as u8;
    let overflow = ((a ^ val) & (m ^ val) & 0x80) != 0;
    assert(overflow == ((a < 128) == (m < 128) && (val < 128) != (a < 128))) by (bit_vector)
        requires
            overflow == (((a ^ val) & (m ^ val) & 0x80) != 0),
    ;
    Sum { val, carry: total > 255, overflow }
}

pub fn adc_value(a: u8, m: u8, c: bool, d: bool) -> (sum: Sum)
    ensures
        sum == add_with_carry(a, m, c, d),
{
    let binary = adc_binary(a, m, c);
    if d {
        let carry_in: u8 = if c {
            1
        } else {
            0
        };
        let (lo_digit, lo_carry) = adjust_up(a % 16 + m % 16 + carry_in);
        let (hi_digit, hi_carry) = adjust_up(a / 16 + m / 16 + lo_carry);
        Sum { val: 16 * hi_digit + lo_digit, carry: hi_carry == 1, overflow: binary.overflow }
    } else {
        binary
    }
}

pub fn sbc_value(a: u8, m: u8, c: bool, d: bool) -> (sum: Sum)
    ensures
        sum == sub_with_borrow(a, m, c, d),
{
    assert(!m == 255 - m) by (bit_vector);
    let binary = adc_binary(a, !m, c);
    if d {
        let borrow: u8 = if c {
            0
        } else {
            1
        };
        let (lo_digit, lo_borrow) = adjust_down(16 + a % 16 - m % 16 - borrow);
        let (hi_digit, hi_borrow) = adjust_down(16 + a / 16 - m / 16 - lo_borrow);
        Sum { val: 16 * hi_digit + lo_digit, carry: binary.carry, overflow: binary.overflow }
    } else {
        binary
    }
}

pub fn asl_value(val: u8) -> (out: Shifted)
    ensures
        out == shift_left(val),
{
    assert(val << 1 == 2 * val % 256 && (val & 0x80 != 0) == (val >= 128)) by (bit_vector);
    Shifted { val: val << 1, carry: val & 0x80 != 0 }
}

pub fn lsr_value(val: u8) -> (out: Shifted)
    ensures
        out == shift_right(val),
{
    assert(val >> 1 == val / 2 && (val & 0x01 != 0) == (val % 2 == 1)) by (bit_vector);
    Shifted { val: val >> 1, carry: val & 0x01 != 0 }
}

pub fn rol_value(val: u8, c: bool) -> (out: Shifted)
    ensures
        out == rotate_left(val, c),
{
    let low: u8 = if c {
        0x01
    } else {
        0x00
    };
    assert((val << 1) | low == 2 * val % 256 + low && (val & 0x80 != 0) == (val >= 128))
        by (bit_vector)
        requires
            low <= 1,
    ;
    Shifted { val: (val << 1) | low, carry: val & 0x80 != 0 }
}

pub fn ror_value(val: u8, c: bool) -> (out: Shifted)
    ensures
        out == rotate_right(val, c),
{
    let high: u8 = if c {
        0x80
    } else {
        0x00
    };
    assert((val >> 1) | high == val / 2 + high && (val & 0x01 != 0) == (val % 2 == 1))
        by (bit_vector)
        requires
            high == 0x80 || high == 0,
    ;
    Shifted { val: (val >> 1) | high, carry: val & 0x01 != 0 }
}

pub fn difference_value(reg: u8, m: u8) -> (out: Shifted)
    ensures
        out == difference(reg, m),
{
    Shifted { val: reg.wrapping_sub(m), carry: reg >= m }
}

pub fn inc_value(val: u8) -> (out: u8)
    ensures
        out == increment(val),
{
    val.wrapping_add(1)
}

pub fn dec_value(val: u8) -> (out: u8)
    ensures
        out == decrement(val),
{
    val.wrapping_sub(1)
}

pub fn status_value(f: Flags, b: bool) -> (status: u8)
    ensures
        status == pack_status(f, b),
{
    let mut status: u8 = 0x20;
    if f.n {
        status = status + 0x80;
    }
    if f.v {
        status = status + 0x40;
    }
    if b {
        status = status + 0x10;
    }
    if f.d {
        status = status + 0x08;
    }
    if f.i {
        status = status + 0x04;
    }
    if f.z {
        status = status + 0x02;
    }
    if f.c {
        status = status + 0x01;
    }
    status
}

pub fn flags_value(status: u8) -> (f: Flags)
    ensures
        f == unpack_status(status),
{
    assert((status & 0x80 != 0) == (status / 128 % 2 == 1) && (status & 0x40 != 0) == (status / 64
        % 2 == 1) && (status & 0x08 != 0) == (status / 8 % 2 == 1) && (status & 0x04 != 0) == (
    status / 4 % 2 == 1) && (status & 0x02 != 0) == (status / 2 % 2 == 1) && (status & 0x01 != 0)
        == (status % 2 == 1)) by (bit_vector);
    Flags {
        n: status & 0x80 != 0,
        v: status & 0x40 != 0,
        d: status & 0x08 != 0,
        i: status & 0x04 != 0,
        z: status & 0x02 != 0,
        c: status & 0x01 != 0,
    }
}

/// In binary mode the carry after an addition says that the full sum does not
/// fit in a byte, and the carry after a subtraction says that no borrow was
/// needed: the full difference is not negative. The subtraction's carry is
/// the same in decimal mode.
pub proof fn lemma_carry_is_full_width(a: u8, m: u8, c: bool, d: bool)
    ensures
        add_with_carry(a, m, c, false).carry == (a + m + bit(c) > 255),
        sub_with_borrow(a, m, c, d).carry == (a - m - bit(!c) >= 0),
        add_with_carry(a, m, c, false).val == (a + m + bit(c)) % 256,
        sub_with_borrow(a, m, c, false).val == (a - m - bit(!c)) % 256,
{
}

/// On decimal digits the decimal addition is addition of the numbers that the
/// bytes stand for: the result is again made of decimal digits, and with the
/// carry as the hundreds it is the sum.
pub proof fn lemma_decimal_addition(a: u8, m: u8, c: bool)
    requires
        is_bcd(a),
        is_bcd(m),
    ensures
        is_bcd(add_decimal(a, m, c).val),
        bcd_value(add_decimal(a, m, c).val) + 100 * bit(add_decimal(a, m, c).carry) == bcd_value(a)
            + bcd_value(m) + bit(c),
{
    let lo = a % 16 + m % 16 + bit(c);
    let hi = a / 16 + m / 16 + bit(lo > 9);
    assert(lo > 9 ==> (lo + 6) % 16 == lo - 10);
    assert(hi > 9 ==> (hi + 6) % 16 == hi - 10);
    let val = add_decimal(a, m, c).val;
    assert(val == 16 * digit_up(hi).0 + digit_up(lo).0);
    assert(val / 16 == digit_up(hi).0 && val % 16 == digit_up(lo).0);
}

/// On decimal digits the decimal subtraction is subtraction of the numbers
/// that the bytes stand for: the result is again made of decimal digits, and
/// where the carry comes out clear a hundred was borrowed.
pub proof fn lemma_decimal_subtraction(a: u8, m: u8, c: bool)
    requires
        is_bcd(a),
        is_bcd(m),
    ensures
        is_bcd(sub_decimal(a, m, c).val),
        bcd_value(sub_decimal(a, m, c).val) - 100 * bit(!sub_decimal(a, m, c).carry) == bcd_value(
            a,
        ) - bcd_value(m) - bit(!c),
{
    let lo = a % 16 - m % 16 - bit(!c);
    let hi = a / 16 - m / 16 - bit(lo < 0);
    assert(lo < 0 ==> (lo - 6) % 16 == lo + 10);
    assert(hi < 0 ==> (hi - 6) % 16 == hi + 10);
    let val = sub_decimal(a, m, c).val;
    assert(val == 16 * digit_down(hi).0 + digit_down(lo).0);
    assert(val / 16 == digit_down(hi).0 && val % 16 == digit_down(lo).0);
    assert(sub_decimal(a, m, c).carry == (a - m - bit(!c) >= 0));
    assert(a == 16 * (a / 16) + a % 16 && m == 16 * (m / 16) + m % 16);
}

/// A pushed status byte always has bit 5 set, has bit 4 as the break flag
/// says, and gives back the six flags it was made from whatever that flag was.
pub proof fn lemma_status_round_trip(f: Flags, b: bool)
    ensures
        unpack_status(pack_status(f, b)) == f,
        pack_status(f, b) / 32 % 2 == 1,
        (pack_status(f, b) / 16 % 2 == 1) == b,
{
}

/// Shifts and rotates move every bit by one place: doubling or halving, with
/// the bit that leaves in the carry and the old carry entering at the other
/// end.
pub proof fn lemma_shift_carries(val: u8, c: bool)
    ensures
        2 * val == 256 * bit(shift_left(val).carry) + shift_left(val).val,
        val == 2 * shift_right(val).val + bit(shift_right(val).carry),
        2 * val + bit(c) == 256 * bit(rotate_left(val, c).carry) + rotate_left(val, c).val,
        val + 256 * bit(c) == 2 * rotate_right(val, c).val + bit(rotate_right(val, c).carry),
{
}

} // verus!
