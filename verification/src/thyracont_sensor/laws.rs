//! What holds of the codec for every frame.

use crate::thyracont_sensor::all_digits;
use crate::thyracont_sensor::byte_sum;
use crate::thyracont_sensor::crc_of;
use crate::thyracont_sensor::decimal;
use crate::thyracont_sensor::decode_body;
use crate::thyracont_sensor::decode_spec;
use crate::thyracont_sensor::digits_value;
use crate::thyracont_sensor::framed;
use crate::thyracont_sensor::is_digit;
use crate::thyracont_sensor::lemma_pow10_increases;
use crate::thyracont_sensor::parse_decimal;
use crate::thyracont_sensor::poll_outcome;
use crate::thyracont_sensor::pow10;
use crate::thyracont_sensor::ParseError;
use crate::thyracont_sensor::Reading;
use crate::thyracont_sensor::ResponseView;
use crate::thyracont_sensor::CMD_ID;
use crate::thyracont_sensor::CMD_PRESSURE;
use crate::thyracont_sensor::FRAME_END;
use vstd::arithmetic::div_mod::lemma_fundamental_div_mod;
use vstd::arithmetic::div_mod::lemma_mod_bound;
use vstd::prelude::*;
use vstd::utf8::*;

verus! {

/// A reading in millionths of a millibar is exact from an exponent of 17 on,
/// and below that it is the exact value less a fraction of one millionth.
pub proof fn lemma_micro_mbar_rounds_down(reading: Reading)
    ensures
        reading.spec_micro_mbar() >= 0,
        reading.exponent >= 17 ==> reading.spec_micro_mbar() == reading.mantissa * pow10(
            (reading.exponent - 17) as nat,
        ),
        reading.exponent < 17 ==> 0 <= reading.mantissa - reading.spec_micro_mbar() * pow10(
            (17 - reading.exponent) as nat,
        ) < pow10((17 - reading.exponent) as nat),
{
    let m = reading.mantissa as int;
    if reading.exponent >= 17 {
        let scale = pow10((reading.exponent - 17) as nat);
        lemma_pow10_increases(0, (reading.exponent - 17) as nat);
        assert(m * scale >= 0) by (nonlinear_arith)
            requires
                m >= 0,
                scale > 0,
        ;
    } else {
        let scale = pow10((17 - reading.exponent) as nat);
        lemma_pow10_increases(0, (17 - reading.exponent) as nat);
        lemma_fundamental_div_mod(m, scale);
        lemma_mod_bound(m, scale);
        assert((m / scale) * scale == scale * (m / scale)) by (nonlinear_arith);
        assert(m / scale >= 0) by (nonlinear_arith)
            requires
                m >= 0,
                scale > 0,
        ;
    }
}

/// The response with which the transducer at `addr` reports a pressure: the
/// mantissa in four digits and the exponent in two.
pub open spec fn pressure_frame(addr: u8, mantissa: u32, exponent: i32) -> Seq<u8> {
    framed(
        decimal(addr as int, 3).push(CMD_PRESSURE) + decimal(mantissa as int, 4) + decimal(
            exponent as int,
            2,
        ),
    )
}

/// The response with which the transducer at `addr` reports its identifier.
pub open spec fn id_frame(addr: u8, id: Seq<u8>) -> Seq<u8> {
    framed(decimal(addr as int, 3).push(CMD_ID) + id)
}

/// A number written in as many digits as it needs at most reads back as
/// itself.
pub proof fn lemma_decimal_reads_back(n: int, width: nat)
    requires
        0 <= n < pow10(width),
    ensures
        decimal(n, width).len() == width,
        all_digits(decimal(n, width)),
        digits_value(decimal(n, width)) == n,
    decreases width,
{
    if width > 0 {
        lemma_decimal_reads_back(n / 10, (width - 1) as nat);
        assert(decimal(n, width).drop_last() =~= decimal(n / 10, (width - 1) as nat));
    }
}

/// A field of digits alone parses to its value, signed or not.
proof fn lemma_parse_digits(s: Seq<u8>, signed: bool)
    requires
        s.len() > 0,
        all_digits(s),
    ensures
        parse_decimal(s, signed) == Some(digits_value(s)),
{
    assert(is_digit(s[0]));
}

/// A frame body is what stands before the last two bytes of its frame, and
/// the checksum in the frame is that of the body.
proof fn lemma_framed_passes_crc(body: Seq<u8>)
    ensures
        decode_spec(framed(body)) == decode_body(body),
{
    let data = framed(body);
    assert(data.take(data.len() - 2) =~= body);
}

/// Every pressure response with a mantissa of up to four digits and an
/// exponent of up to two decodes to that mantissa and that exponent, whatever
/// the address.
pub proof fn lemma_pressure_frame_decodes(addr: u8, mantissa: u32, exponent: i32)
    requires
        mantissa <= 9999,
        0 <= exponent <= 99,
    ensures
        decode_spec(pressure_frame(addr, mantissa, exponent)) == Ok::<ResponseView, ParseError>(
            ResponseView::Pressure(Reading { mantissa, exponent }),
        ),
        poll_outcome(decode_spec(pressure_frame(addr, mantissa, exponent))) == Some(
            Reading { mantissa, exponent },
        ),
{
    reveal_with_fuel(pow10, 5);
    let a = decimal(addr as int, 3);
    let m = decimal(mantissa as int, 4);
    let e = decimal(exponent as int, 2);
    let body = a.push(CMD_PRESSURE) + m + e;
    lemma_decimal_reads_back(addr as int, 3);
    lemma_decimal_reads_back(mantissa as int, 4);
    lemma_decimal_reads_back(exponent as int, 2);
    lemma_framed_passes_crc(body);
    assert(body.take(3) =~= a);
    assert(body.subrange(4, 8) =~= m);
    assert(body.subrange(8, 10) =~= e);
    lemma_parse_digits(a, false);
    lemma_parse_digits(m, false);
    lemma_parse_digits(e, true);
    assert(body[3] == CMD_PRESSURE);
}

/// Every identifier response whose identifier is valid UTF-8 decodes to the
/// address and the characters of the identifier.
pub proof fn lemma_id_frame_decodes(addr: u8, id: Seq<u8>)
    requires
        valid_utf8(id),
    ensures
        decode_spec(id_frame(addr, id)) == Ok::<ResponseView, ParseError>(
            ResponseView::Id { addr, id: decode_utf8(id) },
        ),
{
    reveal_with_fuel(pow10, 5);
    let a = decimal(addr as int, 3);
    let body = a.push(CMD_ID) + id;
    lemma_decimal_reads_back(addr as int, 3);
    lemma_framed_passes_crc(body);
    assert(body.take(3) =~= a);
    assert(body.skip(4) =~= id);
    lemma_parse_digits(a, false);
    assert(body[3] == CMD_ID);
}

/// Replacing one byte moves the byte sum by the difference of the two bytes.
pub proof fn lemma_byte_sum_update(data: Seq<u8>, i: int, b: u8)
    requires
        0 <= i < data.len(),
    ensures
        byte_sum(data.update(i, b)) == byte_sum(data) - data[i] + b,
    decreases data.len(),
{
    let changed = data.update(i, b);
    if i == data.len() - 1 {
        assert(changed.drop_last() =~= data.drop_last());
    } else {
        lemma_byte_sum_update(data.drop_last(), i, b);
        assert(changed.drop_last() =~= data.drop_last().update(i, b));
    }
}

/// In a frame that passes its checksum, replacing one byte of the body by a
/// byte that differs from it modulo 64 makes the checksum fail.
pub proof fn lemma_corrupted_byte_fails_crc(data: Seq<u8>, i: int, b: u8)
    requires
        data.len() >= 2,
        data.last() == FRAME_END,
        crc_of(data.take(data.len() - 2)) == data[data.len() - 2],
        0 <= i < data.len() - 2,
        (b - data[i]) % 64 != 0,
    ensures
        decode_spec(data.update(i, b)) is Err,
        decode_spec(data.update(i, b))->Err_0 is CrcError,
        decode_spec(data.update(i, b))->Err_0->msg == data[data.len() - 2],
{
    let body = data.take(data.len() - 2);
    let changed = data.update(i, b);
    assert(changed.take(changed.len() - 2) =~= body.update(i, b));
    lemma_byte_sum_update(body, i, b);
}

} // verus!
