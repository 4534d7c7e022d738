//! What holds of the layouts.
//!
//! Reading and writing undo each other, a record depends on no byte behind
//! it, a buffer cut short within a record holds no record, and a curve's tag
//! decides its shape.

use vstd::prelude::*;
use vstd::utf8::{
    decode_utf8_encode_utf8, encode_utf8, encode_utf8_decode_utf8, encode_utf8_valid_utf8,
};
use crate::error::{fails_with, gives, DecodeError};
use crate::layout::{
    boop_args_at, boop_args_bytes, constant_curve_at, constant_curve_bytes, create_at, create_bytes,
    curve_len, curve_params_at, curve_params_bytes, curve_state_at, curve_state_bytes, curve_tag,
    fixed_curve_at, fixed_curve_bytes, global_config_at, global_config_bytes, initialize_data_at,
    initialize_data_bytes, linear_curve_at, linear_curve_bytes, mint_params_at, mint_params_bytes,
    name_and_symbol_at, name_and_symbol_bytes, pool_parameters_at, pool_parameters_bytes,
    pool_state_at, pool_state_bytes, vesting_param_at, vesting_param_bytes, CreateRecord,
    GlobalConfigRecord, PoolStateRecord, CONSTANT_CURVE_LEN, CURVE_STATE_LEN, FIXED_CURVE_LEN,
    GLOBAL_CONFIG_LEN, LINEAR_CURVE_LEN, POOL_RESERVED_LEN, POOL_STATE_LEN, TAG_CONSTANT, TAG_FIXED,
    TAG_LINEAR, VESTING_LEN,
};
use crate::records::{
    ConstantCurve, CreateTokenBoopArgsView, CurveParams, CurveState, FixedCurve, InitializeDataView,
    InitializePoolParametersView, LinearCurve, MintParamsView, VestingParam,
};
use crate::wire::{
    available, le_u32, le_u64, text_at, text_bytes, text_fits, u32_le, u64_at, u64_in, u64_le,
    KEY_LEN,
};

verus! {

/// Four bytes stand for a number that fits in a `u32`, and writing that
/// number gives the four bytes back.
pub proof fn u32_read_then_written(b: Seq<u8>)
    requires
        b.len() == 4,
    ensures
        0 <= le_u32(b) <= u32::MAX,
        u32_le(le_u32(b) as u32) == b,
{
    reveal(u32_le);
    let (b0, b1, b2, b3) = (b[0], b[1], b[2], b[3]);
    let v = le_u32(b) as u32;
    assert(v % 0x100 == b0 && v / 0x100 % 0x100 == b1 && v / 0x1_0000 % 0x100 == b2 && v
        / 0x100_0000 % 0x100 == b3) by (bit_vector)
        requires
            v == b0 + 0x100 * b1 + 0x1_0000 * b2 + 0x100_0000 * b3,
    ;
    assert(u32_le(v) =~= b);
}

/// The four bytes written for a `u32` stand for it.
pub proof fn u32_written_then_read(v: u32)
    ensures
        u32_le(v).len() == 4,
        le_u32(u32_le(v)) == v,
{
    reveal(u32_le);
    assert(v == v % 0x100 + 0x100 * (v / 0x100 % 0x100) + 0x1_0000 * (v / 0x1_0000 % 0x100)
        + 0x100_0000 * (v / 0x100_0000 % 0x100)) by (bit_vector);
}

/// Eight bytes stand for a number that fits in a `u64`, and writing that
/// number gives the eight bytes back.
pub proof fn u64_read_then_written(b: Seq<u8>)
    requires
        b.len() == 8,
    ensures
        0 <= le_u64(b) <= u64::MAX,
        u64_le(le_u64(b) as u64) == b,
{
    reveal(u64_le);
    let (b0, b1, b2, b3) = (b[0], b[1], b[2], b[3]);
    let (b4, b5, b6, b7) = (b[4], b[5], b[6], b[7]);
    let v = le_u64(b) as u64;
    assert(v % 0x100 == b0 && v / 0x100 % 0x100 == b1 && v / 0x1_0000 % 0x100 == b2 && v
        / 0x100_0000 % 0x100 == b3 && v / 0x1_0000_0000 % 0x100 == b4 && v / 0x100_0000_0000
        % 0x100 == b5 && v / 0x1_0000_0000_0000 % 0x100 == b6 && v / 0x100_0000_0000_0000 % 0x100
        == b7) by (bit_vector)
        requires
            v == b0 + 0x100 * b1 + 0x1_0000 * b2 + 0x100_0000 * b3 + 0x1_0000_0000 * b4
                + 0x100_0000_0000 * b5 + 0x1_0000_0000_0000 * b6 + 0x100_0000_0000_0000 * b7,
    ;
    assert(u64_le(v) =~= b);
}

/// The eight bytes written for a `u64` stand for it.
pub proof fn u64_written_then_read(v: u64)
    ensures
        u64_le(v).len() == 8,
        le_u64(u64_le(v)) == v,
{
    reveal(u64_le);
    assert(v == v % 0x100 + 0x100 * (v / 0x100 % 0x100) + 0x1_0000 * (v / 0x1_0000 % 0x100)
        + 0x100_0000 * (v / 0x100_0000 % 0x100) + 0x1_0000_0000 * (v / 0x1_0000_0000 % 0x100)
        + 0x100_0000_0000 * (v / 0x100_0000_0000 % 0x100) + 0x1_0000_0000_0000 * (v
        / 0x1_0000_0000_0000 % 0x100) + 0x100_0000_0000_0000 * (v / 0x100_0000_0000_0000
        % 0x100)) by (bit_vector);
}

/// The eight bytes of a buffer from `at` on are what is written for the
/// number they stand for.
pub proof fn u64_in_buffer_read_then_written(buf: Seq<u8>, at: int)
    requires
        available(buf, at, 8),
    ensures
        u64_le(u64_in(buf, at)) == buf.subrange(at, at + 8),
{
    u64_read_then_written(buf.subrange(at, at + 8));
}

/// Where a range of a buffer is one sequence followed by another, each of
/// the two stands in its part of the range.
pub proof fn parts_of_range(buf: Seq<u8>, pos: int, first: Seq<u8>, second: Seq<u8>)
    requires
        available(buf, pos, (first.len() + second.len()) as int),
        buf.subrange(pos, pos + first.len() + second.len()) == first + second,
    ensures
        buf.subrange(pos, pos + first.len()) == first,
        buf.subrange(pos + first.len(), pos + first.len() + second.len()) == second,
{
    let whole = buf.subrange(pos, pos + first.len() + second.len());
    assert(buf.subrange(pos, pos + first.len()) =~= whole.subrange(0, first.len() as int));
    assert(whole.subrange(0, first.len() as int) =~= first);
    assert(buf.subrange(pos + first.len(), pos + first.len() + second.len()) =~= whole.subrange(
        first.len() as int,
        (first.len() + second.len()) as int,
    ));
    assert(whole.subrange(first.len() as int, (first.len() + second.len()) as int) =~= second);
}

/// Two ranges of a buffer that meet make up the range over both.
pub proof fn ranges_join(buf: Seq<u8>, from: int, mid: int, to: int)
    requires
        0 <= from <= mid <= to <= buf.len(),
    ensures
        buf.subrange(from, mid) + buf.subrange(mid, to) == buf.subrange(from, to),
{
    assert(buf.subrange(from, mid) + buf.subrange(mid, to) =~= buf.subrange(from, to));
}

/// Where the bytes written for a number stand in a buffer, the number is
/// read.
pub proof fn u64_written_then_read_in_buffer(buf: Seq<u8>, at: int, v: u64)
    requires
        available(buf, at, 8),
        buf.subrange(at, at + 8) == u64_le(v),
    ensures
        u64_in(buf, at) == v,
        gives(u64_at(buf, at), v, at + 8),
{
    u64_written_then_read(v);
}

/// A text that was read takes up exactly the bytes that are written for it.
pub proof fn text_read_then_written(buf: Seq<u8>, pos: int)
    requires
        text_at(buf, pos) is Ok,
    ensures
        ({
            let (text, next) = text_at(buf, pos)->Ok_0;
            &&& 0 <= pos <= next <= buf.len()
            &&& text_fits(text)
            &&& text_bytes(text) == buf.subrange(pos, next)
        }),
{
    let (text, next) = text_at(buf, pos)->Ok_0;
    let prefix = buf.subrange(pos, pos + 4);
    let body = buf.subrange(pos + 4, next);
    u32_read_then_written(prefix);
    decode_utf8_encode_utf8(body);
    assert(text_bytes(text) =~= buf.subrange(pos, next));
}

/// Where the bytes written for a text stand in a buffer, the text is read.
pub proof fn text_written_then_read(buf: Seq<u8>, pos: int, text: Seq<char>)
    requires
        text_fits(text),
        available(buf, pos, text_bytes(text).len() as int),
        buf.subrange(pos, pos + text_bytes(text).len()) == text_bytes(text),
    ensures
        gives(text_at(buf, pos), text, pos + text_bytes(text).len()),
{
    let body = encode_utf8(text);
    u32_written_then_read(body.len() as u32);
    encode_utf8_valid_utf8(text);
    encode_utf8_decode_utf8(text);
    parts_of_range(buf, pos, u32_le(body.len() as u32), body);
}

/// The first `n` bytes of a buffer hold the ranges of the buffer that end
/// within them.
pub proof fn prefix_keeps_ranges(buf: Seq<u8>, n: int)
    requires
        0 <= n <= buf.len(),
    ensures
        forall|a: int, b: int|
            0 <= a <= b <= n ==> #[trigger] buf.take(n).subrange(a, b) == buf.subrange(a, b),
{
    assert forall|a: int, b: int| 0 <= a <= b <= n implies #[trigger] buf.take(n).subrange(a, b)
        == buf.subrange(a, b) by {
        assert(buf.take(n).subrange(a, b) =~= buf.subrange(a, b));
    }
}

/// A text depends on no byte behind it, and a buffer cut short within a text
/// holds no text at that place.
pub proof fn text_in_prefix(buf: Seq<u8>, pos: int, n: int)
    requires
        text_at(buf, pos) is Ok,
        0 <= n <= buf.len(),
    ensures
        n >= text_at(buf, pos)->Ok_0.1 ==> text_at(buf.take(n), pos) == text_at(buf, pos),
        n < text_at(buf, pos)->Ok_0.1 ==> fails_with(
            text_at(buf.take(n), pos),
            DecodeError::BufferTooShort,
        ),
{
    prefix_keeps_ranges(buf, n);
}

/// True when each text of `v` is short enough for its length prefix.
pub open spec fn pool_parameters_fit(v: InitializePoolParametersView) -> bool {
    text_fits(v.name) && text_fits(v.symbol) && text_fits(v.uri)
}

/// Three texts that were read take up exactly the bytes that are written
/// for them.
pub proof fn pool_parameters_read_then_written(buf: Seq<u8>, pos: int)
    requires
        pool_parameters_at(buf, pos) is Ok,
    ensures
        ({
            let (v, next) = pool_parameters_at(buf, pos)->Ok_0;
            &&& 0 <= pos <= next <= buf.len()
            &&& pool_parameters_fit(v)
            &&& pool_parameters_bytes(v) == buf.subrange(pos, next)
        }),
{
    let (v, next) = pool_parameters_at(buf, pos)->Ok_0;
    let at_symbol = text_at(buf, pos)->Ok_0.1;
    let at_uri = text_at(buf, at_symbol)->Ok_0.1;
    text_read_then_written(buf, pos);
    text_read_then_written(buf, at_symbol);
    text_read_then_written(buf, at_uri);
    assert(pool_parameters_bytes(v) =~= buf.subrange(pos, next));
}

/// Where the bytes written for three texts stand in a buffer, the texts
/// are read.
pub proof fn pool_parameters_written_then_read(
    buf: Seq<u8>,
    pos: int,
    v: InitializePoolParametersView,
)
    requires
        pool_parameters_fit(v),
        available(buf, pos, pool_parameters_bytes(v).len() as int),
        buf.subrange(pos, pos + pool_parameters_bytes(v).len()) == pool_parameters_bytes(v),
    ensures
        gives(pool_parameters_at(buf, pos), v, pos + pool_parameters_bytes(v).len()),
{
    let (name, symbol, uri) = (text_bytes(v.name), text_bytes(v.symbol), text_bytes(v.uri));
    parts_of_range(buf, pos, name + symbol, uri);
    parts_of_range(buf, pos, name, symbol);
    text_written_then_read(buf, pos, v.name);
    text_written_then_read(buf, pos + name.len(), v.symbol);
    text_written_then_read(buf, pos + name.len() + symbol.len(), v.uri);
}

/// Three texts depend on no byte behind them, and a buffer cut short within
/// them holds no three texts at that place.
pub proof fn pool_parameters_in_prefix(buf: Seq<u8>, pos: int, n: int)
    requires
        pool_parameters_at(buf, pos) is Ok,
        0 <= n <= buf.len(),
    ensures
        n >= pool_parameters_at(buf, pos)->Ok_0.1 ==> pool_parameters_at(buf.take(n), pos)
            == pool_parameters_at(buf, pos),
        n < pool_parameters_at(buf, pos)->Ok_0.1 ==> fails_with(
            pool_parameters_at(buf.take(n), pos),
            DecodeError::BufferTooShort,
        ),
{
    let at_symbol = text_at(buf, pos)->Ok_0.1;
    let at_uri = text_at(buf, at_symbol)->Ok_0.1;
    text_read_then_written(buf, pos);
    text_read_then_written(buf, at_symbol);
    text_read_then_written(buf, at_uri);
    text_in_prefix(buf, pos, n);
    text_in_prefix(buf, at_symbol, n);
    text_in_prefix(buf, at_uri, n);
}

/// The bytes written for a constant-product curve are as many as the layout
/// says.
pub proof fn constant_curve_bytes_length(v: ConstantCurve)
    ensures
        constant_curve_bytes(v).len() == CONSTANT_CURVE_LEN,
{
    u64_written_then_read(v.supply);
    u64_written_then_read(v.total_base_sell);
    u64_written_then_read(v.total_quote_fund_raising);
}

/// A constant-product curve that was read takes up exactly the bytes that are
/// written for it.
pub proof fn constant_curve_read_then_written(buf: Seq<u8>, pos: int)
    requires
        constant_curve_at(buf, pos) is Ok,
    ensures
        ({
            let (v, next) = constant_curve_at(buf, pos)->Ok_0;
            &&& next == pos + CONSTANT_CURVE_LEN
            &&& available(buf, pos, CONSTANT_CURVE_LEN as int)
            &&& constant_curve_bytes(v) == buf.subrange(pos, next)
        }),
{
    let v = constant_curve_at(buf, pos)->Ok_0.0;
    u64_in_buffer_read_then_written(buf, pos);
    u64_in_buffer_read_then_written(buf, pos + 8);
    u64_in_buffer_read_then_written(buf, pos + 16);
    let migrate_type = seq![v.migrate_type];
    assert(migrate_type =~= buf.subrange(pos + 24, pos + 25));
    ranges_join(buf, pos, pos + 8, pos + 16);
    ranges_join(buf, pos, pos + 16, pos + 24);
    ranges_join(buf, pos, pos + 24, pos + 25);
}

/// Where the bytes written for a constant-product curve stand in a buffer, it
/// is read.
pub proof fn constant_curve_written_then_read(buf: Seq<u8>, pos: int, v: ConstantCurve)
    requires
        available(buf, pos, CONSTANT_CURVE_LEN as int),
        buf.subrange(pos, pos + CONSTANT_CURVE_LEN) == constant_curve_bytes(v),
    ensures
        gives(constant_curve_at(buf, pos), v, pos + CONSTANT_CURVE_LEN),
{
    u64_written_then_read(v.supply);
    u64_written_then_read(v.total_base_sell);
    u64_written_then_read(v.total_quote_fund_raising);
    let supply = u64_le(v.supply);
    let total_base_sell = u64_le(v.total_base_sell);
    let total_quote_fund_raising = u64_le(v.total_quote_fund_raising);
    let migrate_type = seq![v.migrate_type];
    parts_of_range(buf, pos, supply + total_base_sell + total_quote_fund_raising, migrate_type);
    parts_of_range(buf, pos, supply + total_base_sell, total_quote_fund_raising);
    parts_of_range(buf, pos, supply, total_base_sell);
    u64_written_then_read_in_buffer(buf, pos, v.supply);
    u64_written_then_read_in_buffer(buf, pos + 8, v.total_base_sell);
    u64_written_then_read_in_buffer(buf, pos + 16, v.total_quote_fund_raising);
    assert(buf[pos + 24] == buf.subrange(pos + 24, pos + 25)[0]);
}

/// A constant-product curve depends on no byte behind it, and a buffer cut
/// short within it holds none at that place.
pub proof fn constant_curve_in_prefix(buf: Seq<u8>, pos: int, n: int)
    requires
        constant_curve_at(buf, pos) is Ok,
        0 <= n <= buf.len(),
    ensures
        n >= pos + CONSTANT_CURVE_LEN ==> constant_curve_at(buf.take(n), pos) == constant_curve_at(
            buf,
            pos,
        ),
        n < pos + CONSTANT_CURVE_LEN ==> fails_with(
            constant_curve_at(buf.take(n), pos),
            DecodeError::BufferTooShort,
        ),
{
    prefix_keeps_ranges(buf, n);
}

/// The bytes written for a fixed-price curve are as many as the layout says.
pub proof fn fixed_curve_bytes_length(v: FixedCurve)
    ensures
        fixed_curve_bytes(v).len() == FIXED_CURVE_LEN,
{
    u64_written_then_read(v.supply);
    u64_written_then_read(v.total_quote_fund_raising);
}

/// A fixed-price curve that was read takes up exactly the bytes that are
/// written for it.
pub proof fn fixed_curve_read_then_written(buf: Seq<u8>, pos: int)
    requires
        fixed_curve_at(buf, pos) is Ok,
    ensures
        ({
            let (v, next) = fixed_curve_at(buf, pos)->Ok_0;
            &&& next == pos + FIXED_CURVE_LEN
            &&& available(buf, pos, FIXED_CURVE_LEN as int)
            &&& fixed_curve_bytes(v) == buf.subrange(pos, next)
        }),
{
    let v = fixed_curve_at(buf, pos)->Ok_0.0;
    u64_in_buffer_read_then_written(buf, pos);
    u64_in_buffer_read_then_written(buf, pos + 8);
    let migrate_type = seq![v.migrate_type];
    assert(migrate_type =~= buf.subrange(pos + 16, pos + 17));
    ranges_join(buf, pos, pos + 8, pos + 16);
    ranges_join(buf, pos, pos + 16, pos + 17);
}

/// Where the bytes written for a fixed-price curve stand in a buffer, it is
/// read.
pub proof fn fixed_curve_written_then_read(buf: Seq<u8>, pos: int, v: FixedCurve)
    requires
        available(buf, pos, FIXED_CURVE_LEN as int),
        buf.subrange(pos, pos + FIXED_CURVE_LEN) == fixed_curve_bytes(v),
    ensures
        gives(fixed_curve_at(buf, pos), v, pos + FIXED_CURVE_LEN),
{
    u64_written_then_read(v.supply);
    u64_written_then_read(v.total_quote_fund_raising);
    let supply = u64_le(v.supply);
    let total_quote_fund_raising = u64_le(v.total_quote_fund_raising);
    let migrate_type = seq![v.migrate_type];
    parts_of_range(buf, pos, supply + total_quote_fund_raising, migrate_type);
    parts_of_range(buf, pos, supply, total_quote_fund_raising);
    u64_written_then_read_in_buffer(buf, pos, v.supply);
    u64_written_then_read_in_buffer(buf, pos + 8, v.total_quote_fund_raising);
    assert(buf[pos + 16] == buf.subrange(pos + 16, pos + 17)[0]);
}

/// A fixed-price curve depends on no byte behind it, and a buffer cut short
/// within it holds none at that place.
pub proof fn fixed_curve_in_prefix(buf: Seq<u8>, pos: int, n: int)
    requires
        fixed_curve_at(buf, pos) is Ok,
        0 <= n <= buf.len(),
    ensures
        n >= pos + FIXED_CURVE_LEN ==> fixed_curve_at(buf.take(n), pos) == fixed_curve_at(buf, pos),
        n < pos + FIXED_CURVE_LEN ==> fails_with(
            fixed_curve_at(buf.take(n), pos),
            DecodeError::BufferTooShort,
        ),
{
    prefix_keeps_ranges(buf, n);
}

/// The bytes written for a linear-price curve are as many as the layout says.
pub proof fn linear_curve_bytes_length(v: LinearCurve)
    ensures
        linear_curve_bytes(v).len() == LINEAR_CURVE_LEN,
{
    u64_written_then_read(v.supply);
    u64_written_then_read(v.total_quote_fund_raising);
}

/// A linear-price curve that was read takes up exactly the bytes that are
/// written for it.
pub proof fn linear_curve_read_then_written(buf: Seq<u8>, pos: int)
    requires
        linear_curve_at(buf, pos) is Ok,
    ensures
        ({
            let (v, next) = linear_curve_at(buf, pos)->Ok_0;
            &&& next == pos + LINEAR_CURVE_LEN
            &&& available(buf, pos, LINEAR_CURVE_LEN as int)
            &&& linear_curve_bytes(v) == buf.subrange(pos, next)
        }),
{
    let v = linear_curve_at(buf, pos)->Ok_0.0;
    u64_in_buffer_read_then_written(buf, pos);
    u64_in_buffer_read_then_written(buf, pos + 8);
    let migrate_type = seq![v.migrate_type];
    assert(migrate_type =~= buf.subrange(pos + 16, pos + 17));
    ranges_join(buf, pos, pos + 8, pos + 16);
    ranges_join(buf, pos, pos + 16, pos + 17);
}

/// Where the bytes written for a linear-price curve stand in a buffer, it is
/// read.
pub proof fn linear_curve_written_then_read(buf: Seq<u8>, pos: int, v: LinearCurve)
    requires
        available(buf, pos, LINEAR_CURVE_LEN as int),
        buf.subrange(pos, pos + LINEAR_CURVE_LEN) == linear_curve_bytes(v),
    ensures
        gives(linear_curve_at(buf, pos), v, pos + LINEAR_CURVE_LEN),
{
    u64_written_then_read(v.supply);
    u64_written_then_read(v.total_quote_fund_raising);
    let supply = u64_le(v.supply);
    let total_quote_fund_raising = u64_le(v.total_quote_fund_raising);
    let migrate_type = seq![v.migrate_type];
    parts_of_range(buf, pos, supply + total_quote_fund_raising, migrate_type);
    parts_of_range(buf, pos, supply, total_quote_fund_raising);
    u64_written_then_read_in_buffer(buf, pos, v.supply);
    u64_written_then_read_in_buffer(buf, pos + 8, v.total_quote_fund_raising);
    assert(buf[pos + 16] == buf.subrange(pos + 16, pos + 17)[0]);
}

/// A linear-price curve depends on no byte behind it, and a buffer cut short
/// within it holds none at that place.
pub proof fn linear_curve_in_prefix(buf: Seq<u8>, pos: int, n: int)
    requires
        linear_curve_at(buf, pos) is Ok,
        0 <= n <= buf.len(),
    ensures
        n >= pos + LINEAR_CURVE_LEN ==> linear_curve_at(buf.take(n), pos) == linear_curve_at(
            buf,
            pos,
        ),
        n < pos + LINEAR_CURVE_LEN ==> fails_with(
            linear_curve_at(buf.take(n), pos),
            DecodeError::BufferTooShort,
        ),
{
    prefix_keeps_ranges(buf, n);
}

/// The bytes written for a vesting record are as many as the layout says.
pub proof fn vesting_param_bytes_length(v: VestingParam)
    ensures
        vesting_param_bytes(v).len() == VESTING_LEN,
{
    u64_written_then_read(v.total_locked_amount);
    u64_written_then_read(v.cliff_period);
    u64_written_then_read(v.unlock_period);
}

/// A vesting record that was read takes up exactly the bytes that are written
/// for it.
pub proof fn vesting_param_read_then_written(buf: Seq<u8>, pos: int)
    requires
        vesting_param_at(buf, pos) is Ok,
    ensures
        ({
            let (v, next) = vesting_param_at(buf, pos)->Ok_0;
            &&& next == pos + VESTING_LEN
            &&& available(buf, pos, VESTING_LEN as int)
            &&& vesting_param_bytes(v) == buf.subrange(pos, next)
        }),
{
    let v = vesting_param_at(buf, pos)->Ok_0.0;
    u64_in_buffer_read_then_written(buf, pos);
    u64_in_buffer_read_then_written(buf, pos + 8);
    u64_in_buffer_read_then_written(buf, pos + 16);
    ranges_join(buf, pos, pos + 8, pos + 16);
    ranges_join(buf, pos, pos + 16, pos + 24);
}

/// Where the bytes written for a vesting record stand in a buffer, it is
/// read.
pub proof fn vesting_param_written_then_read(buf: Seq<u8>, pos: int, v: VestingParam)
    requires
        available(buf, pos, VESTING_LEN as int),
        buf.subrange(pos, pos + VESTING_LEN) == vesting_param_bytes(v),
    ensures
        gives(vesting_param_at(buf, pos), v, pos + VESTING_LEN),
{
    u64_written_then_read(v.total_locked_amount);
    u64_written_then_read(v.cliff_period);
    u64_written_then_read(v.unlock_period);
    let total_locked_amount = u64_le(v.total_locked_amount);
    let cliff_period = u64_le(v.cliff_period);
    let unlock_period = u64_le(v.unlock_period);
    parts_of_range(buf, pos, total_locked_amount + cliff_period, unlock_period);
    parts_of_range(buf, pos, total_locked_amount, cliff_period);
    u64_written_then_read_in_buffer(buf, pos, v.total_locked_amount);
    u64_written_then_read_in_buffer(buf, pos + 8, v.cliff_period);
    u64_written_then_read_in_buffer(buf, pos + 16, v.unlock_period);
}

/// A vesting record depends on no byte behind it, and a buffer cut short
/// within it holds none at that place.
pub proof fn vesting_param_in_prefix(buf: Seq<u8>, pos: int, n: int)
    requires
        vesting_param_at(buf, pos) is Ok,
        0 <= n <= buf.len(),
    ensures
        n >= pos + VESTING_LEN ==> vesting_param_at(buf.take(n), pos) == vesting_param_at(buf, pos),
        n < pos + VESTING_LEN ==> fails_with(
            vesting_param_at(buf.take(n), pos),
            DecodeError::BufferTooShort,
        ),
{
    prefix_keeps_ranges(buf, n);
}

/// The bytes written for a bonding curve's state are as many as the layout
/// says.
pub proof fn curve_state_bytes_length(v: CurveState)
    ensures
        curve_state_bytes(v).len() == CURVE_STATE_LEN,
{
    u64_written_then_read(v.virtual_token_reserves);
    u64_written_then_read(v.virtual_sol_reserves);
    u64_written_then_read(v.real_token_reserves);
    u64_written_then_read(v.real_sol_reserves);
    u64_written_then_read(v.token_total_supply);
}

/// A bonding curve's state that was read takes up exactly the bytes that are
/// written for it, where the flag byte is 0 or 1.
pub proof fn curve_state_read_then_written(buf: Seq<u8>, pos: int)
    requires
        curve_state_at(buf, pos) is Ok,
        buf[pos + 40] <= 1,
    ensures
        ({
            let (v, next) = curve_state_at(buf, pos)->Ok_0;
            &&& next == pos + CURVE_STATE_LEN
            &&& available(buf, pos, CURVE_STATE_LEN as int)
            &&& curve_state_bytes(v) == buf.subrange(pos, next)
        }),
{
    let v = curve_state_at(buf, pos)->Ok_0.0;
    u64_in_buffer_read_then_written(buf, pos);
    u64_in_buffer_read_then_written(buf, pos + 8);
    u64_in_buffer_read_then_written(buf, pos + 16);
    u64_in_buffer_read_then_written(buf, pos + 24);
    u64_in_buffer_read_then_written(buf, pos + 32);
    let flag = seq![if v.complete {
        1u8
    } else {
        0u8
    }];
    assert(flag =~= buf.subrange(pos + 40, pos + 41));
    ranges_join(buf, pos, pos + 8, pos + 16);
    ranges_join(buf, pos, pos + 16, pos + 24);
    ranges_join(buf, pos, pos + 24, pos + 32);
    ranges_join(buf, pos, pos + 32, pos + 40);
    ranges_join(buf, pos, pos + 40, pos + 41);
}

/// Where the bytes written for a bonding curve's state stand in a buffer, it
/// is read.
pub proof fn curve_state_written_then_read(buf: Seq<u8>, pos: int, v: CurveState)
    requires
        available(buf, pos, CURVE_STATE_LEN as int),
        buf.subrange(pos, pos + CURVE_STATE_LEN) == curve_state_bytes(v),
    ensures
        gives(curve_state_at(buf, pos), v, pos + CURVE_STATE_LEN),
{
    u64_written_then_read(v.virtual_token_reserves);
    u64_written_then_read(v.virtual_sol_reserves);
    u64_written_then_read(v.real_token_reserves);
    u64_written_then_read(v.real_sol_reserves);
    u64_written_then_read(v.token_total_supply);
    let virtual_token_reserves = u64_le(v.virtual_token_reserves);
    let virtual_sol_reserves = u64_le(v.virtual_sol_reserves);
    let real_token_reserves = u64_le(v.real_token_reserves);
    let real_sol_reserves = u64_le(v.real_sol_reserves);
    let token_total_supply = u64_le(v.token_total_supply);
    let flag = seq![if v.complete {
        1u8
    } else {
        0u8
    }];
    parts_of_range(
        buf,
        pos,
        virtual_token_reserves + virtual_sol_reserves + real_token_reserves + real_sol_reserves
            + token_total_supply,
        flag,
    );
    parts_of_range(
        buf,
        pos,
        virtual_token_reserves + virtual_sol_reserves + real_token_reserves + real_sol_reserves,
        token_total_supply,
    );
    parts_of_range(
        buf,
        pos,
        virtual_token_reserves + virtual_sol_reserves + real_token_reserves,
        real_sol_reserves,
    );
    parts_of_range(buf, pos, virtual_token_reserves + virtual_sol_reserves, real_token_reserves);
    parts_of_range(buf, pos, virtual_token_reserves, virtual_sol_reserves);
    u64_written_then_read_in_buffer(buf, pos, v.virtual_token_reserves);
    u64_written_then_read_in_buffer(buf, pos + 8, v.virtual_sol_reserves);
    u64_written_then_read_in_buffer(buf, pos + 16, v.real_token_reserves);
    u64_written_then_read_in_buffer(buf, pos + 24, v.real_sol_reserves);
    u64_written_then_read_in_buffer(buf, pos + 32, v.token_total_supply);
    assert(buf[pos + 40] == buf.subrange(pos + 40, pos + 41)[0]);
}

/// A bonding curve's state depends on no byte behind it, and a buffer cut
/// short within it holds none at that place.
pub proof fn curve_state_in_prefix(buf: Seq<u8>, pos: int, n: int)
    requires
        curve_state_at(buf, pos) is Ok,
        0 <= n <= buf.len(),
    ensures
        n >= pos + CURVE_STATE_LEN ==> curve_state_at(buf.take(n), pos) == curve_state_at(buf, pos),
        n < pos + CURVE_STATE_LEN ==> fails_with(
            curve_state_at(buf.take(n), pos),
            DecodeError::BufferTooShort,
        ),
{
    prefix_keeps_ranges(buf, n);
}

/// True when the byte runs of `v` have the lengths of the layout.
pub open spec fn pool_state_well_formed(v: PoolStateRecord) -> bool {
    &&& v.reserved.len() == POOL_RESERVED_LEN
    &&& v.global_config.len() == KEY_LEN
    &&& v.other_keys.len() == POOL_RESERVED_LEN
    &&& v.quote_mint.len() == KEY_LEN
}

/// The bytes written for a pool's state are as many as the layout says.
pub proof fn pool_state_bytes_length(v: PoolStateRecord)
    requires
        pool_state_well_formed(v),
    ensures
        pool_state_bytes(v).len() == POOL_STATE_LEN,
{
    u64_written_then_read(v.epoch);
    u64_written_then_read(v.supply);
    u64_written_then_read(v.total_base_sell);
    u64_written_then_read(v.virtual_base);
    u64_written_then_read(v.virtual_quote);
    u64_written_then_read(v.real_base);
    u64_written_then_read(v.real_quote);
    u64_written_then_read(v.total_quote_fund_raising);
}

/// A pool's state that was read takes up exactly the bytes that are written
/// for it.
pub proof fn pool_state_read_then_written(buf: Seq<u8>, pos: int)
    requires
        pool_state_at(buf, pos) is Ok,
    ensures
        ({
            let (v, next) = pool_state_at(buf, pos)->Ok_0;
            &&& next == pos + POOL_STATE_LEN
            &&& available(buf, pos, POOL_STATE_LEN as int)
            &&& pool_state_well_formed(v)
            &&& pool_state_bytes(v) == buf.subrange(pos, next)
        }),
{
    let v = pool_state_at(buf, pos)->Ok_0.0;
    u64_in_buffer_read_then_written(buf, pos);
    let bytes = seq![v.status, v.base_decimals, v.quote_decimals, v.migrate_type];
    assert(bytes =~= buf.subrange(pos + 8, pos + 12));
    u64_in_buffer_read_then_written(buf, pos + 12);
    u64_in_buffer_read_then_written(buf, pos + 20);
    u64_in_buffer_read_then_written(buf, pos + 28);
    u64_in_buffer_read_then_written(buf, pos + 36);
    u64_in_buffer_read_then_written(buf, pos + 44);
    u64_in_buffer_read_then_written(buf, pos + 52);
    u64_in_buffer_read_then_written(buf, pos + 60);
    ranges_join(buf, pos, pos + 8, pos + 12);
    ranges_join(buf, pos, pos + 12, pos + 20);
    ranges_join(buf, pos, pos + 20, pos + 28);
    ranges_join(buf, pos, pos + 28, pos + 36);
    ranges_join(buf, pos, pos + 36, pos + 44);
    ranges_join(buf, pos, pos + 44, pos + 52);
    ranges_join(buf, pos, pos + 52, pos + 60);
    ranges_join(buf, pos, pos + 60, pos + 68);
    ranges_join(buf, pos, pos + 68, pos + 132);
    ranges_join(buf, pos, pos + 132, pos + 164);
    ranges_join(buf, pos, pos + 164, pos + 228);
    ranges_join(buf, pos, pos + 228, pos + 260);
}

/// Where the bytes written for a pool's state stand in a buffer, it is read.
pub proof fn pool_state_written_then_read(buf: Seq<u8>, pos: int, v: PoolStateRecord)
    requires
        pool_state_well_formed(v),
        available(buf, pos, POOL_STATE_LEN as int),
        buf.subrange(pos, pos + POOL_STATE_LEN) == pool_state_bytes(v),
    ensures
        gives(pool_state_at(buf, pos), v, pos + POOL_STATE_LEN),
{
    u64_written_then_read(v.epoch);
    u64_written_then_read(v.supply);
    u64_written_then_read(v.total_base_sell);
    u64_written_then_read(v.virtual_base);
    u64_written_then_read(v.virtual_quote);
    u64_written_then_read(v.real_base);
    u64_written_then_read(v.real_quote);
    u64_written_then_read(v.total_quote_fund_raising);
    let epoch = u64_le(v.epoch);
    let bytes = seq![v.status, v.base_decimals, v.quote_decimals, v.migrate_type];
    let supply = u64_le(v.supply);
    let total_base_sell = u64_le(v.total_base_sell);
    let virtual_base = u64_le(v.virtual_base);
    let virtual_quote = u64_le(v.virtual_quote);
    let real_base = u64_le(v.real_base);
    let real_quote = u64_le(v.real_quote);
    let total_quote_fund_raising = u64_le(v.total_quote_fund_raising);
    parts_of_range(
        buf,
        pos,
        epoch + bytes + supply + total_base_sell + virtual_base + virtual_quote + real_base
            + real_quote + total_quote_fund_raising + v.reserved + v.global_config
            + v.other_keys,
        v.quote_mint,
    );
    parts_of_range(
        buf,
        pos,
        epoch + bytes + supply + total_base_sell + virtual_base + virtual_quote + real_base
            + real_quote + total_quote_fund_raising + v.reserved + v.global_config,
        v.other_keys,
    );
    parts_of_range(
        buf,
        pos,
        epoch + bytes + supply + total_base_sell + virtual_base + virtual_quote + real_base
            + real_quote + total_quote_fund_raising + v.reserved,
        v.global_config,
    );
    parts_of_range(
        buf,
        pos,
        epoch + bytes + supply + total_base_sell + virtual_base + virtual_quote + real_base
            + real_quote + total_quote_fund_raising,
        v.reserved,
    );
    parts_of_range(
        buf,
        pos,
        epoch + bytes + supply + total_base_sell + virtual_base + virtual_quote + real_base
            + real_quote,
        total_quote_fund_raising,
    );
    parts_of_range(
        buf,
        pos,
        epoch + bytes + supply + total_base_sell + virtual_base + virtual_quote + real_base,
        real_quote,
    );
    parts_of_range(
        buf,
        pos,
        epoch + bytes + supply + total_base_sell + virtual_base + virtual_quote,
        real_base,
    );
    parts_of_range(
        buf,
        pos,
        epoch + bytes + supply + total_base_sell + virtual_base,
        virtual_quote,
    );
    parts_of_range(buf, pos, epoch + bytes + supply + total_base_sell, virtual_base);
    parts_of_range(buf, pos, epoch + bytes + supply, total_base_sell);
    parts_of_range(buf, pos, epoch + bytes, supply);
    parts_of_range(buf, pos, epoch, bytes);
    u64_written_then_read_in_buffer(buf, pos, v.epoch);
    assert(buf[pos + 8] == buf.subrange(pos + 8, pos + 12)[0]);
    assert(buf[pos + 9] == buf.subrange(pos + 8, pos + 12)[1]);
    assert(buf[pos + 10] == buf.subrange(pos + 8, pos + 12)[2]);
    assert(buf[pos + 11] == buf.subrange(pos + 8, pos + 12)[3]);
    u64_written_then_read_in_buffer(buf, pos + 12, v.supply);
    u64_written_then_read_in_buffer(buf, pos + 20, v.total_base_sell);
    u64_written_then_read_in_buffer(buf, pos + 28, v.virtual_base);
    u64_written_then_read_in_buffer(buf, pos + 36, v.virtual_quote);
    u64_written_then_read_in_buffer(buf, pos + 44, v.real_base);
    u64_written_then_read_in_buffer(buf, pos + 52, v.real_quote);
    u64_written_then_read_in_buffer(buf, pos + 60, v.total_quote_fund_raising);
}

/// A pool's state depends on no byte behind it, and a buffer cut short within
/// it holds none at that place.
pub proof fn pool_state_in_prefix(buf: Seq<u8>, pos: int, n: int)
    requires
        pool_state_at(buf, pos) is Ok,
        0 <= n <= buf.len(),
    ensures
        n >= pos + POOL_STATE_LEN ==> pool_state_at(buf.take(n), pos) == pool_state_at(buf, pos),
        n < pos + POOL_STATE_LEN ==> fails_with(
            pool_state_at(buf.take(n), pos),
            DecodeError::BufferTooShort,
        ),
{
    prefix_keeps_ranges(buf, n);
}

/// The bytes written for a global configuration are as many as the layout
/// says.
pub proof fn global_config_bytes_length(v: GlobalConfigRecord)
    ensures
        global_config_bytes(v).len() == GLOBAL_CONFIG_LEN,
{
    u64_written_then_read(v.epoch);
}

/// A global configuration that was read takes up exactly the bytes that are
/// written for it.
pub proof fn global_config_read_then_written(buf: Seq<u8>, pos: int)
    requires
        global_config_at(buf, pos) is Ok,
    ensures
        ({
            let (v, next) = global_config_at(buf, pos)->Ok_0;
            &&& next == pos + GLOBAL_CONFIG_LEN
            &&& available(buf, pos, GLOBAL_CONFIG_LEN as int)
            &&& global_config_bytes(v) == buf.subrange(pos, next)
        }),
{
    let v = global_config_at(buf, pos)->Ok_0.0;
    u64_in_buffer_read_then_written(buf, pos);
    let curve_type = seq![v.curve_type];
    assert(curve_type =~= buf.subrange(pos + 8, pos + 9));
    ranges_join(buf, pos, pos + 8, pos + 9);
}

/// Where the bytes written for a global configuration stand in a buffer, it
/// is read.
pub proof fn global_config_written_then_read(buf: Seq<u8>, pos: int, v: GlobalConfigRecord)
    requires
        available(buf, pos, GLOBAL_CONFIG_LEN as int),
        buf.subrange(pos, pos + GLOBAL_CONFIG_LEN) == global_config_bytes(v),
    ensures
        gives(global_config_at(buf, pos), v, pos + GLOBAL_CONFIG_LEN),
{
    u64_written_then_read(v.epoch);
    let epoch = u64_le(v.epoch);
    let curve_type = seq![v.curve_type];
    parts_of_range(buf, pos, epoch, curve_type);
    u64_written_then_read_in_buffer(buf, pos, v.epoch);
    assert(buf[pos + 8] == buf.subrange(pos + 8, pos + 9)[0]);
}

/// A global configuration depends on no byte behind it, and a buffer cut
/// short within it holds none at that place.
pub proof fn global_config_in_prefix(buf: Seq<u8>, pos: int, n: int)
    requires
        global_config_at(buf, pos) is Ok,
        0 <= n <= buf.len(),
    ensures
        n >= pos + GLOBAL_CONFIG_LEN ==> global_config_at(buf.take(n), pos) == global_config_at(
            buf,
            pos,
        ),
        n < pos + GLOBAL_CONFIG_LEN ==> fails_with(
            global_config_at(buf.take(n), pos),
            DecodeError::BufferTooShort,
        ),
{
    prefix_keeps_ranges(buf, n);
}

/// A name and a symbol that were read take up exactly the bytes that are
/// written for them.
pub proof fn name_and_symbol_read_then_written(buf: Seq<u8>, pos: int)
    requires
        name_and_symbol_at(buf, pos) is Ok,
    ensures
        ({
            let (v, next) = name_and_symbol_at(buf, pos)->Ok_0;
            &&& 0 <= pos <= next <= buf.len()
            &&& text_fits(v.0)
            &&& text_fits(v.1)
            &&& name_and_symbol_bytes(v) == buf.subrange(pos, next)
        }),
{
    let (v, next) = name_and_symbol_at(buf, pos)->Ok_0;
    let at_symbol = text_at(buf, pos)->Ok_0.1;
    text_read_then_written(buf, pos);
    text_read_then_written(buf, at_symbol);
    ranges_join(buf, pos, at_symbol, next);
}

/// Where the bytes written for a name and a symbol stand in a buffer, the
/// two are read.
pub proof fn name_and_symbol_written_then_read(buf: Seq<u8>, pos: int, v: (Seq<char>, Seq<char>))
    requires
        text_fits(v.0),
        text_fits(v.1),
        available(buf, pos, name_and_symbol_bytes(v).len() as int),
        buf.subrange(pos, pos + name_and_symbol_bytes(v).len()) == name_and_symbol_bytes(v),
    ensures
        gives(name_and_symbol_at(buf, pos), v, pos + name_and_symbol_bytes(v).len()),
{
    parts_of_range(buf, pos, text_bytes(v.0), text_bytes(v.1));
    text_written_then_read(buf, pos, v.0);
    text_written_then_read(buf, pos + text_bytes(v.0).len(), v.1);
}

/// A name and a symbol depend on no byte behind them, and a buffer cut short
/// within them holds no such two at that place.
pub proof fn name_and_symbol_in_prefix(buf: Seq<u8>, pos: int, n: int)
    requires
        name_and_symbol_at(buf, pos) is Ok,
        0 <= n <= buf.len(),
    ensures
        n >= name_and_symbol_at(buf, pos)->Ok_0.1 ==> name_and_symbol_at(buf.take(n), pos)
            == name_and_symbol_at(buf, pos),
        n < name_and_symbol_at(buf, pos)->Ok_0.1 ==> fails_with(
            name_and_symbol_at(buf.take(n), pos),
            DecodeError::BufferTooShort,
        ),
{
    let at_symbol = text_at(buf, pos)->Ok_0.1;
    text_read_then_written(buf, pos);
    text_read_then_written(buf, at_symbol);
    text_in_prefix(buf, pos, n);
    text_in_prefix(buf, at_symbol, n);
}

/// A salt and three texts that were read take up exactly the bytes that are
/// written for them.
pub proof fn boop_args_read_then_written(buf: Seq<u8>, pos: int)
    requires
        boop_args_at(buf, pos) is Ok,
    ensures
        ({
            let (v, next) = boop_args_at(buf, pos)->Ok_0;
            &&& 0 <= pos <= next <= buf.len()
            &&& pool_parameters_fit(v.texts())
            &&& boop_args_bytes(v) == buf.subrange(pos, next)
        }),
{
    let (v, next) = boop_args_at(buf, pos)->Ok_0;
    u64_read_then_written(buf.subrange(pos, pos + 8));
    pool_parameters_read_then_written(buf, pos + 8);
    assert(pool_parameters_at(buf, pos + 8)->Ok_0.0 == v.texts());
    ranges_join(buf, pos, pos + 8, next);
}

/// Where the bytes written for a salt and three texts stand in a buffer,
/// they are read.
pub proof fn boop_args_written_then_read(buf: Seq<u8>, pos: int, v: CreateTokenBoopArgsView)
    requires
        pool_parameters_fit(v.texts()),
        available(buf, pos, boop_args_bytes(v).len() as int),
        buf.subrange(pos, pos + boop_args_bytes(v).len()) == boop_args_bytes(v),
    ensures
        gives(boop_args_at(buf, pos), v, pos + boop_args_bytes(v).len()),
{
    u64_written_then_read(v.salt);
    parts_of_range(buf, pos, u64_le(v.salt), pool_parameters_bytes(v.texts()));
    u64_written_then_read_in_buffer(buf, pos, v.salt);
    pool_parameters_written_then_read(buf, pos + 8, v.texts());
}

/// A salt and three texts depend on no byte behind them, and a buffer cut
/// short within them holds none at that place.
pub proof fn boop_args_in_prefix(buf: Seq<u8>, pos: int, n: int)
    requires
        boop_args_at(buf, pos) is Ok,
        0 <= n <= buf.len(),
    ensures
        n >= boop_args_at(buf, pos)->Ok_0.1 ==> boop_args_at(buf.take(n), pos) == boop_args_at(
            buf,
            pos,
        ),
        n < boop_args_at(buf, pos)->Ok_0.1 ==> fails_with(
            boop_args_at(buf.take(n), pos),
            DecodeError::BufferTooShort,
        ),
{
    prefix_keeps_ranges(buf, n);
    pool_parameters_read_then_written(buf, pos + 8);
    pool_parameters_in_prefix(buf, pos + 8, n);
}

/// A base mint that was read takes up exactly the bytes that are written
/// for it.
pub proof fn mint_params_read_then_written(buf: Seq<u8>, pos: int)
    requires
        mint_params_at(buf, pos) is Ok,
    ensures
        ({
            let (v, next) = mint_params_at(buf, pos)->Ok_0;
            &&& 0 <= pos <= next <= buf.len()
            &&& pool_parameters_fit(v.texts())
            &&& mint_params_bytes(v) == buf.subrange(pos, next)
        }),
{
    let (v, next) = mint_params_at(buf, pos)->Ok_0;
    pool_parameters_read_then_written(buf, pos + 1);
    assert(pool_parameters_at(buf, pos + 1)->Ok_0.0 == v.texts());
    assert(seq![v.decimals] =~= buf.subrange(pos, pos + 1));
    ranges_join(buf, pos, pos + 1, next);
}

/// Where the bytes written for a base mint stand in a buffer, it is read.
pub proof fn mint_params_written_then_read(buf: Seq<u8>, pos: int, v: MintParamsView)
    requires
        pool_parameters_fit(v.texts()),
        available(buf, pos, mint_params_bytes(v).len() as int),
        buf.subrange(pos, pos + mint_params_bytes(v).len()) == mint_params_bytes(v),
    ensures
        gives(mint_params_at(buf, pos), v, pos + mint_params_bytes(v).len()),
{
    parts_of_range(buf, pos, seq![v.decimals], pool_parameters_bytes(v.texts()));
    assert(buf[pos] == buf.subrange(pos, pos + 1)[0]);
    pool_parameters_written_then_read(buf, pos + 1, v.texts());
}

/// A base mint depends on no byte behind it, and a buffer cut short within
/// it holds none at that place.
pub proof fn mint_params_in_prefix(buf: Seq<u8>, pos: int, n: int)
    requires
        mint_params_at(buf, pos) is Ok,
        0 <= n <= buf.len(),
    ensures
        n >= mint_params_at(buf, pos)->Ok_0.1 ==> mint_params_at(buf.take(n), pos)
            == mint_params_at(buf, pos),
        n < mint_params_at(buf, pos)->Ok_0.1 ==> fails_with(
            mint_params_at(buf.take(n), pos),
            DecodeError::BufferTooShort,
        ),
{
    prefix_keeps_ranges(buf, n);
    pool_parameters_read_then_written(buf, pos + 1);
    pool_parameters_in_prefix(buf, pos + 1, n);
}

/// True when the texts of `v` fit their length prefixes and its keys have
/// the length of a key.
pub open spec fn create_well_formed(v: CreateRecord) -> bool {
    &&& pool_parameters_fit(v.texts())
    &&& v.mint.len() == KEY_LEN
    &&& v.bonding_curve.len() == KEY_LEN
    &&& v.developer.len() == KEY_LEN
}

/// A create instruction that was read takes up exactly the bytes that are
/// written for it.
pub proof fn create_read_then_written(buf: Seq<u8>, pos: int)
    requires
        create_at(buf, pos) is Ok,
    ensures
        ({
            let (v, next) = create_at(buf, pos)->Ok_0;
            &&& 0 <= pos <= next <= buf.len()
            &&& create_well_formed(v)
            &&& create_bytes(v) == buf.subrange(pos, next)
        }),
{
    let (v, next) = create_at(buf, pos)->Ok_0;
    let at_keys = pool_parameters_at(buf, pos)->Ok_0.1;
    pool_parameters_read_then_written(buf, pos);
    assert(pool_parameters_at(buf, pos)->Ok_0.0 == v.texts());
    ranges_join(buf, pos, at_keys, at_keys + 32);
    ranges_join(buf, pos, at_keys + 32, at_keys + 64);
    ranges_join(buf, pos, at_keys + 64, at_keys + 96);
}

/// Where the bytes written for a create instruction stand in a buffer, it is
/// read.
pub proof fn create_written_then_read(buf: Seq<u8>, pos: int, v: CreateRecord)
    requires
        create_well_formed(v),
        available(buf, pos, create_bytes(v).len() as int),
        buf.subrange(pos, pos + create_bytes(v).len()) == create_bytes(v),
    ensures
        gives(create_at(buf, pos), v, pos + create_bytes(v).len()),
{
    let texts = pool_parameters_bytes(v.texts());
    parts_of_range(buf, pos, texts + v.mint + v.bonding_curve, v.developer);
    parts_of_range(buf, pos, texts + v.mint, v.bonding_curve);
    parts_of_range(buf, pos, texts, v.mint);
    pool_parameters_written_then_read(buf, pos, v.texts());
}

/// A create instruction depends on no byte behind it, and a buffer cut short
/// within it holds none at that place.
pub proof fn create_in_prefix(buf: Seq<u8>, pos: int, n: int)
    requires
        create_at(buf, pos) is Ok,
        0 <= n <= buf.len(),
    ensures
        n >= create_at(buf, pos)->Ok_0.1 ==> create_at(buf.take(n), pos) == create_at(buf, pos),
        n < create_at(buf, pos)->Ok_0.1 ==> fails_with(
            create_at(buf.take(n), pos),
            DecodeError::BufferTooShort,
        ),
{
    prefix_keeps_ranges(buf, n);
    pool_parameters_read_then_written(buf, pos);
    pool_parameters_in_prefix(buf, pos, n);
}

/// The tag of a curve decides its shape. A curve is read exactly where the
/// tag is 0, 1 or 2 and the bytes of the curve that it names are there; the
/// curve read has that tag and ends where its bytes end. Any other tag is
/// refused, whatever follows it.
pub proof fn curve_tag_decides_shape(buf: Seq<u8>, pos: int)
    requires
        available(buf, pos, 1),
    ensures
        curve_params_at(buf, pos) is Ok <==> buf[pos] <= TAG_LINEAR && available(
            buf,
            pos + 1,
            curve_len(buf[pos]),
        ),
        curve_params_at(buf, pos) is Ok ==> ({
            let (curve, next) = curve_params_at(buf, pos)->Ok_0;
            curve_tag(curve) == buf[pos] && next == pos + 1 + curve_len(buf[pos])
        }),
        fails_with(curve_params_at(buf, pos), DecodeError::UnknownVariant) <==> buf[pos]
            > TAG_LINEAR,
        fails_with(curve_params_at(buf, pos), DecodeError::BufferTooShort) <==> buf[pos]
            <= TAG_LINEAR && !available(buf, pos + 1, curve_len(buf[pos])),
{
}

/// A curve that was read takes up exactly the bytes that are written for it.
pub proof fn curve_params_read_then_written(buf: Seq<u8>, pos: int)
    requires
        curve_params_at(buf, pos) is Ok,
    ensures
        ({
            let (v, next) = curve_params_at(buf, pos)->Ok_0;
            &&& 0 <= pos <= next <= buf.len()
            &&& curve_params_bytes(v) == buf.subrange(pos, next)
        }),
{
    let (v, next) = curve_params_at(buf, pos)->Ok_0;
    assert(seq![buf[pos]] =~= buf.subrange(pos, pos + 1));
    match v {
        CurveParams::Constant { data } => {
            constant_curve_read_then_written(buf, pos + 1);
        },
        CurveParams::Fixed { data } => {
            fixed_curve_read_then_written(buf, pos + 1);
        },
        CurveParams::Linear { data } => {
            linear_curve_read_then_written(buf, pos + 1);
        },
    }
    ranges_join(buf, pos, pos + 1, next);
}

/// Where the bytes written for a curve stand in a buffer, it is read.
pub proof fn curve_params_written_then_read(buf: Seq<u8>, pos: int, v: CurveParams)
    requires
        available(buf, pos, curve_params_bytes(v).len() as int),
        buf.subrange(pos, pos + curve_params_bytes(v).len()) == curve_params_bytes(v),
    ensures
        gives(curve_params_at(buf, pos), v, pos + curve_params_bytes(v).len()),
{
    match v {
        CurveParams::Constant { data } => {
            u64_written_then_read(data.supply);
            u64_written_then_read(data.total_base_sell);
            u64_written_then_read(data.total_quote_fund_raising);
            parts_of_range(buf, pos, seq![TAG_CONSTANT], constant_curve_bytes(data));
            assert(buf[pos] == buf.subrange(pos, pos + 1)[0]);
            constant_curve_written_then_read(buf, pos + 1, data);
        },
        CurveParams::Fixed { data } => {
            u64_written_then_read(data.supply);
            u64_written_then_read(data.total_quote_fund_raising);
            parts_of_range(buf, pos, seq![TAG_FIXED], fixed_curve_bytes(data));
            assert(buf[pos] == buf.subrange(pos, pos + 1)[0]);
            fixed_curve_written_then_read(buf, pos + 1, data);
        },
        CurveParams::Linear { data } => {
            u64_written_then_read(data.supply);
            u64_written_then_read(data.total_quote_fund_raising);
            parts_of_range(buf, pos, seq![TAG_LINEAR], linear_curve_bytes(data));
            assert(buf[pos] == buf.subrange(pos, pos + 1)[0]);
            linear_curve_written_then_read(buf, pos + 1, data);
        },
    }
}

/// A curve depends on no byte behind it, and a buffer cut short within it
/// holds none at that place.
pub proof fn curve_params_in_prefix(buf: Seq<u8>, pos: int, n: int)
    requires
        curve_params_at(buf, pos) is Ok,
        0 <= n <= buf.len(),
    ensures
        n >= curve_params_at(buf, pos)->Ok_0.1 ==> curve_params_at(buf.take(n), pos)
            == curve_params_at(buf, pos),
        n < curve_params_at(buf, pos)->Ok_0.1 ==> fails_with(
            curve_params_at(buf.take(n), pos),
            DecodeError::BufferTooShort,
        ),
{
    prefix_keeps_ranges(buf, n);
}

/// The arguments of a pool-initialize instruction that were read take up
/// exactly the bytes that are written for them.
pub proof fn initialize_data_read_then_written(buf: Seq<u8>, pos: int)
    requires
        initialize_data_at(buf, pos) is Ok,
    ensures
        ({
            let (v, next) = initialize_data_at(buf, pos)->Ok_0;
            &&& 0 <= pos <= next <= buf.len()
            &&& pool_parameters_fit(v.base_mint_param.texts())
            &&& initialize_data_bytes(v) == buf.subrange(pos, next)
        }),
{
    let (v, next) = initialize_data_at(buf, pos)->Ok_0;
    let at_curve = mint_params_at(buf, pos)->Ok_0.1;
    let at_vesting = curve_params_at(buf, at_curve)->Ok_0.1;
    mint_params_read_then_written(buf, pos);
    curve_params_read_then_written(buf, at_curve);
    vesting_param_read_then_written(buf, at_vesting);
    ranges_join(buf, pos, at_curve, at_vesting);
    ranges_join(buf, pos, at_vesting, next);
}

/// Where the bytes written for the arguments of a pool-initialize
/// instruction stand in a buffer, they are read.
pub proof fn initialize_data_written_then_read(buf: Seq<u8>, pos: int, v: InitializeDataView)
    requires
        pool_parameters_fit(v.base_mint_param.texts()),
        available(buf, pos, initialize_data_bytes(v).len() as int),
        buf.subrange(pos, pos + initialize_data_bytes(v).len()) == initialize_data_bytes(v),
    ensures
        gives(initialize_data_at(buf, pos), v, pos + initialize_data_bytes(v).len()),
{
    let mint = mint_params_bytes(v.base_mint_param);
    let curve = curve_params_bytes(v.curve_param);
    let vesting = vesting_param_bytes(v.vesting_param);
    u64_written_then_read(v.vesting_param.total_locked_amount);
    u64_written_then_read(v.vesting_param.cliff_period);
    u64_written_then_read(v.vesting_param.unlock_period);
    parts_of_range(buf, pos, mint + curve, vesting);
    parts_of_range(buf, pos, mint, curve);
    mint_params_written_then_read(buf, pos, v.base_mint_param);
    curve_params_written_then_read(buf, pos + mint.len(), v.curve_param);
    vesting_param_written_then_read(buf, pos + mint.len() + curve.len(), v.vesting_param);
}

/// The arguments of a pool-initialize instruction depend on no byte behind
/// them, and a buffer cut short within them holds none at that place.
pub proof fn initialize_data_in_prefix(buf: Seq<u8>, pos: int, n: int)
    requires
        initialize_data_at(buf, pos) is Ok,
        0 <= n <= buf.len(),
    ensures
        n >= initialize_data_at(buf, pos)->Ok_0.1 ==> initialize_data_at(buf.take(n), pos)
            == initialize_data_at(buf, pos),
        n < initialize_data_at(buf, pos)->Ok_0.1 ==> fails_with(
            initialize_data_at(buf.take(n), pos),
            DecodeError::BufferTooShort,
        ),
{
    let at_curve = mint_params_at(buf, pos)->Ok_0.1;
    let at_vesting = curve_params_at(buf, at_curve)->Ok_0.1;
    mint_params_read_then_written(buf, pos);
    curve_params_read_then_written(buf, at_curve);
    mint_params_in_prefix(buf, pos, n);
    curve_params_in_prefix(buf, at_curve, n);
    vesting_param_in_prefix(buf, at_vesting, n);
}

} // verus!
