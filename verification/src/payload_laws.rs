//! What holds of the decoders.
//!
//! A payload that decodes holds, behind its discriminator, exactly the bytes
//! that are written for its record; a payload that holds those bytes decodes
//! to the record; and a payload cut short within its record does not decode.

use vstd::prelude::*;
use crate::error::{fails_with, holds, DecodeError};
use crate::laws::{
    boop_args_in_prefix, boop_args_read_then_written, boop_args_written_then_read, create_in_prefix,
    create_read_then_written, create_well_formed, create_written_then_read,
    curve_state_bytes_length, curve_state_in_prefix, curve_state_read_then_written,
    curve_state_written_then_read, global_config_bytes_length, global_config_in_prefix,
    global_config_read_then_written, global_config_written_then_read, initialize_data_in_prefix,
    initialize_data_read_then_written, initialize_data_written_then_read, name_and_symbol_in_prefix,
    name_and_symbol_read_then_written, name_and_symbol_written_then_read, pool_parameters_fit,
    pool_parameters_read_then_written, pool_parameters_written_then_read, pool_state_bytes_length,
    pool_state_in_prefix, pool_state_read_then_written, pool_state_well_formed,
    pool_state_written_then_read, text_read_then_written,
};
use crate::layout::{
    boop_args_at, boop_args_bytes, boop_create_token, create_at, create_bytes, curve_state_at,
    curve_state_bytes, global_config_at, global_config_bytes, initialize_data_at,
    initialize_data_bytes, launchpad_global_config, launchpad_pool_state, meteora_initialize,
    meteora_parameters, moonshot_token_mint, name_and_symbol_at, name_and_symbol_bytes,
    pool_parameters_at, pool_parameters_bytes, pool_state_at, pool_state_bytes, pump_fun_create,
    pump_fun_curve_state, raydium_initialize, CreateRecord, GlobalConfigRecord, PoolStateRecord,
    ACCOUNT_BASE_MINT, ACCOUNT_CREATOR, ACCOUNT_POOL,
};
use crate::records::{
    CreateTokenBoopArgsView, CurveState, InitializeDataView, InitializePoolParametersView,
};
use crate::wire::{available, body_of, text_at, text_fits, DISCRIMINATOR_LEN};

verus! {

/// A range of what follows the discriminator is a range of the payload,
/// eight bytes further on.
pub proof fn body_ranges(data: Seq<u8>, from: int, to: int)
    requires
        data.len() >= DISCRIMINATOR_LEN,
        0 <= from <= to <= data.len() - DISCRIMINATOR_LEN,
    ensures
        body_of(data)->Ok_0.subrange(from, to) == data.subrange(
            DISCRIMINATOR_LEN + from,
            DISCRIMINATOR_LEN + to,
        ),
{
    assert(body_of(data)->Ok_0.subrange(from, to) =~= data.subrange(
        DISCRIMINATOR_LEN + from,
        DISCRIMINATOR_LEN + to,
    ));
}

/// What follows the discriminator of a prefix of a payload is a prefix of
/// what follows the discriminator of the payload.
pub proof fn body_of_prefix(data: Seq<u8>, n: int)
    requires
        DISCRIMINATOR_LEN <= n <= data.len(),
    ensures
        body_of(data.take(n)) == Ok::<Seq<u8>, DecodeError>(
            body_of(data)->Ok_0.take(n - DISCRIMINATOR_LEN),
        ),
{
    assert(data.take(n).subrange(DISCRIMINATOR_LEN as int, n) =~= body_of(data)->Ok_0.take(
        n - DISCRIMINATOR_LEN,
    ));
}

/// The payload of a token-mint instruction that decodes holds, behind its
/// discriminator, exactly the bytes that are written for its name and symbol.
pub proof fn moonshot_token_mint_read_then_written(data: Seq<u8>)
    requires
        moonshot_token_mint(data) is Ok,
    ensures
        ({
            let v = moonshot_token_mint(data)->Ok_0;
            &&& text_fits(v.0) && text_fits(v.1)
            &&& available(data, DISCRIMINATOR_LEN as int, name_and_symbol_bytes(v).len() as int)
            &&& data.subrange(
                DISCRIMINATOR_LEN as int,
                DISCRIMINATOR_LEN + name_and_symbol_bytes(v).len(),
            ) == name_and_symbol_bytes(v)
        }),
{
    let body = body_of(data)->Ok_0;
    name_and_symbol_read_then_written(body, 0);
    let next = name_and_symbol_at(body, 0)->Ok_0.1;
    body_ranges(data, 0, next);
}

/// A payload that holds, behind its discriminator, the bytes written for
/// the record of a token-mint instruction decodes to that record, whatever follows
/// them.
pub proof fn moonshot_token_mint_written_then_read(data: Seq<u8>, v: (Seq<char>, Seq<char>))
    requires
        text_fits(v.0),
        text_fits(v.1),
        available(data, DISCRIMINATOR_LEN as int, name_and_symbol_bytes(v).len() as int),
        data.subrange(DISCRIMINATOR_LEN as int, DISCRIMINATOR_LEN + name_and_symbol_bytes(v).len())
            == name_and_symbol_bytes(v),
    ensures
        holds(moonshot_token_mint(data), v),
{
    let body = body_of(data)->Ok_0;
    body_ranges(data, 0, name_and_symbol_bytes(v).len() as int);
    name_and_symbol_written_then_read(body, 0, v);
}

/// A token-mint instruction decodes to the same record from any prefix of its
/// payload that holds the whole record, and from a shorter prefix not at
/// all: the decoder reports that the buffer is too short.
pub proof fn moonshot_token_mint_in_prefix(data: Seq<u8>, n: int)
    requires
        moonshot_token_mint(data) is Ok,
        0 <= n <= data.len(),
    ensures
        ({
            let v = moonshot_token_mint(data)->Ok_0;
            let end = DISCRIMINATOR_LEN + name_and_symbol_bytes(v).len();
            &&& n >= end ==> moonshot_token_mint(data.take(n)) == moonshot_token_mint(data)
            &&& n < end ==> fails_with(
                moonshot_token_mint(data.take(n)),
                DecodeError::BufferTooShort,
            )
        }),
{
    let body = body_of(data)->Ok_0;
    name_and_symbol_read_then_written(body, 0);
    if n >= DISCRIMINATOR_LEN {
        body_of_prefix(data, n);
        name_and_symbol_in_prefix(body, 0, n - DISCRIMINATOR_LEN);
    }
}

/// The payload of a create instruction that decodes holds, behind its
/// discriminator, exactly the bytes that are written for its record.
pub proof fn pump_fun_create_read_then_written(data: Seq<u8>)
    requires
        pump_fun_create(data) is Ok,
    ensures
        ({
            let v = pump_fun_create(data)->Ok_0;
            &&& create_well_formed(v)
            &&& available(data, DISCRIMINATOR_LEN as int, create_bytes(v).len() as int)
            &&& data.subrange(
                DISCRIMINATOR_LEN as int,
                DISCRIMINATOR_LEN + create_bytes(v).len(),
            ) == create_bytes(v)
        }),
{
    let body = body_of(data)->Ok_0;
    create_read_then_written(body, 0);
    let next = create_at(body, 0)->Ok_0.1;
    body_ranges(data, 0, next);
}

/// A payload that holds, behind its discriminator, the bytes written for
/// the record of a create instruction decodes to that record, whatever follows
/// them.
pub proof fn pump_fun_create_written_then_read(data: Seq<u8>, v: CreateRecord)
    requires
        create_well_formed(v),
        available(data, DISCRIMINATOR_LEN as int, create_bytes(v).len() as int),
        data.subrange(DISCRIMINATOR_LEN as int, DISCRIMINATOR_LEN + create_bytes(v).len())
            == create_bytes(v),
    ensures
        holds(pump_fun_create(data), v),
{
    let body = body_of(data)->Ok_0;
    body_ranges(data, 0, create_bytes(v).len() as int);
    create_written_then_read(body, 0, v);
}

/// A create instruction decodes to the same record from any prefix of its
/// payload that holds the whole record, and from a shorter prefix not at
/// all: the decoder reports that the buffer is too short.
pub proof fn pump_fun_create_in_prefix(data: Seq<u8>, n: int)
    requires
        pump_fun_create(data) is Ok,
        0 <= n <= data.len(),
    ensures
        ({
            let v = pump_fun_create(data)->Ok_0;
            let end = DISCRIMINATOR_LEN + create_bytes(v).len();
            &&& n >= end ==> pump_fun_create(data.take(n)) == pump_fun_create(data)
            &&& n < end ==> fails_with(
                pump_fun_create(data.take(n)),
                DecodeError::BufferTooShort,
            )
        }),
{
    let body = body_of(data)->Ok_0;
    create_read_then_written(body, 0);
    if n >= DISCRIMINATOR_LEN {
        body_of_prefix(data, n);
        create_in_prefix(body, 0, n - DISCRIMINATOR_LEN);
    }
}

/// The payload of a bonding curve's account that decodes holds, behind its
/// discriminator, exactly the bytes that are written for its state, where the flag byte is 0 or 1.
pub proof fn pump_fun_curve_state_read_then_written(data: Seq<u8>)
    requires
        pump_fun_curve_state(data) is Ok,
        data[DISCRIMINATOR_LEN + 40] <= 1,
    ensures
        ({
            let v = pump_fun_curve_state(data)->Ok_0;
            &&& available(data, DISCRIMINATOR_LEN as int, curve_state_bytes(v).len() as int)
            &&& data.subrange(
                DISCRIMINATOR_LEN as int,
                DISCRIMINATOR_LEN + curve_state_bytes(v).len(),
            ) == curve_state_bytes(v)
        }),
{
    let body = body_of(data)->Ok_0;
    curve_state_read_then_written(body, 0);
    let next = curve_state_at(body, 0)->Ok_0.1;
    body_ranges(data, 0, next);
}

/// A payload that holds, behind its discriminator, the bytes written for
/// the record of a bonding curve's account decodes to that record, whatever follows
/// them.
pub proof fn pump_fun_curve_state_written_then_read(data: Seq<u8>, v: CurveState)
    requires
        available(data, DISCRIMINATOR_LEN as int, curve_state_bytes(v).len() as int),
        data.subrange(DISCRIMINATOR_LEN as int, DISCRIMINATOR_LEN + curve_state_bytes(v).len())
            == curve_state_bytes(v),
    ensures
        holds(pump_fun_curve_state(data), v),
{
    let body = body_of(data)->Ok_0;
    curve_state_bytes_length(v);
    body_ranges(data, 0, curve_state_bytes(v).len() as int);
    curve_state_written_then_read(body, 0, v);
}

/// A bonding curve's account decodes to the same record from any prefix of its
/// payload that holds the whole record, and from a shorter prefix not at
/// all: the decoder reports that the buffer is too short.
pub proof fn pump_fun_curve_state_in_prefix(data: Seq<u8>, n: int)
    requires
        pump_fun_curve_state(data) is Ok,
        0 <= n <= data.len(),
    ensures
        ({
            let v = pump_fun_curve_state(data)->Ok_0;
            let end = DISCRIMINATOR_LEN + curve_state_bytes(v).len();
            &&& n >= end ==> pump_fun_curve_state(data.take(n)) == pump_fun_curve_state(data)
            &&& n < end ==> fails_with(
                pump_fun_curve_state(data.take(n)),
                DecodeError::BufferTooShort,
            )
        }),
{
    let body = body_of(data)->Ok_0;
    curve_state_bytes_length(pump_fun_curve_state(data)->Ok_0);
    if n >= DISCRIMINATOR_LEN {
        body_of_prefix(data, n);
        curve_state_in_prefix(body, 0, n - DISCRIMINATOR_LEN);
    }
}

/// The payload of a pool's account that decodes holds, behind its
/// discriminator, exactly the bytes that are written for its state.
pub proof fn launchpad_pool_state_read_then_written(data: Seq<u8>)
    requires
        launchpad_pool_state(data) is Ok,
    ensures
        ({
            let v = launchpad_pool_state(data)->Ok_0;
            &&& pool_state_well_formed(v)
            &&& available(data, DISCRIMINATOR_LEN as int, pool_state_bytes(v).len() as int)
            &&& data.subrange(
                DISCRIMINATOR_LEN as int,
                DISCRIMINATOR_LEN + pool_state_bytes(v).len(),
            ) == pool_state_bytes(v)
        }),
{
    let body = body_of(data)->Ok_0;
    pool_state_read_then_written(body, 0);
    let next = pool_state_at(body, 0)->Ok_0.1;
    body_ranges(data, 0, next);
}

/// A payload that holds, behind its discriminator, the bytes written for
/// the record of a pool's account decodes to that record, whatever follows
/// them.
pub proof fn launchpad_pool_state_written_then_read(data: Seq<u8>, v: PoolStateRecord)
    requires
        pool_state_well_formed(v),
        available(data, DISCRIMINATOR_LEN as int, pool_state_bytes(v).len() as int),
        data.subrange(DISCRIMINATOR_LEN as int, DISCRIMINATOR_LEN + pool_state_bytes(v).len())
            == pool_state_bytes(v),
    ensures
        holds(launchpad_pool_state(data), v),
{
    let body = body_of(data)->Ok_0;
    pool_state_bytes_length(v);
    body_ranges(data, 0, pool_state_bytes(v).len() as int);
    pool_state_written_then_read(body, 0, v);
}

/// A pool's account decodes to the same record from any prefix of its
/// payload that holds the whole record, and from a shorter prefix not at
/// all: the decoder reports that the buffer is too short.
pub proof fn launchpad_pool_state_in_prefix(data: Seq<u8>, n: int)
    requires
        launchpad_pool_state(data) is Ok,
        0 <= n <= data.len(),
    ensures
        ({
            let v = launchpad_pool_state(data)->Ok_0;
            let end = DISCRIMINATOR_LEN + pool_state_bytes(v).len();
            &&& n >= end ==> launchpad_pool_state(data.take(n)) == launchpad_pool_state(data)
            &&& n < end ==> fails_with(
                launchpad_pool_state(data.take(n)),
                DecodeError::BufferTooShort,
            )
        }),
{
    let body = body_of(data)->Ok_0;
    pool_state_read_then_written(body, 0);
    if n >= DISCRIMINATOR_LEN {
        body_of_prefix(data, n);
        pool_state_in_prefix(body, 0, n - DISCRIMINATOR_LEN);
    }
}

/// The payload of a global configuration's account that decodes holds, behind its
/// discriminator, exactly the bytes that are written for its record.
pub proof fn launchpad_global_config_read_then_written(data: Seq<u8>)
    requires
        launchpad_global_config(data) is Ok,
    ensures
        ({
            let v = launchpad_global_config(data)->Ok_0;
            &&& available(data, DISCRIMINATOR_LEN as int, global_config_bytes(v).len() as int)
            &&& data.subrange(
                DISCRIMINATOR_LEN as int,
                DISCRIMINATOR_LEN + global_config_bytes(v).len(),
            ) == global_config_bytes(v)
        }),
{
    let body = body_of(data)->Ok_0;
    global_config_read_then_written(body, 0);
    let next = global_config_at(body, 0)->Ok_0.1;
    body_ranges(data, 0, next);
}

/// A payload that holds, behind its discriminator, the bytes written for
/// the record of a global configuration's account decodes to that record, whatever follows
/// them.
pub proof fn launchpad_global_config_written_then_read(data: Seq<u8>, v: GlobalConfigRecord)
    requires
        available(data, DISCRIMINATOR_LEN as int, global_config_bytes(v).len() as int),
        data.subrange(DISCRIMINATOR_LEN as int, DISCRIMINATOR_LEN + global_config_bytes(v).len())
            == global_config_bytes(v),
    ensures
        holds(launchpad_global_config(data), v),
{
    let body = body_of(data)->Ok_0;
    global_config_bytes_length(v);
    body_ranges(data, 0, global_config_bytes(v).len() as int);
    global_config_written_then_read(body, 0, v);
}

/// A global configuration's account decodes to the same record from any prefix of its
/// payload that holds the whole record, and from a shorter prefix not at
/// all: the decoder reports that the buffer is too short.
pub proof fn launchpad_global_config_in_prefix(data: Seq<u8>, n: int)
    requires
        launchpad_global_config(data) is Ok,
        0 <= n <= data.len(),
    ensures
        ({
            let v = launchpad_global_config(data)->Ok_0;
            let end = DISCRIMINATOR_LEN + global_config_bytes(v).len();
            &&& n >= end ==> launchpad_global_config(data.take(n)) == launchpad_global_config(data)
            &&& n < end ==> fails_with(
                launchpad_global_config(data.take(n)),
                DecodeError::BufferTooShort,
            )
        }),
{
    let body = body_of(data)->Ok_0;
    global_config_read_then_written(body, 0);
    if n >= DISCRIMINATOR_LEN {
        body_of_prefix(data, n);
        global_config_in_prefix(body, 0, n - DISCRIMINATOR_LEN);
    }
}

/// The payload of a create-token instruction with a salt that decodes holds, behind its
/// discriminator, exactly the bytes that are written for its arguments, and
/// nothing more.
pub proof fn boop_create_token_read_then_written(data: Seq<u8>)
    requires
        boop_create_token(data) is Ok,
    ensures
        ({
            let v = boop_create_token(data)->Ok_0;
            &&& pool_parameters_fit(v.texts())
            &&& data.len() == DISCRIMINATOR_LEN + boop_args_bytes(v).len()
            &&& data.subrange(DISCRIMINATOR_LEN as int, data.len() as int) == boop_args_bytes(v)
        }),
{
    let body = body_of(data)->Ok_0;
    boop_args_read_then_written(body, 0);
    assert(body.subrange(0, body.len() as int) =~= body);
}

/// A payload that holds, behind its discriminator, the bytes written for
/// the arguments of a create-token instruction with a salt and nothing more decodes to
/// those arguments.
pub proof fn boop_create_token_written_then_read(data: Seq<u8>, v: CreateTokenBoopArgsView)
    requires
        pool_parameters_fit(v.texts()),
        data.len() == DISCRIMINATOR_LEN + boop_args_bytes(v).len(),
        data.subrange(DISCRIMINATOR_LEN as int, data.len() as int) == boop_args_bytes(v),
    ensures
        holds(boop_create_token(data), v),
{
    let body = body_of(data)->Ok_0;
    assert(body.subrange(0, body.len() as int) =~= body);
    boop_args_written_then_read(body, 0, v);
}

/// A create-token instruction with a salt decodes from no proper prefix of its payload: the
/// decoder reports that the buffer is too short.
pub proof fn boop_create_token_in_prefix(data: Seq<u8>, n: int)
    requires
        boop_create_token(data) is Ok,
        0 <= n < data.len(),
    ensures
        fails_with(boop_create_token(data.take(n)), DecodeError::BufferTooShort),
{
    let body = body_of(data)->Ok_0;
    if n >= DISCRIMINATOR_LEN {
        body_of_prefix(data, n);
        boop_args_in_prefix(body, 0, n - DISCRIMINATOR_LEN);
    }
}

/// A create-token instruction with a salt with bytes behind its arguments is refused as
/// misshapen.
pub proof fn boop_create_token_with_bytes_left_over(data: Seq<u8>, more: Seq<u8>)
    requires
        boop_create_token(data) is Ok,
        more.len() > 0,
    ensures
        fails_with(boop_create_token(data + more), DecodeError::SchemaMismatch),
{
    let body = body_of(data)->Ok_0;
    let longer = body_of(data + more)->Ok_0;
    boop_args_read_then_written(body, 0);
    assert(longer.subrange(0, body.len() as int) =~= body.subrange(0, body.len() as int));
    boop_args_written_then_read(longer, 0, boop_args_at(body, 0)->Ok_0.0);
}

/// The payload of a pool-initialize instruction that decodes holds, behind its
/// discriminator, exactly the bytes that are written for its arguments, and
/// nothing more.
pub proof fn raydium_initialize_read_then_written(data: Seq<u8>)
    requires
        raydium_initialize(data) is Ok,
    ensures
        ({
            let v = raydium_initialize(data)->Ok_0;
            &&& pool_parameters_fit(v.base_mint_param.texts())
            &&& data.len() == DISCRIMINATOR_LEN + initialize_data_bytes(v).len()
            &&& data.subrange(DISCRIMINATOR_LEN as int, data.len() as int)
                == initialize_data_bytes(v)
        }),
{
    let body = body_of(data)->Ok_0;
    initialize_data_read_then_written(body, 0);
    assert(body.subrange(0, body.len() as int) =~= body);
}

/// A payload that holds, behind its discriminator, the bytes written for
/// the arguments of a pool-initialize instruction and nothing more decodes to
/// those arguments.
pub proof fn raydium_initialize_written_then_read(data: Seq<u8>, v: InitializeDataView)
    requires
        pool_parameters_fit(v.base_mint_param.texts()),
        data.len() == DISCRIMINATOR_LEN + initialize_data_bytes(v).len(),
        data.subrange(DISCRIMINATOR_LEN as int, data.len() as int) == initialize_data_bytes(v),
    ensures
        holds(raydium_initialize(data), v),
{
    let body = body_of(data)->Ok_0;
    assert(body.subrange(0, body.len() as int) =~= body);
    initialize_data_written_then_read(body, 0, v);
}

/// A pool-initialize instruction decodes from no proper prefix of its payload: the
/// decoder reports that the buffer is too short.
pub proof fn raydium_initialize_in_prefix(data: Seq<u8>, n: int)
    requires
        raydium_initialize(data) is Ok,
        0 <= n < data.len(),
    ensures
        fails_with(raydium_initialize(data.take(n)), DecodeError::BufferTooShort),
{
    let body = body_of(data)->Ok_0;
    if n >= DISCRIMINATOR_LEN {
        body_of_prefix(data, n);
        initialize_data_in_prefix(body, 0, n - DISCRIMINATOR_LEN);
    }
}

/// A pool-initialize instruction with bytes behind its arguments is refused as
/// misshapen.
pub proof fn raydium_initialize_with_bytes_left_over(data: Seq<u8>, more: Seq<u8>)
    requires
        raydium_initialize(data) is Ok,
        more.len() > 0,
    ensures
        fails_with(raydium_initialize(data + more), DecodeError::SchemaMismatch),
{
    let body = body_of(data)->Ok_0;
    let longer = body_of(data + more)->Ok_0;
    initialize_data_read_then_written(body, 0);
    assert(longer.subrange(0, body.len() as int) =~= body.subrange(0, body.len() as int));
    initialize_data_written_then_read(longer, 0, initialize_data_at(body, 0)->Ok_0.0);
}

/// A payload shorter than a discriminator decodes to nothing. Every decoder
/// that strips a discriminator reports that the buffer is too short. The
/// decoder that may read a payload from its start reports what that read
/// finds: a buffer too short, or a name that is not UTF-8.
pub proof fn short_payload_holds_nothing(data: Seq<u8>)
    requires
        data.len() < DISCRIMINATOR_LEN,
    ensures
        fails_with(boop_create_token(data), DecodeError::BufferTooShort),
        fails_with(raydium_initialize(data), DecodeError::BufferTooShort),
        fails_with(moonshot_token_mint(data), DecodeError::BufferTooShort),
        fails_with(pump_fun_create(data), DecodeError::BufferTooShort),
        fails_with(pump_fun_curve_state(data), DecodeError::BufferTooShort),
        fails_with(launchpad_pool_state(data), DecodeError::BufferTooShort),
        fails_with(launchpad_global_config(data), DecodeError::BufferTooShort),
        fails_with(meteora_parameters(data), DecodeError::BufferTooShort) || fails_with(
            meteora_parameters(data),
            DecodeError::InvalidUtf8,
        ),
        fails_with(meteora_parameters(data), DecodeError::InvalidUtf8) ==> fails_with(
            text_at(data, 0),
            DecodeError::InvalidUtf8,
        ),
{
    if text_at(data, 0) is Ok {
        text_read_then_written(data, 0);
    }
}

/// The texts of a pool-initialize instruction that decodes stand either
/// behind the first eight bytes of its payload or at its start, as the
/// bytes that are written for them.
pub proof fn meteora_parameters_read_then_written(data: Seq<u8>)
    requires
        meteora_parameters(data) is Ok,
    ensures
        ({
            let v = meteora_parameters(data)->Ok_0;
            let len = pool_parameters_bytes(v).len() as int;
            &&& pool_parameters_fit(v)
            &&& {
                ||| available(data, DISCRIMINATOR_LEN as int, len) && data.subrange(
                    DISCRIMINATOR_LEN as int,
                    DISCRIMINATOR_LEN + len,
                ) == pool_parameters_bytes(v)
                ||| available(data, 0, len) && data.subrange(0, len) == pool_parameters_bytes(v)
            }
        }),
{
    if body_of(data) is Ok && pool_parameters_at(body_of(data)->Ok_0, 0) is Ok {
        let body = body_of(data)->Ok_0;
        pool_parameters_read_then_written(body, 0);
        body_ranges(data, 0, pool_parameters_at(body, 0)->Ok_0.1);
    } else {
        pool_parameters_read_then_written(data, 0);
    }
}

/// A payload that holds, behind a discriminator, the bytes written for
/// three texts decodes to those texts.
pub proof fn meteora_parameters_written_then_read(data: Seq<u8>, v: InitializePoolParametersView)
    requires
        pool_parameters_fit(v),
        available(data, DISCRIMINATOR_LEN as int, pool_parameters_bytes(v).len() as int),
        data.subrange(DISCRIMINATOR_LEN as int, DISCRIMINATOR_LEN + pool_parameters_bytes(v).len())
            == pool_parameters_bytes(v),
    ensures
        holds(meteora_parameters(data), v),
{
    let body = body_of(data)->Ok_0;
    body_ranges(data, 0, pool_parameters_bytes(v).len() as int);
    pool_parameters_written_then_read(body, 0, v);
}

/// A payload that holds the bytes written for three texts at its start
/// decodes to those texts, unless what stands behind its first eight bytes
/// is three texts too.
pub proof fn meteora_parameters_written_bare_then_read(
    data: Seq<u8>,
    v: InitializePoolParametersView,
)
    requires
        pool_parameters_fit(v),
        available(data, 0, pool_parameters_bytes(v).len() as int),
        data.subrange(0, pool_parameters_bytes(v).len() as int) == pool_parameters_bytes(v),
        body_of(data) is Ok ==> pool_parameters_at(body_of(data)->Ok_0, 0) is Err,
    ensures
        holds(meteora_parameters(data), v),
{
    pool_parameters_written_then_read(data, 0, v);
}

/// Where the texts of a pool-initialize instruction decode, the account
/// list decides: the record is made exactly where the list has a text at
/// each of the places 2, 3 and 5, and holds those three as developer, mint
/// and bonding curve; a list without one of them is reported as missing an
/// account. Where the texts do not decode, that failure is reported,
/// whatever the list holds.
pub proof fn meteora_accounts_decide(data: Seq<u8>, accounts: Seq<Option<Seq<char>>>)
    ensures
        meteora_parameters(data) matches Err(e) ==> fails_with(
            meteora_initialize(data, accounts),
            e,
        ),
        meteora_parameters(data) is Ok ==> {
            let present = accounts.len() > ACCOUNT_POOL && accounts[ACCOUNT_CREATOR as int] is Some
                && accounts[ACCOUNT_BASE_MINT as int] is Some && accounts[ACCOUNT_POOL as int]
                is Some;
            &&& present <==> meteora_initialize(data, accounts) is Ok
            &&& !present <==> fails_with(
                meteora_initialize(data, accounts),
                DecodeError::MissingAccount,
            )
        },
        meteora_initialize(data, accounts) is Ok ==> ({
            let rec = meteora_initialize(data, accounts)->Ok_0;
            let texts = meteora_parameters(data)->Ok_0;
            &&& rec.name == texts.name
            &&& rec.symbol == texts.symbol
            &&& rec.uri == texts.uri
            &&& rec.developer == accounts[ACCOUNT_CREATOR as int]->Some_0
            &&& rec.mint == accounts[ACCOUNT_BASE_MINT as int]->Some_0
            &&& rec.bonding_curve == accounts[ACCOUNT_POOL as int]->Some_0
        }),
{
}

} // verus!
