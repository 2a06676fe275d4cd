//! How a call of the guest is answered: which host method or function is called, on what, with
//! which arguments, and what is done with its outcome.
use crate::calls::{
    begin_host_fn, metrics_name, report_under, section_of, DeterminismLevel, HostExportError,
    HostFnTiming, TrapFlags,
};
use crate::imports::HostImport;
use crate::slot::ContextSlot;
use vstd::prelude::*;

verus! {

/// A call of a method of the test context.
#[derive(Clone, Copy, Debug, PartialEq, Eq, Structural)]
pub enum TestCall {
    /// `ethereum_call`
    EthereumCall { contract_call_ptr: u32 },
    /// `mock_function`
    MockFunction {
        contract_address_ptr: u32,
        fn_name_ptr: u32,
        fn_signature_ptr: u32,
        fn_args_ptr: u32,
        return_value_ptr: u32,
        reverts: u32,
    },
    /// `clear_store`
    ClearStore,
    /// `log_store`
    LogStore,
    /// `mock_store_get`
    MockStoreGet { entity: u32, id: u32 },
    /// `mock_store_set`
    MockStoreSet { entity: u32, id: u32, data: u32 },
    /// `mock_store_remove`
    MockStoreRemove { entity_ptr: u32, id_ptr: u32 },
    /// `mock_data_source_create`
    MockDataSourceCreate { name: u32, params: u32 },
    /// `mock_data_source_create_with_context`
    MockDataSourceCreateWithContext { name: u32, params: u32, context: u32 },
    /// `log`
    Log { level: u32, msg_ptr: u32 },
    /// `register_test`
    RegisterTest { name_ptr: u32, should_fail_ptr: u32, func_idx: u32 },
    /// `assert_field_equals`
    AssertFieldEquals {
        entity_type_ptr: u32,
        id_ptr: u32,
        field_name_ptr: u32,
        expected_val_ptr: u32,
    },
    /// `assert_equals`
    AssertEquals { expected_ptr: u32, actual_ptr: u32 },
    /// `assert_not_in_store`
    AssertNotInStore { entity_type_ptr: u32, id_ptr: u32 },
}

/// A call of a method of the graph context that the test context wraps.
#[derive(Clone, Copy, Debug, PartialEq, Eq, Structural)]
pub enum RuntimeCall {
    /// `ethereum_encode`
    EthereumEncode { params_ptr: u32 },
    /// `ethereum_decode`
    EthereumDecode { params_ptr: u32, data_ptr: u32 },
    /// `abort`
    Abort { message_ptr: u32, file_name_ptr: u32, line: u32, column: u32 },
    /// `ipfs_cat`
    IpfsCat { hash_ptr: u32 },
    /// `ipfs_map`
    IpfsMap { link_ptr: u32, callback: u32, user_data: u32, flags: u32 },
    /// `bytes_to_string`
    BytesToString { ptr: u32 },
    /// `bytes_to_hex`
    BytesToHex { ptr: u32 },
    /// `big_int_to_string`
    BigIntToString { ptr: u32 },
    /// `big_int_to_hex`
    BigIntToHex { ptr: u32 },
    /// `string_to_h160`
    StringToH160 { ptr: u32 },
    /// `bytes_to_base58`
    BytesToBase58 { ptr: u32 },
    /// `json_from_bytes`
    JsonFromBytes { ptr: u32 },
    /// `json_try_from_bytes`
    JsonTryFromBytes { ptr: u32 },
    /// `json_to_i64`
    JsonToI64 { ptr: u32 },
    /// `json_to_u64`
    JsonToU64 { ptr: u32 },
    /// `json_to_f64`
    JsonToF64 { ptr: u32 },
    /// `json_to_big_int`
    JsonToBigInt { ptr: u32 },
    /// `crypto_keccak_256`
    CryptoKeccak256 { ptr: u32 },
    /// `big_int_plus`
    BigIntPlus { x_ptr: u32, y_ptr: u32 },
    /// `big_int_minus`
    BigIntMinus { x_ptr: u32, y_ptr: u32 },
    /// `big_int_times`
    BigIntTimes { x_ptr: u32, y_ptr: u32 },
    /// `big_int_divided_by`
    BigIntDividedBy { x_ptr: u32, y_ptr: u32 },
    /// `big_int_divided_by_decimal`
    BigIntDividedByDecimal { x: u32, y: u32 },
    /// `big_int_mod`
    BigIntMod { x_ptr: u32, y_ptr: u32 },
    /// `big_int_pow`
    BigIntPow { x_ptr: u32, exp: u32 },
    /// `big_int_from_string`
    BigIntFromString { ptr: u32 },
    /// `big_int_bit_or`
    BigIntBitOr { x_ptr: u32, y_ptr: u32 },
    /// `big_int_bit_and`
    BigIntBitAnd { x_ptr: u32, y_ptr: u32 },
    /// `big_int_left_shift`
    BigIntLeftShift { x_ptr: u32, bits: u32 },
    /// `big_int_right_shift`
    BigIntRightShift { x_ptr: u32, bits: u32 },
    /// `big_decimal_to_string`
    BigDecimalToString { ptr: u32 },
    /// `big_decimal_from_string`
    BigDecimalFromString { ptr: u32 },
    /// `big_decimal_plus`
    BigDecimalPlus { x_ptr: u32, y_ptr: u32 },
    /// `big_decimal_minus`
    BigDecimalMinus { x_ptr: u32, y_ptr: u32 },
    /// `big_decimal_times`
    BigDecimalTimes { x_ptr: u32, y_ptr: u32 },
    /// `big_decimal_divided_by`
    BigDecimalDividedBy { x: u32, y: u32 },
    /// `big_decimal_equals`
    BigDecimalEquals { x_ptr: u32, y_ptr: u32 },
    /// `data_source_address`
    DataSourceAddress,
    /// `data_source_network`
    DataSourceNetwork,
    /// `data_source_context`
    DataSourceContext,
    /// `ens_name_by_hash`
    EnsNameByHash { ptr: u32 },
    /// `arweave_transaction_data`
    ArweaveTransactionData { ptr: u32 },
    /// `box_profile`
    BoxProfile { ptr: u32 },
}

/// A call of a host method.
#[derive(Clone, Copy, Debug, PartialEq, Eq, Structural)]
pub enum HostCall {
    /// The test context answers.
    Test(TestCall),
    /// The graph context answers.
    Runtime(RuntimeCall),
}

impl TestCall {
    /// What is handed to the method, in order.
    pub open spec fn arguments(self) -> Seq<u32> {
        match self {
            TestCall::EthereumCall { contract_call_ptr } => seq![contract_call_ptr],
            TestCall::MockFunction {
                contract_address_ptr,
                fn_name_ptr,
                fn_signature_ptr,
                fn_args_ptr,
                return_value_ptr,
                reverts,
            } => seq![
                contract_address_ptr,
                fn_name_ptr,
                fn_signature_ptr,
                fn_args_ptr,
                return_value_ptr,
                reverts,
            ],
            TestCall::ClearStore => seq![],
            TestCall::LogStore => seq![],
            TestCall::MockStoreGet { entity, id } => seq![entity, id],
            TestCall::MockStoreSet { entity, id, data } => seq![entity, id, data],
            TestCall::MockStoreRemove { entity_ptr, id_ptr } => seq![entity_ptr, id_ptr],
            TestCall::MockDataSourceCreate { name, params } => seq![name, params],
            TestCall::MockDataSourceCreateWithContext { name, params, context } => seq![
                name,
                params,
                context,
            ],
            TestCall::Log { level, msg_ptr } => seq![level, msg_ptr],
            TestCall::RegisterTest { name_ptr, should_fail_ptr, func_idx } => seq![
                name_ptr,
                should_fail_ptr,
                func_idx,
            ],
            TestCall::AssertFieldEquals {
                entity_type_ptr,
                id_ptr,
                field_name_ptr,
                expected_val_ptr,
            } => seq![entity_type_ptr, id_ptr, field_name_ptr, expected_val_ptr],
            TestCall::AssertEquals { expected_ptr, actual_ptr } => seq![expected_ptr, actual_ptr],
            TestCall::AssertNotInStore { entity_type_ptr, id_ptr } => seq![entity_type_ptr, id_ptr],
        }
    }
}

impl RuntimeCall {
    /// What is handed to the method, in order.
    pub open spec fn arguments(self) -> Seq<u32> {
        match self {
            RuntimeCall::EthereumEncode { params_ptr } => seq![params_ptr],
            RuntimeCall::EthereumDecode { params_ptr, data_ptr } => seq![params_ptr, data_ptr],
            RuntimeCall::Abort { message_ptr, file_name_ptr, line, column } => seq![
                message_ptr,
                file_name_ptr,
                line,
                column,
            ],
            RuntimeCall::IpfsCat { hash_ptr } => seq![hash_ptr],
            RuntimeCall::IpfsMap { link_ptr, callback, user_data, flags } => seq![
                link_ptr,
                callback,
                user_data,
                flags,
            ],
            RuntimeCall::BytesToString { ptr } => seq![ptr],
            RuntimeCall::BytesToHex { ptr } => seq![ptr],
            RuntimeCall::BigIntToString { ptr } => seq![ptr],
            RuntimeCall::BigIntToHex { ptr } => seq![ptr],
            RuntimeCall::StringToH160 { ptr } => seq![ptr],
            RuntimeCall::BytesToBase58 { ptr } => seq![ptr],
            RuntimeCall::JsonFromBytes { ptr } => seq![ptr],
            RuntimeCall::JsonTryFromBytes { ptr } => seq![ptr],
            RuntimeCall::JsonToI64 { ptr } => seq![ptr],
            RuntimeCall::JsonToU64 { ptr } => seq![ptr],
            RuntimeCall::JsonToF64 { ptr } => seq![ptr],
            RuntimeCall::JsonToBigInt { ptr } => seq![ptr],
            RuntimeCall::CryptoKeccak256 { ptr } => seq![ptr],
            RuntimeCall::BigIntPlus { x_ptr, y_ptr } => seq![x_ptr, y_ptr],
            RuntimeCall::BigIntMinus { x_ptr, y_ptr } => seq![x_ptr, y_ptr],
            RuntimeCall::BigIntTimes { x_ptr, y_ptr } => seq![x_ptr, y_ptr],
            RuntimeCall::BigIntDividedBy { x_ptr, y_ptr } => seq![x_ptr, y_ptr],
            RuntimeCall::BigIntDividedByDecimal { x, y } => seq![x, y],
            RuntimeCall::BigIntMod { x_ptr, y_ptr } => seq![x_ptr, y_ptr],
            RuntimeCall::BigIntPow { x_ptr, exp } => seq![x_ptr, exp],
            RuntimeCall::BigIntFromString { ptr } => seq![ptr],
            RuntimeCall::BigIntBitOr { x_ptr, y_ptr } => seq![x_ptr, y_ptr],
            RuntimeCall::BigIntBitAnd { x_ptr, y_ptr } => seq![x_ptr, y_ptr],
            RuntimeCall::BigIntLeftShift { x_ptr, bits } => seq![x_ptr, bits],
            RuntimeCall::BigIntRightShift { x_ptr, bits } => seq![x_ptr, bits],
            RuntimeCall::BigDecimalToString { ptr } => seq![ptr],
            RuntimeCall::BigDecimalFromString { ptr } => seq![ptr],
            RuntimeCall::BigDecimalPlus { x_ptr, y_ptr } => seq![x_ptr, y_ptr],
            RuntimeCall::BigDecimalMinus { x_ptr, y_ptr } => seq![x_ptr, y_ptr],
            RuntimeCall::BigDecimalTimes { x_ptr, y_ptr } => seq![x_ptr, y_ptr],
            RuntimeCall::BigDecimalDividedBy { x, y } => seq![x, y],
            RuntimeCall::BigDecimalEquals { x_ptr, y_ptr } => seq![x_ptr, y_ptr],
            RuntimeCall::DataSourceAddress => seq![],
            RuntimeCall::DataSourceNetwork => seq![],
            RuntimeCall::DataSourceContext => seq![],
            RuntimeCall::EnsNameByHash { ptr } => seq![ptr],
            RuntimeCall::ArweaveTransactionData { ptr } => seq![ptr],
            RuntimeCall::BoxProfile { ptr } => seq![ptr],
        }
    }
}

impl HostCall {
    /// What is handed to the method, in order.
    pub open spec fn arguments(self) -> Seq<u32> {
        match self {
            HostCall::Test(call) => call.arguments(),
            HostCall::Runtime(call) => call.arguments(),
        }
    }
}

impl HostImport {
    /// What a call with the arguments `args` comes to.
    pub open spec fn call_of(self, args: Seq<u32>) -> HostCall
        recommends
            args.len() == self.parameter_count(),
    {
        match self {
            HostImport::EthereumCall => HostCall::Test(
                TestCall::EthereumCall { contract_call_ptr: args[0] },
            ),
            HostImport::EthereumEncode => HostCall::Runtime(
                RuntimeCall::EthereumEncode { params_ptr: args[0] },
            ),
            HostImport::EthereumDecode => HostCall::Runtime(
                RuntimeCall::EthereumDecode { params_ptr: args[0], data_ptr: args[1] },
            ),
            HostImport::Abort => HostCall::Runtime(
                RuntimeCall::Abort {
                    message_ptr: args[0],
                    file_name_ptr: args[1],
                    line: args[2],
                    column: args[3],
                },
            ),
            HostImport::MockFunction => HostCall::Test(
                TestCall::MockFunction {
                    contract_address_ptr: args[0],
                    fn_name_ptr: args[1],
                    fn_signature_ptr: args[2],
                    fn_args_ptr: args[3],
                    return_value_ptr: args[4],
                    reverts: args[5],
                },
            ),
            HostImport::ClearStore => HostCall::Test(TestCall::ClearStore),
            HostImport::LogStore => HostCall::Test(TestCall::LogStore),
            HostImport::StoreGet => HostCall::Test(
                TestCall::MockStoreGet { entity: args[0], id: args[1] },
            ),
            HostImport::StoreSet => HostCall::Test(
                TestCall::MockStoreSet { entity: args[0], id: args[1], data: args[2] },
            ),
            HostImport::IpfsCat => HostCall::Runtime(RuntimeCall::IpfsCat { hash_ptr: args[0] }),
            HostImport::IpfsMap => HostCall::Runtime(
                RuntimeCall::IpfsMap {
                    link_ptr: args[0],
                    callback: args[1],
                    user_data: args[2],
                    flags: args[3],
                },
            ),
            HostImport::StoreRemove => HostCall::Test(
                TestCall::MockStoreRemove { entity_ptr: args[0], id_ptr: args[1] },
            ),
            HostImport::TypeConversionBytesToString => HostCall::Runtime(
                RuntimeCall::BytesToString { ptr: args[0] },
            ),
            HostImport::TypeConversionBytesToHex => HostCall::Runtime(
                RuntimeCall::BytesToHex { ptr: args[0] },
            ),
            HostImport::TypeConversionBigIntToString => HostCall::Runtime(
                RuntimeCall::BigIntToString { ptr: args[0] },
            ),
            HostImport::TypeConversionBigIntToHex => HostCall::Runtime(
                RuntimeCall::BigIntToHex { ptr: args[0] },
            ),
            HostImport::TypeConversionStringToH160 => HostCall::Runtime(
                RuntimeCall::StringToH160 { ptr: args[0] },
            ),
            HostImport::TypeConversionBytesToBase58 => HostCall::Runtime(
                RuntimeCall::BytesToBase58 { ptr: args[0] },
            ),
            HostImport::JsonFromBytes => HostCall::Runtime(
                RuntimeCall::JsonFromBytes { ptr: args[0] },
            ),
            HostImport::JsonTryFromBytes => HostCall::Runtime(
                RuntimeCall::JsonTryFromBytes { ptr: args[0] },
            ),
            HostImport::JsonToI64 => HostCall::Runtime(RuntimeCall::JsonToI64 { ptr: args[0] }),
            HostImport::JsonToU64 => HostCall::Runtime(RuntimeCall::JsonToU64 { ptr: args[0] }),
            HostImport::JsonToF64 => HostCall::Runtime(RuntimeCall::JsonToF64 { ptr: args[0] }),
            HostImport::JsonToBigInt => HostCall::Runtime(
                RuntimeCall::JsonToBigInt { ptr: args[0] },
            ),
            HostImport::CryptoKeccak256 => HostCall::Runtime(
                RuntimeCall::CryptoKeccak256 { ptr: args[0] },
            ),
            HostImport::BigIntPlus => HostCall::Runtime(
                RuntimeCall::BigIntPlus { x_ptr: args[0], y_ptr: args[1] },
            ),
            HostImport::BigIntMinus => HostCall::Runtime(
                RuntimeCall::BigIntMinus { x_ptr: args[0], y_ptr: args[1] },
            ),
            HostImport::BigIntTimes => HostCall::Runtime(
                RuntimeCall::BigIntTimes { x_ptr: args[0], y_ptr: args[1] },
            ),
            HostImport::BigIntDividedBy => HostCall::Runtime(
                RuntimeCall::BigIntDividedBy { x_ptr: args[0], y_ptr: args[1] },
            ),
            HostImport::BigIntDividedByDecimal => HostCall::Runtime(
                RuntimeCall::BigIntDividedByDecimal { x: args[0], y: args[1] },
            ),
            HostImport::BigIntMod => HostCall::Runtime(
                RuntimeCall::BigIntMod { x_ptr: args[0], y_ptr: args[1] },
            ),
            HostImport::BigIntPow => HostCall::Runtime(
                RuntimeCall::BigIntPow { x_ptr: args[0], exp: args[1] },
            ),
            HostImport::BigIntFromString => HostCall::Runtime(
                RuntimeCall::BigIntFromString { ptr: args[0] },
            ),
            HostImport::BigIntBitOr => HostCall::Runtime(
                RuntimeCall::BigIntBitOr { x_ptr: args[0], y_ptr: args[1] },
            ),
            HostImport::BigIntBitAnd => HostCall::Runtime(
                RuntimeCall::BigIntBitAnd { x_ptr: args[0], y_ptr: args[1] },
            ),
            HostImport::BigIntLeftShift => HostCall::Runtime(
                RuntimeCall::BigIntLeftShift { x_ptr: args[0], bits: args[1] },
            ),
            HostImport::BigIntRightShift => HostCall::Runtime(
                RuntimeCall::BigIntRightShift { x_ptr: args[0], bits: args[1] },
            ),
            HostImport::BigDecimalToString => HostCall::Runtime(
                RuntimeCall::BigDecimalToString { ptr: args[0] },
            ),
            HostImport::BigDecimalFromString => HostCall::Runtime(
                RuntimeCall::BigDecimalFromString { ptr: args[0] },
            ),
            HostImport::BigDecimalPlus => HostCall::Runtime(
                RuntimeCall::BigDecimalPlus { x_ptr: args[0], y_ptr: args[1] },
            ),
            HostImport::BigDecimalMinus => HostCall::Runtime(
                RuntimeCall::BigDecimalMinus { x_ptr: args[0], y_ptr: args[1] },
            ),
            HostImport::BigDecimalTimes => HostCall::Runtime(
                RuntimeCall::BigDecimalTimes { x_ptr: args[0], y_ptr: args[1] },
            ),
            HostImport::BigDecimalDividedBy => HostCall::Runtime(
                RuntimeCall::BigDecimalDividedBy { x: args[0], y: args[1] },
            ),
            HostImport::BigDecimalEquals => HostCall::Runtime(
                RuntimeCall::BigDecimalEquals { x_ptr: args[0], y_ptr: args[1] },
            ),
            HostImport::DataSourceCreate => HostCall::Test(
                TestCall::MockDataSourceCreate { name: args[0], params: args[1] },
            ),
            HostImport::DataSourceCreateWithContext => HostCall::Test(
                TestCall::MockDataSourceCreateWithContext {
                    name: args[0],
                    params: args[1],
                    context: args[2],
                },
            ),
            HostImport::DataSourceAddress => HostCall::Runtime(RuntimeCall::DataSourceAddress),
            HostImport::DataSourceNetwork => HostCall::Runtime(RuntimeCall::DataSourceNetwork),
            HostImport::DataSourceContext => HostCall::Runtime(RuntimeCall::DataSourceContext),
            HostImport::EnsNameByHash => HostCall::Runtime(
                RuntimeCall::EnsNameByHash { ptr: args[0] },
            ),
            HostImport::LogLog => HostCall::Test(
                TestCall::Log { level: args[0], msg_ptr: args[1] },
            ),
            HostImport::ArweaveTransactionData => HostCall::Runtime(
                RuntimeCall::ArweaveTransactionData { ptr: args[0] },
            ),
            HostImport::BoxProfile => HostCall::Runtime(RuntimeCall::BoxProfile { ptr: args[0] }),
            HostImport::RegisterTest => HostCall::Test(
                TestCall::RegisterTest {
                    name_ptr: args[0],
                    should_fail_ptr: args[1],
                    func_idx: args[2],
                },
            ),
            HostImport::AssertFieldEquals => HostCall::Test(
                TestCall::AssertFieldEquals {
                    entity_type_ptr: args[0],
                    id_ptr: args[1],
                    field_name_ptr: args[2],
                    expected_val_ptr: args[3],
                },
            ),
            HostImport::AssertEquals => HostCall::Test(
                TestCall::AssertEquals { expected_ptr: args[0], actual_ptr: args[1] },
            ),
            HostImport::AssertNotInStore => HostCall::Test(
                TestCall::AssertNotInStore { entity_type_ptr: args[0], id_ptr: args[1] },
            ),
        }
    }
}

/// What a call of `import` with the arguments `args` comes to.
pub fn host_call(import: HostImport, args: &Vec<u32>) -> (call: HostCall)
    requires
        args@.len() == import.parameter_count(),
    ensures
        call == import.call_of(args@),
{
    match import {
        HostImport::EthereumCall => HostCall::Test(
            TestCall::EthereumCall { contract_call_ptr: args[0] },
        ),
        HostImport::EthereumEncode => HostCall::Runtime(
            RuntimeCall::EthereumEncode { params_ptr: args[0] },
        ),
        HostImport::EthereumDecode => HostCall::Runtime(
            RuntimeCall::EthereumDecode { params_ptr: args[0], data_ptr: args[1] },
        ),
        HostImport::Abort => HostCall::Runtime(
            RuntimeCall::Abort {
                message_ptr: args[0],
                file_name_ptr: args[1],
                line: args[2],
                column: args[3],
            },
        ),
        HostImport::MockFunction => HostCall::Test(
            TestCall::MockFunction {
                contract_address_ptr: args[0],
                fn_name_ptr: args[1],
                fn_signature_ptr: args[2],
                fn_args_ptr: args[3],
                return_value_ptr: args[4],
                reverts: args[5],
            },
        ),
        HostImport::ClearStore => HostCall::Test(TestCall::ClearStore),
        HostImport::LogStore => HostCall::Test(TestCall::LogStore),
        HostImport::StoreGet => HostCall::Test(
            TestCall::MockStoreGet { entity: args[0], id: args[1] },
        ),
        HostImport::StoreSet => HostCall::Test(
            TestCall::MockStoreSet { entity: args[0], id: args[1], data: args[2] },
        ),
        HostImport::IpfsCat => HostCall::Runtime(RuntimeCall::IpfsCat { hash_ptr: args[0] }),
        HostImport::IpfsMap => HostCall::Runtime(
            RuntimeCall::IpfsMap {
                link_ptr: args[0],
                callback: args[1],
                user_data: args[2],
                flags: args[3],
            },
        ),
        HostImport::StoreRemove => HostCall::Test(
            TestCall::MockStoreRemove { entity_ptr: args[0], id_ptr: args[1] },
        ),
        HostImport::TypeConversionBytesToString => HostCall::Runtime(
            RuntimeCall::BytesToString { ptr: args[0] },
        ),
        HostImport::TypeConversionBytesToHex => HostCall::Runtime(
            RuntimeCall::BytesToHex { ptr: args[0] },
        ),
        HostImport::TypeConversionBigIntToString => HostCall::Runtime(
            RuntimeCall::BigIntToString { ptr: args[0] },
        ),
        HostImport::TypeConversionBigIntToHex => HostCall::Runtime(
            RuntimeCall::BigIntToHex { ptr: args[0] },
        ),
        HostImport::TypeConversionStringToH160 => HostCall::Runtime(
            RuntimeCall::StringToH160 { ptr: args[0] },
        ),
        HostImport::TypeConversionBytesToBase58 => HostCall::Runtime(
            RuntimeCall::BytesToBase58 { ptr: args[0] },
        ),
        HostImport::JsonFromBytes => HostCall::Runtime(RuntimeCall::JsonFromBytes { ptr: args[0] }),
        HostImport::JsonTryFromBytes => HostCall::Runtime(
            RuntimeCall::JsonTryFromBytes { ptr: args[0] },
        ),
        HostImport::JsonToI64 => HostCall::Runtime(RuntimeCall::JsonToI64 { ptr: args[0] }),
        HostImport::JsonToU64 => HostCall::Runtime(RuntimeCall::JsonToU64 { ptr: args[0] }),
        HostImport::JsonToF64 => HostCall::Runtime(RuntimeCall::JsonToF64 { ptr: args[0] }),
        HostImport::JsonToBigInt => HostCall::Runtime(RuntimeCall::JsonToBigInt { ptr: args[0] }),
        HostImport::CryptoKeccak256 => HostCall::Runtime(
            RuntimeCall::CryptoKeccak256 { ptr: args[0] },
        ),
        HostImport::BigIntPlus => HostCall::Runtime(
            RuntimeCall::BigIntPlus { x_ptr: args[0], y_ptr: args[1] },
        ),
        HostImport::BigIntMinus => HostCall::Runtime(
            RuntimeCall::BigIntMinus { x_ptr: args[0], y_ptr: args[1] },
        ),
        HostImport::BigIntTimes => HostCall::Runtime(
            RuntimeCall::BigIntTimes { x_ptr: args[0], y_ptr: args[1] },
        ),
        HostImport::BigIntDividedBy => HostCall::Runtime(
            RuntimeCall::BigIntDividedBy { x_ptr: args[0], y_ptr: args[1] },
        ),
        HostImport::BigIntDividedByDecimal => HostCall::Runtime(
            RuntimeCall::BigIntDividedByDecimal { x: args[0], y: args[1] },
        ),
        HostImport::BigIntMod => HostCall::Runtime(
            RuntimeCall::BigIntMod { x_ptr: args[0], y_ptr: args[1] },
        ),
        HostImport::BigIntPow => HostCall::Runtime(
            RuntimeCall::BigIntPow { x_ptr: args[0], exp: args[1] },
        ),
        HostImport::BigIntFromString => HostCall::Runtime(
            RuntimeCall::BigIntFromString { ptr: args[0] },
        ),
        HostImport::BigIntBitOr => HostCall::Runtime(
            RuntimeCall::BigIntBitOr { x_ptr: args[0], y_ptr: args[1] },
        ),
        HostImport::BigIntBitAnd => HostCall::Runtime(
            RuntimeCall::BigIntBitAnd { x_ptr: args[0], y_ptr: args[1] },
        ),
        HostImport::BigIntLeftShift => HostCall::Runtime(
            RuntimeCall::BigIntLeftShift { x_ptr: args[0], bits: args[1] },
        ),
        HostImport::BigIntRightShift => HostCall::Runtime(
            RuntimeCall::BigIntRightShift { x_ptr: args[0], bits: args[1] },
        ),
        HostImport::BigDecimalToString => HostCall::Runtime(
            RuntimeCall::BigDecimalToString { ptr: args[0] },
        ),
        HostImport::BigDecimalFromString => HostCall::Runtime(
            RuntimeCall::BigDecimalFromString { ptr: args[0] },
        ),
        HostImport::BigDecimalPlus => HostCall::Runtime(
            RuntimeCall::BigDecimalPlus { x_ptr: args[0], y_ptr: args[1] },
        ),
        HostImport::BigDecimalMinus => HostCall::Runtime(
            RuntimeCall::BigDecimalMinus { x_ptr: args[0], y_ptr: args[1] },
        ),
        HostImport::BigDecimalTimes => HostCall::Runtime(
            RuntimeCall::BigDecimalTimes { x_ptr: args[0], y_ptr: args[1] },
        ),
        HostImport::BigDecimalDividedBy => HostCall::Runtime(
            RuntimeCall::BigDecimalDividedBy { x: args[0], y: args[1] },
        ),
        HostImport::BigDecimalEquals => HostCall::Runtime(
            RuntimeCall::BigDecimalEquals { x_ptr: args[0], y_ptr: args[1] },
        ),
        HostImport::DataSourceCreate => HostCall::Test(
            TestCall::MockDataSourceCreate { name: args[0], params: args[1] },
        ),
        HostImport::DataSourceCreateWithContext => HostCall::Test(
            TestCall::MockDataSourceCreateWithContext {
                name: args[0],
                params: args[1],
                context: args[2],
            },
        ),
        HostImport::DataSourceAddress => HostCall::Runtime(RuntimeCall::DataSourceAddress),
        HostImport::DataSourceNetwork => HostCall::Runtime(RuntimeCall::DataSourceNetwork),
        HostImport::DataSourceContext => HostCall::Runtime(RuntimeCall::DataSourceContext),
        HostImport::EnsNameByHash => HostCall::Runtime(RuntimeCall::EnsNameByHash { ptr: args[0] }),
        HostImport::LogLog => HostCall::Test(TestCall::Log { level: args[0], msg_ptr: args[1] }),
        HostImport::ArweaveTransactionData => HostCall::Runtime(
            RuntimeCall::ArweaveTransactionData { ptr: args[0] },
        ),
        HostImport::BoxProfile => HostCall::Runtime(RuntimeCall::BoxProfile { ptr: args[0] }),
        HostImport::RegisterTest => HostCall::Test(
            TestCall::RegisterTest {
                name_ptr: args[0],
                should_fail_ptr: args[1],
                func_idx: args[2],
            },
        ),
        HostImport::AssertFieldEquals => HostCall::Test(
            TestCall::AssertFieldEquals {
                entity_type_ptr: args[0],
                id_ptr: args[1],
                field_name_ptr: args[2],
                expected_val_ptr: args[3],
            },
        ),
        HostImport::AssertEquals => HostCall::Test(
            TestCall::AssertEquals { expected_ptr: args[0], actual_ptr: args[1] },
        ),
        HostImport::AssertNotInStore => HostCall::Test(
            TestCall::AssertNotInStore { entity_type_ptr: args[0], id_ptr: args[1] },
        ),
    }
}

/// The arguments of the guest reach the host method all and in their order.
pub proof fn law_arguments_keep_their_order(import: HostImport, args: Seq<u32>)
    requires
        args.len() == import.parameter_count(),
    ensures
        import.call_of(args).arguments() == args,
{
    assert(import.call_of(args).arguments() =~= args);
}

/// The calls that a test replaces are answered by the test context, and not by the graph context
/// that it wraps.
pub proof fn law_replaced_calls_reach_the_test_context(a: u32, b: u32, c: u32)
    ensures
        HostImport::StoreGet.call_of(seq![a, b]) == HostCall::Test(
            (TestCall::MockStoreGet { entity: a, id: b }),
        ),
        HostImport::StoreSet.call_of(seq![a, b, c]) == HostCall::Test(
            (TestCall::MockStoreSet { entity: a, id: b, data: c }),
        ),
        HostImport::StoreRemove.call_of(seq![a, b]) == HostCall::Test(
            (TestCall::MockStoreRemove { entity_ptr: a, id_ptr: b }),
        ),
        HostImport::EthereumCall.call_of(seq![a]) == HostCall::Test(
            (TestCall::EthereumCall { contract_call_ptr: a }),
        ),
        HostImport::DataSourceCreate.call_of(seq![a, b]) == HostCall::Test(
            (TestCall::MockDataSourceCreate { name: a, params: b }),
        ),
        HostImport::DataSourceCreateWithContext.call_of(seq![a, b, c]) == HostCall::Test(
            (TestCall::MockDataSourceCreateWithContext { name: a, params: b, context: c }),
        ),
        HostImport::LogLog.call_of(seq![a, b]) == HostCall::Test(
            (TestCall::Log { level: a, msg_ptr: b }),
        ),
{
}

/// How a call of a table function ended.
pub struct ImportEnd<R, E> {
    /// What the guest gets.
    pub result: Result<R, E>,
    /// What is to be remembered of failed calls.
    pub flags: TrapFlags,
}

impl<R, E> ImportEnd<R, E> {
    /// Whether this is the end of a call that came out as `outcome`, where the flags stood at
    /// `left` after it.
    pub open spec fn settles(
        self,
        outcome: Result<R, (DeterminismLevel, E)>,
        left: TrapFlags,
    ) -> bool {
        match outcome {
            Ok(value) => self.result == Ok::<R, E>(value) && self.flags == left,
            Err((level, error)) => self.result == Err::<R, E>(error) && self.flags == left.after(
                level,
            ),
        }
    }
}

/// Makes the one call of `func`.
fn call_on<X, S, A, T, F: FnOnce(&mut X, S, A) -> T>(
    context: &mut X,
    section: S,
    call: A,
    func: F,
) -> (came: T)
    requires
        forall|target: &mut X|
            *target == *old(context) ==> #[trigger] func.requires((target, section, call)),
    ensures
        exists|target: &mut X|
            *target == *old(context) && *final(target) == *final(context)
                && #[trigger] func.ensures((target, section, call), came),
{
    func(context, section, call)
}

/// Answers a call of `import` with the arguments `args`. The context is made with `make` if it is
/// yet to be made. Then `func` is called once, with the context, the stopwatch section in which
/// it is to be timed, and the host method to call; it returns how that came out, and the flags as
/// they stand then. In the end a failure is noted.
pub fn answer_import<M, X, D, R, E, C, F>(
    slot: &mut ContextSlot<M, X>,
    import: HostImport,
    args: &Vec<u32>,
    make: C,
    func: F,
) -> (answer: Result<ImportEnd<R, E>, D>) where
    C: FnOnce(M) -> Result<X, D>,
    F: FnOnce(&mut X, &'static str, HostCall) -> (Result<R, (DeterminismLevel, E)>, TrapFlags),

    requires
        args@.len() == import.parameter_count(),
        !(*old(slot) is Spent),
        *old(slot) matches ContextSlot::Pending(mapping) ==> make.requires((mapping,)),
        forall|target: &mut X, section: &'static str|
            section@ == import.section_text() && (match *old(slot) {
                ContextSlot::Pending(mapping) => make.ensures((mapping,), Ok(*target)),
                ContextSlot::Ready(context) => *target == context,
                ContextSlot::Spent => false,
            }) ==> #[trigger] func.requires((target, section, import.call_of(args@))),
    ensures
        match answer {
            Ok(end) => *final(slot) is Ready && exists|
                target: &mut X,
                section: &'static str,
                outcome: Result<R, (DeterminismLevel, E)>,
                left: TrapFlags,
            |
                (match *old(slot) {
                    ContextSlot::Pending(mapping) => make.ensures((mapping,), Ok(*target)),
                    ContextSlot::Ready(context) => *target == context,
                    ContextSlot::Spent => false,
                }) && *final(target) == (*final(slot))->Ready_0 && section@
                    == import.section_text() && #[trigger] func.ensures(
                    (target, section, import.call_of(args@)),
                    (outcome, left),
                ) && end.settles(outcome, left),
            Err(error) => *final(slot) is Spent && (*old(slot) matches ContextSlot::Pending(mapping)
                && make.ensures((mapping,), Err(error))),
        },
        old(slot).leads_to(*final(slot)),
{
    match slot.ensure_with(make) {
        Ok(_) => {},
        Err(error) => {
            return Err(error);
        },
    }
    let call: HostCall = host_call(import, args);
    let context: &mut X = slot.context().unwrap();
    let (outcome, left) = call_on(context, import.section(), call, func);
    let mut flags: TrapFlags = left;
    let result: Result<R, E> = flags.settle_import(outcome);
    Ok(ImportEnd { result, flags })
}

/// How a call of a host function of the chain ended.
pub struct HostFnEnd<R, E> {
    /// What the guest gets.
    pub result: Result<R, E>,
    /// What is to be remembered of failed calls.
    pub flags: TrapFlags,
    /// The name under which the time of the call is reported, if it is.
    pub report: Option<String>,
}

impl<R, E> HostFnEnd<R, E> {
    /// Whether this is the end of a call of the function `name` that came out as `outcome`, where
    /// the flags stood at `left` after it.
    pub open spec fn settles(
        self,
        name: Seq<char>,
        outcome: Result<R, HostExportError<E>>,
        left: TrapFlags,
    ) -> bool {
        match outcome {
            Ok(value) => {
                &&& self.result == Ok::<R, E>(value)
                &&& self.flags == left
                &&& self.report is Some && self.report->0@ == metrics_name(name)
            },
            Err(failure) => {
                &&& self.result == Err::<R, E>(failure.error())
                &&& self.flags == left.after(failure.level())
                &&& self.report is None
            },
        }
    }
}

/// Answers a call of the host function `name` of the chain with the guest's `call_ptr`. Without a
/// context such a call is not allowed. Else `func` is called once, with the context, the stopwatch
/// section in which it is to be timed, and `call_ptr`; it returns how that came out, and the flags
/// as they stand then. In the end a failure is noted, and the time of a success is reported.
pub fn answer_host_fn<M, X, R, E, F>(
    slot: &mut ContextSlot<M, X>,
    name: &str,
    call_ptr: u32,
    func: F,
) -> (answer: Result<HostFnEnd<R, E>, String>) where
    F: FnOnce(&mut X, String, u32) -> (Result<R, HostExportError<E>>, TrapFlags),

    requires
        *old(slot) matches ContextSlot::Ready(context) ==> forall|target: &mut X, section: String|
            *target == context && section@ == section_of(name@) ==> #[trigger] func.requires(
                (target, section, call_ptr),
            ),
    ensures
        match *old(slot) {
            ContextSlot::Ready(context) => answer is Ok && *final(slot) is Ready && exists|
                target: &mut X,
                section: String,
                outcome: Result<R, HostExportError<E>>,
                left: TrapFlags,
            |
                *target == context && *final(target) == (*final(slot))->Ready_0 && section@
                    == section_of(name@) && #[trigger] func.ensures(
                    (target, section, call_ptr),
                    (outcome, left),
                ) && answer->Ok_0.settles(name@, outcome, left),
            _ => {
                &&& *final(slot) == *old(slot)
                &&& answer is Err
                &&& answer->Err_0@ == name@ + " is not allowed in global variables"@
            },
        },
        old(slot).leads_to(*final(slot)),
{
    let timing: HostFnTiming = match begin_host_fn(name, slot.is_ready()) {
        Ok(timing) => timing,
        Err(message) => {
            return Err(message);
        },
    };
    let HostFnTiming { metrics_name, section } = timing;
    let context: &mut X = slot.context().unwrap();
    let (outcome, left) = call_on(context, section, call_ptr, func);
    let mut flags: TrapFlags = left;
    let result: Result<R, E> = flags.settle_host_fn(outcome);
    let report: Option<String> = report_under(metrics_name, &result);
    Ok(HostFnEnd { result, flags, report })
}

/// Whatever the arguments are: each of these functions is answered by its own method of the test
/// context, with the arguments of the guest in their order.
pub proof fn law_test_context_answers_its_functions(a: u32, b: u32, c: u32, d: u32, e: u32, f: u32)
    ensures
        HostImport::EthereumCall.call_of(seq![a]) == HostCall::Test(
            (TestCall::EthereumCall { contract_call_ptr: a }),
        ),
        HostImport::MockFunction.call_of(seq![a, b, c, d, e, f]) == HostCall::Test(
            (TestCall::MockFunction {
                contract_address_ptr: a,
                fn_name_ptr: b,
                fn_signature_ptr: c,
                fn_args_ptr: d,
                return_value_ptr: e,
                reverts: f,
            }),
        ),
        HostImport::ClearStore.call_of(Seq::empty()) == HostCall::Test(
            TestCall::ClearStore,
        ),
        HostImport::LogStore.call_of(Seq::empty()) == HostCall::Test(
            TestCall::LogStore,
        ),
        HostImport::StoreGet.call_of(seq![a, b]) == HostCall::Test(
            (TestCall::MockStoreGet { entity: a, id: b }),
        ),
        HostImport::StoreSet.call_of(seq![a, b, c]) == HostCall::Test(
            (TestCall::MockStoreSet { entity: a, id: b, data: c }),
        ),
        HostImport::StoreRemove.call_of(seq![a, b]) == HostCall::Test(
            (TestCall::MockStoreRemove { entity_ptr: a, id_ptr: b }),
        ),
        HostImport::DataSourceCreate.call_of(seq![a, b]) == HostCall::Test(
            (TestCall::MockDataSourceCreate { name: a, params: b }),
        ),
        HostImport::DataSourceCreateWithContext.call_of(seq![a, b, c]) == HostCall::Test(
            (TestCall::MockDataSourceCreateWithContext { name: a, params: b, context: c }),
        ),
        HostImport::LogLog.call_of(seq![a, b]) == HostCall::Test(
            (TestCall::Log { level: a, msg_ptr: b }),
        ),
        HostImport::RegisterTest.call_of(seq![a, b, c]) == HostCall::Test(
            (TestCall::RegisterTest { name_ptr: a, should_fail_ptr: b, func_idx: c }),
        ),
        HostImport::AssertFieldEquals.call_of(seq![a, b, c, d]) == HostCall::Test(
            (TestCall::AssertFieldEquals {
                entity_type_ptr: a,
                id_ptr: b,
                field_name_ptr: c,
                expected_val_ptr: d,
            }),
        ),
        HostImport::AssertEquals.call_of(seq![a, b]) == HostCall::Test(
            (TestCall::AssertEquals { expected_ptr: a, actual_ptr: b }),
        ),
        HostImport::AssertNotInStore.call_of(seq![a, b]) == HostCall::Test(
            (TestCall::AssertNotInStore { entity_type_ptr: a, id_ptr: b }),
        ),
{
}

/// Whatever the arguments are: each of these functions is answered by its own method of the graph
/// context, with the arguments of the guest in their order.
pub proof fn law_graph_context_answers_its_functions(a: u32, b: u32, c: u32, d: u32)
    ensures
        HostImport::EthereumEncode.call_of(seq![a]) == HostCall::Runtime(
            (RuntimeCall::EthereumEncode { params_ptr: a }),
        ),
        HostImport::EthereumDecode.call_of(seq![a, b]) == HostCall::Runtime(
            (RuntimeCall::EthereumDecode { params_ptr: a, data_ptr: b }),
        ),
        HostImport::Abort.call_of(seq![a, b, c, d]) == HostCall::Runtime(
            (RuntimeCall::Abort { message_ptr: a, file_name_ptr: b, line: c, column: d }),
        ),
        HostImport::IpfsCat.call_of(seq![a]) == HostCall::Runtime(
            (RuntimeCall::IpfsCat { hash_ptr: a }),
        ),
        HostImport::IpfsMap.call_of(seq![a, b, c, d]) == HostCall::Runtime(
            (RuntimeCall::IpfsMap { link_ptr: a, callback: b, user_data: c, flags: d }),
        ),
        HostImport::TypeConversionBytesToString.call_of(seq![a]) == HostCall::Runtime(
            (RuntimeCall::BytesToString { ptr: a }),
        ),
        HostImport::TypeConversionBytesToHex.call_of(seq![a]) == HostCall::Runtime(
            (RuntimeCall::BytesToHex { ptr: a }),
        ),
        HostImport::TypeConversionBigIntToString.call_of(seq![a]) == HostCall::Runtime(
            (RuntimeCall::BigIntToString { ptr: a }),
        ),
        HostImport::TypeConversionBigIntToHex.call_of(seq![a]) == HostCall::Runtime(
            (RuntimeCall::BigIntToHex { ptr: a }),
        ),
        HostImport::TypeConversionStringToH160.call_of(seq![a]) == HostCall::Runtime(
            (RuntimeCall::StringToH160 { ptr: a }),
        ),
        HostImport::TypeConversionBytesToBase58.call_of(seq![a]) == HostCall::Runtime(
            (RuntimeCall::BytesToBase58 { ptr: a }),
        ),
        HostImport::JsonFromBytes.call_of(seq![a]) == HostCall::Runtime(
            (RuntimeCall::JsonFromBytes { ptr: a }),
        ),
        HostImport::JsonTryFromBytes.call_of(seq![a]) == HostCall::Runtime(
            (RuntimeCall::JsonTryFromBytes { ptr: a }),
        ),
        HostImport::JsonToI64.call_of(seq![a]) == HostCall::Runtime(
            (RuntimeCall::JsonToI64 { ptr: a }),
        ),
        HostImport::JsonToU64.call_of(seq![a]) == HostCall::Runtime(
            (RuntimeCall::JsonToU64 { ptr: a }),
        ),
        HostImport::JsonToF64.call_of(seq![a]) == HostCall::Runtime(
            (RuntimeCall::JsonToF64 { ptr: a }),
        ),
        HostImport::JsonToBigInt.call_of(seq![a]) == HostCall::Runtime(
            (RuntimeCall::JsonToBigInt { ptr: a }),
        ),
        HostImport::CryptoKeccak256.call_of(seq![a]) == HostCall::Runtime(
            (RuntimeCall::CryptoKeccak256 { ptr: a }),
        ),
        HostImport::BigIntPlus.call_of(seq![a, b]) == HostCall::Runtime(
            (RuntimeCall::BigIntPlus { x_ptr: a, y_ptr: b }),
        ),
        HostImport::BigIntMinus.call_of(seq![a, b]) == HostCall::Runtime(
            (RuntimeCall::BigIntMinus { x_ptr: a, y_ptr: b }),
        ),
        HostImport::BigIntTimes.call_of(seq![a, b]) == HostCall::Runtime(
            (RuntimeCall::BigIntTimes { x_ptr: a, y_ptr: b }),
        ),
        HostImport::BigIntDividedBy.call_of(seq![a, b]) == HostCall::Runtime(
            (RuntimeCall::BigIntDividedBy { x_ptr: a, y_ptr: b }),
        ),
        HostImport::BigIntDividedByDecimal.call_of(seq![a, b]) == HostCall::Runtime(
            (RuntimeCall::BigIntDividedByDecimal { x: a, y: b }),
        ),
        HostImport::BigIntMod.call_of(seq![a, b]) == HostCall::Runtime(
            (RuntimeCall::BigIntMod { x_ptr: a, y_ptr: b }),
        ),
        HostImport::BigIntPow.call_of(seq![a, b]) == HostCall::Runtime(
            (RuntimeCall::BigIntPow { x_ptr: a, exp: b }),
        ),
        HostImport::BigIntFromString.call_of(seq![a]) == HostCall::Runtime(
            (RuntimeCall::BigIntFromString { ptr: a }),
        ),
        HostImport::BigIntBitOr.call_of(seq![a, b]) == HostCall::Runtime(
            (RuntimeCall::BigIntBitOr { x_ptr: a, y_ptr: b }),
        ),
        HostImport::BigIntBitAnd.call_of(seq![a, b]) == HostCall::Runtime(
            (RuntimeCall::BigIntBitAnd { x_ptr: a, y_ptr: b }),
        ),
        HostImport::BigIntLeftShift.call_of(seq![a, b]) == HostCall::Runtime(
            (RuntimeCall::BigIntLeftShift { x_ptr: a, bits: b }),
        ),
        HostImport::BigIntRightShift.call_of(seq![a, b]) == HostCall::Runtime(
            (RuntimeCall::BigIntRightShift { x_ptr: a, bits: b }),
        ),
        HostImport::BigDecimalToString.call_of(seq![a]) == HostCall::Runtime(
            (RuntimeCall::BigDecimalToString { ptr: a }),
        ),
        HostImport::BigDecimalFromString.call_of(seq![a]) == HostCall::Runtime(
            (RuntimeCall::BigDecimalFromString { ptr: a }),
        ),
        HostImport::BigDecimalPlus.call_of(seq![a, b]) == HostCall::Runtime(
            (RuntimeCall::BigDecimalPlus { x_ptr: a, y_ptr: b }),
        ),
        HostImport::BigDecimalMinus.call_of(seq![a, b]) == HostCall::Runtime(
            (RuntimeCall::BigDecimalMinus { x_ptr: a, y_ptr: b }),
        ),
        HostImport::BigDecimalTimes.call_of(seq![a, b]) == HostCall::Runtime(
            (RuntimeCall::BigDecimalTimes { x_ptr: a, y_ptr: b }),
        ),
        HostImport::BigDecimalDividedBy.call_of(seq![a, b]) == HostCall::Runtime(
            (RuntimeCall::BigDecimalDividedBy { x: a, y: b }),
        ),
        HostImport::BigDecimalEquals.call_of(seq![a, b]) == HostCall::Runtime(
            (RuntimeCall::BigDecimalEquals { x_ptr: a, y_ptr: b }),
        ),
        HostImport::DataSourceAddress.call_of(Seq::empty()) == HostCall::Runtime(
            RuntimeCall::DataSourceAddress,
        ),
        HostImport::DataSourceNetwork.call_of(Seq::empty()) == HostCall::Runtime(
            RuntimeCall::DataSourceNetwork,
        ),
        HostImport::DataSourceContext.call_of(Seq::empty()) == HostCall::Runtime(
            RuntimeCall::DataSourceContext,
        ),
        HostImport::EnsNameByHash.call_of(seq![a]) == HostCall::Runtime(
            (RuntimeCall::EnsNameByHash { ptr: a }),
        ),
        HostImport::ArweaveTransactionData.call_of(seq![a]) == HostCall::Runtime(
            (RuntimeCall::ArweaveTransactionData { ptr: a }),
        ),
        HostImport::BoxProfile.call_of(seq![a]) == HostCall::Runtime(
            (RuntimeCall::BoxProfile { ptr: a }),
        ),
{
}

/// A call of the host tells which function the guest called, and with which arguments: no two
/// calls of the guest come to the same.
pub proof fn law_call_tells_function_and_arguments(
    one: HostImport,
    args: Seq<u32>,
    other: HostImport,
    other_args: Seq<u32>,
)
    requires
        args.len() == one.parameter_count(),
        other_args.len() == other.parameter_count(),
        one.call_of(args) == other.call_of(other_args),
    ensures
        one == other,
        args == other_args,
{
    law_arguments_keep_their_order(one, args);
    law_arguments_keep_their_order(other, other_args);
}

/// What the guest gets of a call of a table function, and what is remembered, goes by the outcome
/// alone: a value is handed on and changes no flag; an error is handed on, and raises at most the
/// flag of its level.
pub proof fn law_import_ends_as_it_came_out<R, E>(
    end: ImportEnd<R, E>,
    outcome: Result<R, (DeterminismLevel, E)>,
    left: TrapFlags,
)
    requires
        end.settles(outcome, left),
    ensures
        end.result is Ok <==> outcome is Ok,
        outcome is Ok ==> end.result->Ok_0 == outcome->Ok_0,
        outcome is Err ==> end.result->Err_0 == outcome->Err_0.1,
        end.flags.deterministic_host_trap <==> left.deterministic_host_trap || (outcome is Err
            && outcome->Err_0.0 == DeterminismLevel::Deterministic),
        end.flags.possible_reorg <==> left.possible_reorg || (outcome is Err && outcome->Err_0.0
            == DeterminismLevel::PossibleReorg),
{
}

/// What the guest gets of a call of a host function of the chain, what is remembered, and whether
/// the time is reported go by the outcome alone: a value is handed on, changes no flag and is
/// reported, under the name with underscores for dots; an error is handed on, raises at most the
/// flag of its kind, and is not reported.
pub proof fn law_host_function_ends_as_it_came_out<R, E>(
    end: HostFnEnd<R, E>,
    name: Seq<char>,
    outcome: Result<R, HostExportError<E>>,
    left: TrapFlags,
    i: int,
)
    requires
        end.settles(name, outcome, left),
    ensures
        end.result is Ok <==> outcome is Ok,
        outcome is Ok ==> end.result->Ok_0 == outcome->Ok_0,
        outcome matches Err(HostExportError::Unknown(error)) ==> end.result->Err_0 == error,
        outcome matches Err(HostExportError::PossibleReorg(error)) ==> end.result->Err_0 == error,
        outcome matches Err(HostExportError::Deterministic(error)) ==> end.result->Err_0 == error,
        end.flags.deterministic_host_trap <==> left.deterministic_host_trap || (outcome is Err
            && outcome->Err_0 is Deterministic),
        end.flags.possible_reorg <==> left.possible_reorg || (outcome is Err && outcome->Err_0
            is PossibleReorg),
        end.report is Some <==> outcome is Ok,
        end.report is Some ==> end.report->0@.len() == name.len(),
        end.report is Some && 0 <= i < name.len() ==> end.report->0@[i] == if name[i] == '.' {
            '_'
        } else {
            name[i]
        },
{
}

} // verus!
