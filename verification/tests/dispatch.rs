use matchstick::calls::{DeterminismLevel, HostExportError, TrapFlags};
use matchstick::dispatch::{
    answer_host_fn, answer_import, host_call, HostCall, RuntimeCall, TestCall,
};
use matchstick::imports::HostImport;
use matchstick::slot::ContextSlot;

/// What a call of `import` with the arguments 1, 2, 3 and so on comes to.
fn counted(import: HostImport) -> HostCall {
    let count = import.parameters() as u32;
    host_call(import, &(1..count + 1).collect())
}

#[test]
fn test_context_answers_calls() {
    let calls = vec![
        (HostImport::EthereumCall, TestCall::EthereumCall { contract_call_ptr: 1 }),
        (
            HostImport::MockFunction,
            TestCall::MockFunction {
                contract_address_ptr: 1,
                fn_name_ptr: 2,
                fn_signature_ptr: 3,
                fn_args_ptr: 4,
                return_value_ptr: 5,
                reverts: 6,
            },
        ),
        (HostImport::ClearStore, TestCall::ClearStore),
        (HostImport::LogStore, TestCall::LogStore),
        (HostImport::StoreGet, TestCall::MockStoreGet { entity: 1, id: 2 }),
        (HostImport::StoreSet, TestCall::MockStoreSet { entity: 1, id: 2, data: 3 }),
        (HostImport::StoreRemove, TestCall::MockStoreRemove { entity_ptr: 1, id_ptr: 2 }),
        (HostImport::DataSourceCreate, TestCall::MockDataSourceCreate { name: 1, params: 2 }),
        (
            HostImport::DataSourceCreateWithContext,
            TestCall::MockDataSourceCreateWithContext { name: 1, params: 2, context: 3 },
        ),
        (HostImport::LogLog, TestCall::Log { level: 1, msg_ptr: 2 }),
        (
            HostImport::RegisterTest,
            TestCall::RegisterTest { name_ptr: 1, should_fail_ptr: 2, func_idx: 3 },
        ),
        (
            HostImport::AssertFieldEquals,
            TestCall::AssertFieldEquals {
                entity_type_ptr: 1,
                id_ptr: 2,
                field_name_ptr: 3,
                expected_val_ptr: 4,
            },
        ),
        (HostImport::AssertEquals, TestCall::AssertEquals { expected_ptr: 1, actual_ptr: 2 }),
        (
            HostImport::AssertNotInStore,
            TestCall::AssertNotInStore { entity_type_ptr: 1, id_ptr: 2 },
        ),
    ];
    assert_eq!(calls.len(), 14);
    for (import, call) in calls {
        assert_eq!(counted(import), HostCall::Test(call));
    }
}

#[test]
fn graph_context_answers_calls() {
    let calls = vec![
        (HostImport::EthereumEncode, RuntimeCall::EthereumEncode { params_ptr: 1 }),
        (HostImport::EthereumDecode, RuntimeCall::EthereumDecode { params_ptr: 1, data_ptr: 2 }),
        (
            HostImport::Abort,
            RuntimeCall::Abort { message_ptr: 1, file_name_ptr: 2, line: 3, column: 4 },
        ),
        (HostImport::IpfsCat, RuntimeCall::IpfsCat { hash_ptr: 1 }),
        (
            HostImport::IpfsMap,
            RuntimeCall::IpfsMap { link_ptr: 1, callback: 2, user_data: 3, flags: 4 },
        ),
        (HostImport::TypeConversionBytesToString, RuntimeCall::BytesToString { ptr: 1 }),
        (HostImport::TypeConversionBytesToHex, RuntimeCall::BytesToHex { ptr: 1 }),
        (HostImport::TypeConversionBigIntToString, RuntimeCall::BigIntToString { ptr: 1 }),
        (HostImport::TypeConversionBigIntToHex, RuntimeCall::BigIntToHex { ptr: 1 }),
        (HostImport::TypeConversionStringToH160, RuntimeCall::StringToH160 { ptr: 1 }),
        (HostImport::TypeConversionBytesToBase58, RuntimeCall::BytesToBase58 { ptr: 1 }),
        (HostImport::JsonFromBytes, RuntimeCall::JsonFromBytes { ptr: 1 }),
        (HostImport::JsonTryFromBytes, RuntimeCall::JsonTryFromBytes { ptr: 1 }),
        (HostImport::JsonToI64, RuntimeCall::JsonToI64 { ptr: 1 }),
        (HostImport::JsonToU64, RuntimeCall::JsonToU64 { ptr: 1 }),
        (HostImport::JsonToF64, RuntimeCall::JsonToF64 { ptr: 1 }),
        (HostImport::JsonToBigInt, RuntimeCall::JsonToBigInt { ptr: 1 }),
        (HostImport::CryptoKeccak256, RuntimeCall::CryptoKeccak256 { ptr: 1 }),
        (HostImport::BigIntPlus, RuntimeCall::BigIntPlus { x_ptr: 1, y_ptr: 2 }),
        (HostImport::BigIntMinus, RuntimeCall::BigIntMinus { x_ptr: 1, y_ptr: 2 }),
        (HostImport::BigIntTimes, RuntimeCall::BigIntTimes { x_ptr: 1, y_ptr: 2 }),
        (HostImport::BigIntDividedBy, RuntimeCall::BigIntDividedBy { x_ptr: 1, y_ptr: 2 }),
        (HostImport::BigIntDividedByDecimal, RuntimeCall::BigIntDividedByDecimal { x: 1, y: 2 }),
        (HostImport::BigIntMod, RuntimeCall::BigIntMod { x_ptr: 1, y_ptr: 2 }),
        (HostImport::BigIntPow, RuntimeCall::BigIntPow { x_ptr: 1, exp: 2 }),
        (HostImport::BigIntFromString, RuntimeCall::BigIntFromString { ptr: 1 }),
        (HostImport::BigIntBitOr, RuntimeCall::BigIntBitOr { x_ptr: 1, y_ptr: 2 }),
        (HostImport::BigIntBitAnd, RuntimeCall::BigIntBitAnd { x_ptr: 1, y_ptr: 2 }),
        (HostImport::BigIntLeftShift, RuntimeCall::BigIntLeftShift { x_ptr: 1, bits: 2 }),
        (HostImport::BigIntRightShift, RuntimeCall::BigIntRightShift { x_ptr: 1, bits: 2 }),
        (HostImport::BigDecimalToString, RuntimeCall::BigDecimalToString { ptr: 1 }),
        (HostImport::BigDecimalFromString, RuntimeCall::BigDecimalFromString { ptr: 1 }),
        (HostImport::BigDecimalPlus, RuntimeCall::BigDecimalPlus { x_ptr: 1, y_ptr: 2 }),
        (HostImport::BigDecimalMinus, RuntimeCall::BigDecimalMinus { x_ptr: 1, y_ptr: 2 }),
        (HostImport::BigDecimalTimes, RuntimeCall::BigDecimalTimes { x_ptr: 1, y_ptr: 2 }),
        (HostImport::BigDecimalDividedBy, RuntimeCall::BigDecimalDividedBy { x: 1, y: 2 }),
        (HostImport::BigDecimalEquals, RuntimeCall::BigDecimalEquals { x_ptr: 1, y_ptr: 2 }),
        (HostImport::DataSourceAddress, RuntimeCall::DataSourceAddress),
        (HostImport::DataSourceNetwork, RuntimeCall::DataSourceNetwork),
        (HostImport::DataSourceContext, RuntimeCall::DataSourceContext),
        (HostImport::EnsNameByHash, RuntimeCall::EnsNameByHash { ptr: 1 }),
        (HostImport::ArweaveTransactionData, RuntimeCall::ArweaveTransactionData { ptr: 1 }),
        (HostImport::BoxProfile, RuntimeCall::BoxProfile { ptr: 1 }),
    ];
    assert_eq!(calls.len(), 43);
    for (import, call) in calls {
        assert_eq!(counted(import), HostCall::Runtime(call));
    }
}

#[test]
fn arguments_keep_their_order() {
    let call = host_call(HostImport::StoreSet, &vec![30, 10, 20]);
    let expected = TestCall::MockStoreSet { entity: 30, id: 10, data: 20 };
    assert_eq!(call, HostCall::Test(expected));
}

fn raised(deterministic_host_trap: bool, possible_reorg: bool) -> TrapFlags {
    TrapFlags { deterministic_host_trap, possible_reorg }
}

#[test]
fn first_call_makes_the_context_and_is_answered_by_it() {
    let mut slot: ContextSlot<u32, Vec<String>> = ContextSlot::Pending(7);
    let answer = answer_import(
        &mut slot,
        HostImport::StoreGet,
        &vec![4, 5],
        |mapping: u32| -> Result<Vec<String>, ()> { Ok(vec![mapping.to_string()]) },
        |context: &mut Vec<String>, section: &'static str, call: HostCall| {
            context.push(format!("{} {:?}", section, call));
            let outcome: Result<u32, (DeterminismLevel, &str)> = Ok(9);
            (outcome, raised(false, true))
        },
    );
    let end = answer.ok().unwrap();
    assert_eq!(end.result, Ok(9));
    assert_eq!(end.flags, raised(false, true));
    assert_eq!(
        *slot.context().unwrap(),
        vec!["7", "host_export_store_get Test(MockStoreGet { entity: 4, id: 5 })"]
    );
}

#[test]
fn failed_call_is_noted_in_the_flags_that_it_left() {
    let mut slot: ContextSlot<u32, u8> = ContextSlot::Ready(1);
    let answer = answer_import(
        &mut slot,
        HostImport::Abort,
        &vec![1, 2, 3, 4],
        |_mapping: u32| -> Result<u8, ()> { panic!("the context is there") },
        |context: &mut u8, section: &'static str, call: HostCall| {
            assert_eq!(section, "host_export_other");
            let abort = RuntimeCall::Abort {
                message_ptr: 1,
                file_name_ptr: 2,
                line: 3,
                column: 4,
            };
            assert_eq!(call, HostCall::Runtime(abort));
            *context += 1;
            let outcome: Result<u32, (DeterminismLevel, &str)> =
                Err((DeterminismLevel::Deterministic, "abort"));
            (outcome, raised(false, true))
        },
    );
    let end = answer.ok().unwrap();
    assert_eq!(end.result, Err("abort"));
    assert_eq!(end.flags, raised(true, true));
    assert_eq!(slot.context().copied(), Some(2));
}

#[test]
fn call_without_a_context_is_not_made() {
    let mut slot: ContextSlot<u32, u8> = ContextSlot::Pending(7);
    let answer = answer_import(
        &mut slot,
        HostImport::ClearStore,
        &Vec::new(),
        |mapping: u32| -> Result<u8, u32> { Err(mapping + 1) },
        |_context: &mut u8, _section: &'static str, _call: HostCall| {
            let outcome: Result<u32, (DeterminismLevel, &str)> = panic!("there is no context");
            #[allow(unreachable_code)]
            (outcome, TrapFlags::new())
        },
    );
    assert_eq!(answer.err(), Some(8));
    assert!(matches!(slot, ContextSlot::Spent));
}

#[test]
fn host_fn_is_called_once_with_the_pointer_of_the_guest() {
    let mut slot: ContextSlot<u32, Vec<String>> = ContextSlot::Ready(Vec::new());
    let answer = answer_host_fn(
        &mut slot,
        "near.block.hash",
        77,
        |context: &mut Vec<String>, section: String, call_ptr: u32| {
            context.push(format!("{} {}", section, call_ptr));
            let outcome: Result<u32, HostExportError<&str>> = Ok(call_ptr + 1);
            (outcome, raised(true, false))
        },
    );
    let end = answer.ok().unwrap();
    assert_eq!(end.result, Ok(78));
    assert_eq!(end.flags, raised(true, false));
    assert_eq!(end.report, Some("near_block_hash".to_string()));
    assert_eq!(*slot.context().unwrap(), vec!["host_export_near_block_hash 77"]);
}

#[test]
fn time_of_a_failed_host_fn_is_not_reported() {
    let failures = vec![
        (HostExportError::Unknown("no"), raised(false, false)),
        (HostExportError::PossibleReorg("no"), raised(false, true)),
        (HostExportError::Deterministic("no"), raised(true, false)),
    ];
    for (failure, flags) in failures {
        let mut slot: ContextSlot<u32, u8> = ContextSlot::Ready(1);
        let answer = answer_host_fn(
            &mut slot,
            "ethereum.call",
            5,
            |_context: &mut u8, _section: String, _call_ptr: u32| {
                let outcome: Result<u32, HostExportError<&str>> = Err(failure);
                (outcome, TrapFlags::new())
            },
        );
        let end = answer.ok().unwrap();
        assert_eq!(end.result, Err("no"));
        assert_eq!(end.flags, flags);
        assert_eq!(end.report, None);
    }
}

#[test]
fn host_fn_is_not_called_without_a_context() {
    for mut slot in [ContextSlot::<u32, u8>::Pending(7), ContextSlot::Spent] {
        let mut called = false;
        let answer = answer_host_fn(
            &mut slot,
            "ethereum.call",
            5,
            |_context: &mut u8, _section: String, _call_ptr: u32| {
                called = true;
                let outcome: Result<u32, HostExportError<&str>> = Ok(1);
                (outcome, TrapFlags::new())
            },
        );
        assert_eq!(
            answer.err(),
            Some("ethereum.call is not allowed in global variables".to_string())
        );
        assert!(!called);
        assert!(!slot.is_ready());
    }
}
