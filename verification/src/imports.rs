//! The host functions that a compiled mapping may import, in the order in which they are linked.
use vstd::prelude::*;

verus! {

/// A function that the host offers to the guest under a fixed import name.
#[derive(Clone, Copy, Debug, PartialEq, Eq, Structural)]
pub enum HostImport {
    /// `ethereum.call`
    EthereumCall,
    /// `ethereum.encode`
    EthereumEncode,
    /// `ethereum.decode`
    EthereumDecode,
    /// `abort`
    Abort,
    /// `mockFunction`
    MockFunction,
    /// `clearStore`
    ClearStore,
    /// `logStore`
    LogStore,
    /// `store.get`
    StoreGet,
    /// `store.set`
    StoreSet,
    /// `ipfs.cat`
    IpfsCat,
    /// `ipfs.map`
    IpfsMap,
    /// `store.remove`
    StoreRemove,
    /// `typeConversion.bytesToString`
    TypeConversionBytesToString,
    /// `typeConversion.bytesToHex`
    TypeConversionBytesToHex,
    /// `typeConversion.bigIntToString`
    TypeConversionBigIntToString,
    /// `typeConversion.bigIntToHex`
    TypeConversionBigIntToHex,
    /// `typeConversion.stringToH160`
    TypeConversionStringToH160,
    /// `typeConversion.bytesToBase58`
    TypeConversionBytesToBase58,
    /// `json.fromBytes`
    JsonFromBytes,
    /// `json.try_fromBytes`
    JsonTryFromBytes,
    /// `json.toI64`
    JsonToI64,
    /// `json.toU64`
    JsonToU64,
    /// `json.toF64`
    JsonToF64,
    /// `json.toBigInt`
    JsonToBigInt,
    /// `crypto.keccak256`
    CryptoKeccak256,
    /// `bigInt.plus`
    BigIntPlus,
    /// `bigInt.minus`
    BigIntMinus,
    /// `bigInt.times`
    BigIntTimes,
    /// `bigInt.dividedBy`
    BigIntDividedBy,
    /// `bigInt.dividedByDecimal`
    BigIntDividedByDecimal,
    /// `bigInt.mod`
    BigIntMod,
    /// `bigInt.pow`
    BigIntPow,
    /// `bigInt.fromString`
    BigIntFromString,
    /// `bigInt.bitOr`
    BigIntBitOr,
    /// `bigInt.bitAnd`
    BigIntBitAnd,
    /// `bigInt.leftShift`
    BigIntLeftShift,
    /// `bigInt.rightShift`
    BigIntRightShift,
    /// `bigDecimal.toString`
    BigDecimalToString,
    /// `bigDecimal.fromString`
    BigDecimalFromString,
    /// `bigDecimal.plus`
    BigDecimalPlus,
    /// `bigDecimal.minus`
    BigDecimalMinus,
    /// `bigDecimal.times`
    BigDecimalTimes,
    /// `bigDecimal.dividedBy`
    BigDecimalDividedBy,
    /// `bigDecimal.equals`
    BigDecimalEquals,
    /// `dataSource.create`
    DataSourceCreate,
    /// `dataSource.createWithContext`
    DataSourceCreateWithContext,
    /// `dataSource.address`
    DataSourceAddress,
    /// `dataSource.network`
    DataSourceNetwork,
    /// `dataSource.context`
    DataSourceContext,
    /// `ens.nameByHash`
    EnsNameByHash,
    /// `log.log`
    LogLog,
    /// `arweave.transactionData`
    ArweaveTransactionData,
    /// `box.profile`
    BoxProfile,
    /// `_registerTest`
    RegisterTest,
    /// `_assert.fieldEquals`
    AssertFieldEquals,
    /// `_assert.equals`
    AssertEquals,
    /// `_assert.notInStore`
    AssertNotInStore,
}

/// The part of the table that every module is linked against.
pub open spec fn core_imports() -> Seq<HostImport> {
    seq![
        HostImport::EthereumCall,
        HostImport::EthereumEncode,
        HostImport::EthereumDecode,
        HostImport::Abort,
        HostImport::MockFunction,
        HostImport::ClearStore,
        HostImport::LogStore,
        HostImport::StoreGet,
        HostImport::StoreSet,
        HostImport::IpfsCat,
        HostImport::IpfsMap,
        HostImport::StoreRemove,
        HostImport::TypeConversionBytesToString,
        HostImport::TypeConversionBytesToHex,
        HostImport::TypeConversionBigIntToString,
        HostImport::TypeConversionBigIntToHex,
        HostImport::TypeConversionStringToH160,
        HostImport::TypeConversionBytesToBase58,
        HostImport::JsonFromBytes,
        HostImport::JsonTryFromBytes,
        HostImport::JsonToI64,
        HostImport::JsonToU64,
        HostImport::JsonToF64,
        HostImport::JsonToBigInt,
        HostImport::CryptoKeccak256,
        HostImport::BigIntPlus,
        HostImport::BigIntMinus,
        HostImport::BigIntTimes,
        HostImport::BigIntDividedBy,
        HostImport::BigIntDividedByDecimal,
        HostImport::BigIntMod,
        HostImport::BigIntPow,
        HostImport::BigIntFromString,
        HostImport::BigIntBitOr,
        HostImport::BigIntBitAnd,
        HostImport::BigIntLeftShift,
        HostImport::BigIntRightShift,
        HostImport::BigDecimalToString,
        HostImport::BigDecimalFromString,
        HostImport::BigDecimalPlus,
        HostImport::BigDecimalMinus,
        HostImport::BigDecimalTimes,
        HostImport::BigDecimalDividedBy,
        HostImport::BigDecimalEquals,
        HostImport::DataSourceCreate,
        HostImport::DataSourceCreateWithContext,
        HostImport::DataSourceAddress,
        HostImport::DataSourceNetwork,
        HostImport::DataSourceContext,
        HostImport::EnsNameByHash,
        HostImport::LogLog,
    ]
}

/// Functions that were withdrawn, but that a legacy module still has to be linked against.
pub open spec fn withdrawn_imports() -> Seq<HostImport> {
    seq![HostImport::ArweaveTransactionData, HostImport::BoxProfile]
}

/// The functions with which a test file registers its tests and states its assertions.
pub open spec fn testing_imports() -> Seq<HostImport> {
    seq![
        HostImport::RegisterTest,
        HostImport::AssertFieldEquals,
        HostImport::AssertEquals,
        HostImport::AssertNotInStore,
    ]
}

/// All functions that a module is linked against, in order. The withdrawn ones are there for
/// a legacy module only.
pub open spec fn import_table(legacy: bool) -> Seq<HostImport> {
    core_imports() + (if legacy { withdrawn_imports() } else { Seq::empty() }) + testing_imports()
}

impl HostImport {
    /// Whether the function was withdrawn and is kept for legacy modules only.
    pub open spec fn withdrawn(self) -> bool {
        self is ArweaveTransactionData || self is BoxProfile
    }

    /// The name under which a guest imports the function.
    pub open spec fn name_text(self) -> Seq<char> {
        match self {
            HostImport::EthereumCall => "ethereum.call"@,
            HostImport::EthereumEncode => "ethereum.encode"@,
            HostImport::EthereumDecode => "ethereum.decode"@,
            HostImport::Abort => "abort"@,
            HostImport::MockFunction => "mockFunction"@,
            HostImport::ClearStore => "clearStore"@,
            HostImport::LogStore => "logStore"@,
            HostImport::StoreGet => "store.get"@,
            HostImport::StoreSet => "store.set"@,
            HostImport::IpfsCat => "ipfs.cat"@,
            HostImport::IpfsMap => "ipfs.map"@,
            HostImport::StoreRemove => "store.remove"@,
            HostImport::TypeConversionBytesToString => "typeConversion.bytesToString"@,
            HostImport::TypeConversionBytesToHex => "typeConversion.bytesToHex"@,
            HostImport::TypeConversionBigIntToString => "typeConversion.bigIntToString"@,
            HostImport::TypeConversionBigIntToHex => "typeConversion.bigIntToHex"@,
            HostImport::TypeConversionStringToH160 => "typeConversion.stringToH160"@,
            HostImport::TypeConversionBytesToBase58 => "typeConversion.bytesToBase58"@,
            HostImport::JsonFromBytes => "json.fromBytes"@,
            HostImport::JsonTryFromBytes => "json.try_fromBytes"@,
            HostImport::JsonToI64 => "json.toI64"@,
            HostImport::JsonToU64 => "json.toU64"@,
            HostImport::JsonToF64 => "json.toF64"@,
            HostImport::JsonToBigInt => "json.toBigInt"@,
            HostImport::CryptoKeccak256 => "crypto.keccak256"@,
            HostImport::BigIntPlus => "bigInt.plus"@,
            HostImport::BigIntMinus => "bigInt.minus"@,
            HostImport::BigIntTimes => "bigInt.times"@,
            HostImport::BigIntDividedBy => "bigInt.dividedBy"@,
            HostImport::BigIntDividedByDecimal => "bigInt.dividedByDecimal"@,
            HostImport::BigIntMod => "bigInt.mod"@,
            HostImport::BigIntPow => "bigInt.pow"@,
            HostImport::BigIntFromString => "bigInt.fromString"@,
            HostImport::BigIntBitOr => "bigInt.bitOr"@,
            HostImport::BigIntBitAnd => "bigInt.bitAnd"@,
            HostImport::BigIntLeftShift => "bigInt.leftShift"@,
            HostImport::BigIntRightShift => "bigInt.rightShift"@,
            HostImport::BigDecimalToString => "bigDecimal.toString"@,
            HostImport::BigDecimalFromString => "bigDecimal.fromString"@,
            HostImport::BigDecimalPlus => "bigDecimal.plus"@,
            HostImport::BigDecimalMinus => "bigDecimal.minus"@,
            HostImport::BigDecimalTimes => "bigDecimal.times"@,
            HostImport::BigDecimalDividedBy => "bigDecimal.dividedBy"@,
            HostImport::BigDecimalEquals => "bigDecimal.equals"@,
            HostImport::DataSourceCreate => "dataSource.create"@,
            HostImport::DataSourceCreateWithContext => "dataSource.createWithContext"@,
            HostImport::DataSourceAddress => "dataSource.address"@,
            HostImport::DataSourceNetwork => "dataSource.network"@,
            HostImport::DataSourceContext => "dataSource.context"@,
            HostImport::EnsNameByHash => "ens.nameByHash"@,
            HostImport::LogLog => "log.log"@,
            HostImport::ArweaveTransactionData => "arweave.transactionData"@,
            HostImport::BoxProfile => "box.profile"@,
            HostImport::RegisterTest => "_registerTest"@,
            HostImport::AssertFieldEquals => "_assert.fieldEquals"@,
            HostImport::AssertEquals => "_assert.equals"@,
            HostImport::AssertNotInStore => "_assert.notInStore"@,
        }
    }

    /// The stopwatch section in which a call is timed.
    pub open spec fn section_text(self) -> Seq<char> {
        match self {
            HostImport::StoreGet => "host_export_store_get"@,
            HostImport::StoreSet => "host_export_store_set"@,
            HostImport::IpfsCat => "host_export_ipfs_cat"@,
            HostImport::IpfsMap => "host_export_ipfs_map"@,
            _ => "host_export_other"@,
        }
    }

    /// How many 32-bit parameters a call carries.
    pub open spec fn parameter_count(self) -> nat {
        match self {
            HostImport::ClearStore
            | HostImport::LogStore
            | HostImport::DataSourceAddress
            | HostImport::DataSourceNetwork
            | HostImport::DataSourceContext => 0,
            HostImport::EthereumDecode
            | HostImport::StoreGet
            | HostImport::StoreRemove
            | HostImport::BigIntPlus
            | HostImport::BigIntMinus
            | HostImport::BigIntTimes
            | HostImport::BigIntDividedBy
            | HostImport::BigIntDividedByDecimal
            | HostImport::BigIntMod
            | HostImport::BigIntPow
            | HostImport::BigIntBitOr
            | HostImport::BigIntBitAnd
            | HostImport::BigIntLeftShift
            | HostImport::BigIntRightShift
            | HostImport::BigDecimalPlus
            | HostImport::BigDecimalMinus
            | HostImport::BigDecimalTimes
            | HostImport::BigDecimalDividedBy
            | HostImport::BigDecimalEquals
            | HostImport::DataSourceCreate
            | HostImport::LogLog
            | HostImport::AssertEquals
            | HostImport::AssertNotInStore => 2,
            HostImport::StoreSet
            | HostImport::DataSourceCreateWithContext
            | HostImport::RegisterTest => 3,
            HostImport::Abort
            | HostImport::IpfsMap
            | HostImport::AssertFieldEquals => 4,
            HostImport::MockFunction => 6,
            _ => 1,
        }
    }

    /// The name under which a guest imports the function.
    pub fn name(&self) -> (name: &'static str)
        ensures
            name@ == self.name_text(),
    {
        match self {
            HostImport::EthereumCall => "ethereum.call",
            HostImport::EthereumEncode => "ethereum.encode",
            HostImport::EthereumDecode => "ethereum.decode",
            HostImport::Abort => "abort",
            HostImport::MockFunction => "mockFunction",
            HostImport::ClearStore => "clearStore",
            HostImport::LogStore => "logStore",
            HostImport::StoreGet => "store.get",
            HostImport::StoreSet => "store.set",
            HostImport::IpfsCat => "ipfs.cat",
            HostImport::IpfsMap => "ipfs.map",
            HostImport::StoreRemove => "store.remove",
            HostImport::TypeConversionBytesToString => "typeConversion.bytesToString",
            HostImport::TypeConversionBytesToHex => "typeConversion.bytesToHex",
            HostImport::TypeConversionBigIntToString => "typeConversion.bigIntToString",
            HostImport::TypeConversionBigIntToHex => "typeConversion.bigIntToHex",
            HostImport::TypeConversionStringToH160 => "typeConversion.stringToH160",
            HostImport::TypeConversionBytesToBase58 => "typeConversion.bytesToBase58",
            HostImport::JsonFromBytes => "json.fromBytes",
            HostImport::JsonTryFromBytes => "json.try_fromBytes",
            HostImport::JsonToI64 => "json.toI64",
            HostImport::JsonToU64 => "json.toU64",
            HostImport::JsonToF64 => "json.toF64",
            HostImport::JsonToBigInt => "json.toBigInt",
            HostImport::CryptoKeccak256 => "crypto.keccak256",
            HostImport::BigIntPlus => "bigInt.plus",
            HostImport::BigIntMinus => "bigInt.minus",
            HostImport::BigIntTimes => "bigInt.times",
            HostImport::BigIntDividedBy => "bigInt.dividedBy",
            HostImport::BigIntDividedByDecimal => "bigInt.dividedByDecimal",
            HostImport::BigIntMod => "bigInt.mod",
            HostImport::BigIntPow => "bigInt.pow",
            HostImport::BigIntFromString => "bigInt.fromString",
            HostImport::BigIntBitOr => "bigInt.bitOr",
            HostImport::BigIntBitAnd => "bigInt.bitAnd",
            HostImport::BigIntLeftShift => "bigInt.leftShift",
            HostImport::BigIntRightShift => "bigInt.rightShift",
            HostImport::BigDecimalToString => "bigDecimal.toString",
            HostImport::BigDecimalFromString => "bigDecimal.fromString",
            HostImport::BigDecimalPlus => "bigDecimal.plus",
            HostImport::BigDecimalMinus => "bigDecimal.minus",
            HostImport::BigDecimalTimes => "bigDecimal.times",
            HostImport::BigDecimalDividedBy => "bigDecimal.dividedBy",
            HostImport::BigDecimalEquals => "bigDecimal.equals",
            HostImport::DataSourceCreate => "dataSource.create",
            HostImport::DataSourceCreateWithContext => "dataSource.createWithContext",
            HostImport::DataSourceAddress => "dataSource.address",
            HostImport::DataSourceNetwork => "dataSource.network",
            HostImport::DataSourceContext => "dataSource.context",
            HostImport::EnsNameByHash => "ens.nameByHash",
            HostImport::LogLog => "log.log",
            HostImport::ArweaveTransactionData => "arweave.transactionData",
            HostImport::BoxProfile => "box.profile",
            HostImport::RegisterTest => "_registerTest",
            HostImport::AssertFieldEquals => "_assert.fieldEquals",
            HostImport::AssertEquals => "_assert.equals",
            HostImport::AssertNotInStore => "_assert.notInStore",
        }
    }

    /// The stopwatch section in which a call is timed.
    pub fn section(&self) -> (section: &'static str)
        ensures
            section@ == self.section_text(),
    {
        match self {
            HostImport::StoreGet => "host_export_store_get",
            HostImport::StoreSet => "host_export_store_set",
            HostImport::IpfsCat => "host_export_ipfs_cat",
            HostImport::IpfsMap => "host_export_ipfs_map",
            _ => "host_export_other",
        }
    }

    /// How many 32-bit parameters a call carries.
    pub fn parameters(&self) -> (count: usize)
        ensures
            count == self.parameter_count(),
    {
        match self {
            HostImport::ClearStore
            | HostImport::LogStore
            | HostImport::DataSourceAddress
            | HostImport::DataSourceNetwork
            | HostImport::DataSourceContext => 0,
            HostImport::EthereumDecode
            | HostImport::StoreGet
            | HostImport::StoreRemove
            | HostImport::BigIntPlus
            | HostImport::BigIntMinus
            | HostImport::BigIntTimes
            | HostImport::BigIntDividedBy
            | HostImport::BigIntDividedByDecimal
            | HostImport::BigIntMod
            | HostImport::BigIntPow
            | HostImport::BigIntBitOr
            | HostImport::BigIntBitAnd
            | HostImport::BigIntLeftShift
            | HostImport::BigIntRightShift
            | HostImport::BigDecimalPlus
            | HostImport::BigDecimalMinus
            | HostImport::BigDecimalTimes
            | HostImport::BigDecimalDividedBy
            | HostImport::BigDecimalEquals
            | HostImport::DataSourceCreate
            | HostImport::LogLog
            | HostImport::AssertEquals
            | HostImport::AssertNotInStore => 2,
            HostImport::StoreSet
            | HostImport::DataSourceCreateWithContext
            | HostImport::RegisterTest => 3,
            HostImport::Abort
            | HostImport::IpfsMap
            | HostImport::AssertFieldEquals => 4,
            HostImport::MockFunction => 6,
            _ => 1,
        }
    }

    /// All functions that a module is linked against, in order.
    pub fn table(legacy: bool) -> (table: Vec<HostImport>)
        ensures
            table@ == import_table(legacy),
    {
        let mut table: Vec<HostImport> = vec![
            HostImport::EthereumCall,
            HostImport::EthereumEncode,
            HostImport::EthereumDecode,
            HostImport::Abort,
            HostImport::MockFunction,
            HostImport::ClearStore,
            HostImport::LogStore,
            HostImport::StoreGet,
            HostImport::StoreSet,
            HostImport::IpfsCat,
            HostImport::IpfsMap,
            HostImport::StoreRemove,
            HostImport::TypeConversionBytesToString,
            HostImport::TypeConversionBytesToHex,
            HostImport::TypeConversionBigIntToString,
            HostImport::TypeConversionBigIntToHex,
            HostImport::TypeConversionStringToH160,
            HostImport::TypeConversionBytesToBase58,
            HostImport::JsonFromBytes,
            HostImport::JsonTryFromBytes,
            HostImport::JsonToI64,
            HostImport::JsonToU64,
            HostImport::JsonToF64,
            HostImport::JsonToBigInt,
            HostImport::CryptoKeccak256,
            HostImport::BigIntPlus,
            HostImport::BigIntMinus,
            HostImport::BigIntTimes,
            HostImport::BigIntDividedBy,
            HostImport::BigIntDividedByDecimal,
            HostImport::BigIntMod,
            HostImport::BigIntPow,
            HostImport::BigIntFromString,
            HostImport::BigIntBitOr,
            HostImport::BigIntBitAnd,
            HostImport::BigIntLeftShift,
            HostImport::BigIntRightShift,
            HostImport::BigDecimalToString,
            HostImport::BigDecimalFromString,
            HostImport::BigDecimalPlus,
            HostImport::BigDecimalMinus,
            HostImport::BigDecimalTimes,
            HostImport::BigDecimalDividedBy,
            HostImport::BigDecimalEquals,
            HostImport::DataSourceCreate,
            HostImport::DataSourceCreateWithContext,
            HostImport::DataSourceAddress,
            HostImport::DataSourceNetwork,
            HostImport::DataSourceContext,
            HostImport::EnsNameByHash,
            HostImport::LogLog,
        ];
        if legacy {
            table.push(HostImport::ArweaveTransactionData);
            table.push(HostImport::BoxProfile);
        }
        table.push(HostImport::RegisterTest);
        table.push(HostImport::AssertFieldEquals);
        table.push(HostImport::AssertEquals);
        table.push(HostImport::AssertNotInStore);
        assert(table@ =~= import_table(legacy));
        table
    }
}

impl HostImport {
    /// Length, fifth last and third last character of the import name. No two names agree in
    /// all three.
    spec fn fingerprint(self) -> (nat, char, char) {
        match self {
            HostImport::EthereumCall => (13, '.', 'a'),
            HostImport::EthereumEncode => (15, 'n', 'o'),
            HostImport::EthereumDecode => (15, 'e', 'o'),
            HostImport::Abort => (5, 'a', 'o'),
            HostImport::MockFunction => (12, 'c', 'i'),
            HostImport::ClearStore => (10, 'S', 'o'),
            HostImport::LogStore => (8, 'S', 'o'),
            HostImport::StoreGet => (9, 'e', 'g'),
            HostImport::StoreSet => (9, 'e', 's'),
            HostImport::IpfsCat => (8, 's', 'c'),
            HostImport::IpfsMap => (8, 's', 'm'),
            HostImport::StoreRemove => (12, 'e', 'o'),
            HostImport::TypeConversionBytesToString => (28, 't', 'i'),
            HostImport::TypeConversionBytesToHex => (25, 'T', 'H'),
            HostImport::TypeConversionBigIntToString => (29, 't', 'i'),
            HostImport::TypeConversionBigIntToHex => (26, 'T', 'H'),
            HostImport::TypeConversionStringToH160 => (27, 'o', '1'),
            HostImport::TypeConversionBytesToBase58 => (28, 'a', 'e'),
            HostImport::JsonFromBytes => (14, 'B', 't'),
            HostImport::JsonTryFromBytes => (18, 'B', 't'),
            HostImport::JsonToI64 => (10, 't', 'I'),
            HostImport::JsonToU64 => (10, 't', 'U'),
            HostImport::JsonToF64 => (10, 't', 'F'),
            HostImport::JsonToBigInt => (13, 'i', 'I'),
            HostImport::CryptoKeccak256 => (16, 'a', '2'),
            HostImport::BigIntPlus => (11, '.', 'l'),
            HostImport::BigIntMinus => (12, 'm', 'n'),
            HostImport::BigIntTimes => (12, 't', 'm'),
            HostImport::BigIntDividedBy => (16, 'd', 'd'),
            HostImport::BigIntDividedByDecimal => (23, 'c', 'm'),
            HostImport::BigIntMod => (10, 't', 'm'),
            HostImport::BigIntPow => (10, 't', 'p'),
            HostImport::BigIntFromString => (17, 't', 'i'),
            HostImport::BigIntBitOr => (12, 'b', 't'),
            HostImport::BigIntBitAnd => (13, 'i', 'A'),
            HostImport::BigIntLeftShift => (16, 'S', 'i'),
            HostImport::BigIntRightShift => (17, 'S', 'i'),
            HostImport::BigDecimalToString => (19, 't', 'i'),
            HostImport::BigDecimalFromString => (21, 't', 'i'),
            HostImport::BigDecimalPlus => (15, '.', 'l'),
            HostImport::BigDecimalMinus => (16, 'm', 'n'),
            HostImport::BigDecimalTimes => (16, 't', 'm'),
            HostImport::BigDecimalDividedBy => (20, 'd', 'd'),
            HostImport::BigDecimalEquals => (17, 'q', 'a'),
            HostImport::DataSourceCreate => (17, 'r', 'a'),
            HostImport::DataSourceCreateWithContext => (28, 'n', 'e'),
            HostImport::DataSourceAddress => (18, 'd', 'e'),
            HostImport::DataSourceNetwork => (18, 't', 'o'),
            HostImport::DataSourceContext => (18, 'n', 'e'),
            HostImport::EnsNameByHash => (14, 'y', 'a'),
            HostImport::LogLog => (7, 'g', 'l'),
            HostImport::ArweaveTransactionData => (23, 'n', 'a'),
            HostImport::BoxProfile => (11, 'o', 'i'),
            HostImport::RegisterTest => (13, 'r', 'e'),
            HostImport::AssertFieldEquals => (19, 'q', 'a'),
            HostImport::AssertEquals => (14, 'q', 'a'),
            HostImport::AssertNotInStore => (18, 'S', 'o'),
        }
    }

    /// The place in the full table.
    spec fn rank(self) -> int {
        match self {
            HostImport::EthereumCall => 0,
            HostImport::EthereumEncode => 1,
            HostImport::EthereumDecode => 2,
            HostImport::Abort => 3,
            HostImport::MockFunction => 4,
            HostImport::ClearStore => 5,
            HostImport::LogStore => 6,
            HostImport::StoreGet => 7,
            HostImport::StoreSet => 8,
            HostImport::IpfsCat => 9,
            HostImport::IpfsMap => 10,
            HostImport::StoreRemove => 11,
            HostImport::TypeConversionBytesToString => 12,
            HostImport::TypeConversionBytesToHex => 13,
            HostImport::TypeConversionBigIntToString => 14,
            HostImport::TypeConversionBigIntToHex => 15,
            HostImport::TypeConversionStringToH160 => 16,
            HostImport::TypeConversionBytesToBase58 => 17,
            HostImport::JsonFromBytes => 18,
            HostImport::JsonTryFromBytes => 19,
            HostImport::JsonToI64 => 20,
            HostImport::JsonToU64 => 21,
            HostImport::JsonToF64 => 22,
            HostImport::JsonToBigInt => 23,
            HostImport::CryptoKeccak256 => 24,
            HostImport::BigIntPlus => 25,
            HostImport::BigIntMinus => 26,
            HostImport::BigIntTimes => 27,
            HostImport::BigIntDividedBy => 28,
            HostImport::BigIntDividedByDecimal => 29,
            HostImport::BigIntMod => 30,
            HostImport::BigIntPow => 31,
            HostImport::BigIntFromString => 32,
            HostImport::BigIntBitOr => 33,
            HostImport::BigIntBitAnd => 34,
            HostImport::BigIntLeftShift => 35,
            HostImport::BigIntRightShift => 36,
            HostImport::BigDecimalToString => 37,
            HostImport::BigDecimalFromString => 38,
            HostImport::BigDecimalPlus => 39,
            HostImport::BigDecimalMinus => 40,
            HostImport::BigDecimalTimes => 41,
            HostImport::BigDecimalDividedBy => 42,
            HostImport::BigDecimalEquals => 43,
            HostImport::DataSourceCreate => 44,
            HostImport::DataSourceCreateWithContext => 45,
            HostImport::DataSourceAddress => 46,
            HostImport::DataSourceNetwork => 47,
            HostImport::DataSourceContext => 48,
            HostImport::EnsNameByHash => 49,
            HostImport::LogLog => 50,
            HostImport::ArweaveTransactionData => 51,
            HostImport::BoxProfile => 52,
            HostImport::RegisterTest => 53,
            HostImport::AssertFieldEquals => 54,
            HostImport::AssertEquals => 55,
            HostImport::AssertNotInStore => 56,
        }
    }
}

proof fn lemma_fingerprint(import: HostImport)
    ensures
        ({
            let name = import.name_text();
            import.fingerprint() == (name.len(), name[name.len() - 5], name[name.len() - 3])
        }),
{
    match import {
        HostImport::EthereumCall => {
            reveal_strlit("ethereum.call");
        },
        HostImport::EthereumEncode => {
            reveal_strlit("ethereum.encode");
        },
        HostImport::EthereumDecode => {
            reveal_strlit("ethereum.decode");
        },
        HostImport::Abort => {
            reveal_strlit("abort");
        },
        HostImport::MockFunction => {
            reveal_strlit("mockFunction");
        },
        HostImport::ClearStore => {
            reveal_strlit("clearStore");
        },
        HostImport::LogStore => {
            reveal_strlit("logStore");
        },
        HostImport::StoreGet => {
            reveal_strlit("store.get");
        },
        HostImport::StoreSet => {
            reveal_strlit("store.set");
        },
        HostImport::IpfsCat => {
            reveal_strlit("ipfs.cat");
        },
        HostImport::IpfsMap => {
            reveal_strlit("ipfs.map");
        },
        HostImport::StoreRemove => {
            reveal_strlit("store.remove");
        },
        HostImport::TypeConversionBytesToString => {
            reveal_strlit("typeConversion.bytesToString");
        },
        HostImport::TypeConversionBytesToHex => {
            reveal_strlit("typeConversion.bytesToHex");
        },
        HostImport::TypeConversionBigIntToString => {
            reveal_strlit("typeConversion.bigIntToString");
        },
        HostImport::TypeConversionBigIntToHex => {
            reveal_strlit("typeConversion.bigIntToHex");
        },
        HostImport::TypeConversionStringToH160 => {
            reveal_strlit("typeConversion.stringToH160");
        },
        HostImport::TypeConversionBytesToBase58 => {
            reveal_strlit("typeConversion.bytesToBase58");
        },
        HostImport::JsonFromBytes => {
            reveal_strlit("json.fromBytes");
        },
        HostImport::JsonTryFromBytes => {
            reveal_strlit("json.try_fromBytes");
        },
        HostImport::JsonToI64 => {
            reveal_strlit("json.toI64");
        },
        HostImport::JsonToU64 => {
            reveal_strlit("json.toU64");
        },
        HostImport::JsonToF64 => {
            reveal_strlit("json.toF64");
        },
        HostImport::JsonToBigInt => {
            reveal_strlit("json.toBigInt");
        },
        HostImport::CryptoKeccak256 => {
            reveal_strlit("crypto.keccak256");
        },
        HostImport::BigIntPlus => {
            reveal_strlit("bigInt.plus");
        },
        HostImport::BigIntMinus => {
            reveal_strlit("bigInt.minus");
        },
        HostImport::BigIntTimes => {
            reveal_strlit("bigInt.times");
        },
        HostImport::BigIntDividedBy => {
            reveal_strlit("bigInt.dividedBy");
        },
        HostImport::BigIntDividedByDecimal => {
            reveal_strlit("bigInt.dividedByDecimal");
        },
        HostImport::BigIntMod => {
            reveal_strlit("bigInt.mod");
        },
        HostImport::BigIntPow => {
            reveal_strlit("bigInt.pow");
        },
        HostImport::BigIntFromString => {
            reveal_strlit("bigInt.fromString");
        },
        HostImport::BigIntBitOr => {
            reveal_strlit("bigInt.bitOr");
        },
        HostImport::BigIntBitAnd => {
            reveal_strlit("bigInt.bitAnd");
        },
        HostImport::BigIntLeftShift => {
            reveal_strlit("bigInt.leftShift");
        },
        HostImport::BigIntRightShift => {
            reveal_strlit("bigInt.rightShift");
        },
        HostImport::BigDecimalToString => {
            reveal_strlit("bigDecimal.toString");
        },
        HostImport::BigDecimalFromString => {
            reveal_strlit("bigDecimal.fromString");
        },
        HostImport::BigDecimalPlus => {
            reveal_strlit("bigDecimal.plus");
        },
        HostImport::BigDecimalMinus => {
            reveal_strlit("bigDecimal.minus");
        },
        HostImport::BigDecimalTimes => {
            reveal_strlit("bigDecimal.times");
        },
        HostImport::BigDecimalDividedBy => {
            reveal_strlit("bigDecimal.dividedBy");
        },
        HostImport::BigDecimalEquals => {
            reveal_strlit("bigDecimal.equals");
        },
        HostImport::DataSourceCreate => {
            reveal_strlit("dataSource.create");
        },
        HostImport::DataSourceCreateWithContext => {
            reveal_strlit("dataSource.createWithContext");
        },
        HostImport::DataSourceAddress => {
            reveal_strlit("dataSource.address");
        },
        HostImport::DataSourceNetwork => {
            reveal_strlit("dataSource.network");
        },
        HostImport::DataSourceContext => {
            reveal_strlit("dataSource.context");
        },
        HostImport::EnsNameByHash => {
            reveal_strlit("ens.nameByHash");
        },
        HostImport::LogLog => {
            reveal_strlit("log.log");
        },
        HostImport::ArweaveTransactionData => {
            reveal_strlit("arweave.transactionData");
        },
        HostImport::BoxProfile => {
            reveal_strlit("box.profile");
        },
        HostImport::RegisterTest => {
            reveal_strlit("_registerTest");
        },
        HostImport::AssertFieldEquals => {
            reveal_strlit("_assert.fieldEquals");
        },
        HostImport::AssertEquals => {
            reveal_strlit("_assert.equals");
        },
        HostImport::AssertNotInStore => {
            reveal_strlit("_assert.notInStore");
        },
    }
}

/// No two functions share an import name.
pub proof fn law_import_names_differ(a: HostImport, b: HostImport)
    requires
        a != b,
    ensures
        a.name_text() != b.name_text(),
{
    lemma_fingerprint(a);
    lemma_fingerprint(b);
}

proof fn lemma_rank_of_entry(i: int)
    requires
        0 <= i < import_table(true).len(),
    ensures
        import_table(true)[i].rank() == i,
{
}

proof fn lemma_entry_at_rank(import: HostImport)
    ensures
        0 <= import.rank() < import_table(true).len(),
        import_table(true)[import.rank()] == import,
{
}

/// Every function stands in the table exactly when it is not withdrawn, or the module is legacy.
pub proof fn law_table_is_complete(legacy: bool, import: HostImport)
    ensures
        import_table(legacy).contains(import) <==> (legacy || !import.withdrawn()),
{
    lemma_entry_at_rank(import);
    let full = import_table(true);
    let table = import_table(legacy);
    let at = import.rank();
    if legacy {
        assert(table[at] == import);
    } else if import.withdrawn() {
        assert forall|i: int| 0 <= i < table.len() implies table[i] != import by {
            let there = if i < core_imports().len() { i } else { i + 2 };
            lemma_rank_of_entry(there);
            assert(table[i] == full[there]);
        }
    } else {
        let here = if at < core_imports().len() { at } else { at - 2 };
        assert(table[here] == import);
    }
}

/// No function stands in the table twice.
pub proof fn law_table_has_no_repeats(legacy: bool)
    ensures
        import_table(legacy).no_duplicates(),
{
    let full = import_table(true);
    let table = import_table(legacy);
    assert forall|i: int, j: int| 0 <= i < j < table.len() implies table[i] != table[j] by {
        let shift: int = if legacy { 0 } else { 2 };
        let fi = if i < core_imports().len() { i } else { i + shift };
        let fj = if j < core_imports().len() { j } else { j + shift };
        lemma_rank_of_entry(fi);
        lemma_rank_of_entry(fj);
        assert(table[i] == full[fi]);
        assert(table[j] == full[fj]);
    }
}

} // verus!
