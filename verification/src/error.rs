//! The closed set of failures the SDK reports, each with its structured context.

use vstd::prelude::*;

verus! {

/// The error of the JSON (de)serializer, carried through unopened.
#[verifier::external_type_specification]
#[verifier::external_body]
pub struct ExSerdeJsonError(serde_json::Error);

/// The error of the hex decoder, carried through unopened.
#[verifier::external_type_specification]
#[verifier::external_body]
pub struct ExFromHexError(hex::FromHexError);

/// Result type of SDK operations.
pub type Result<T> = std::result::Result<T, EilError>;

/// Errors that can occur when using the SDK.
#[derive(Debug)]
pub enum EilError {
    /// Chain not supported or configured.
    UnsupportedChain(u64),
    /// No usable address for an entity on a chain.
    InvalidAddress { chain_id: u64, address: String },
    /// No voucher request is registered under this reference id.
    VoucherNotFound(String),
    /// A voucher request with this reference id is already registered.
    DuplicateVoucher(String),
    /// A voucher request created on the given chain is used by no batch.
    VoucherNotConsumed(String, u64),
    /// The voucher request was already consumed by a batch.
    VoucherAlreadyUsed(String),
    /// The voucher request targets another chain than the batch that uses it.
    InvalidVoucherDestination { expected: u64, actual: u64 },
    /// No account was bound before building.
    AccountNotSet,
    /// An account was bound twice.
    AccountAlreadySet,
    /// The builder already produced its executor.
    BuilderAlreadyBuilt,
    /// A contract has no deployment on a chain.
    ContractNotDeployed { name: String, chain_id: u64, address: String },
    /// A contract deployment does not offer a function.
    ContractNotSupported {
        name: String,
        chain_id: u64,
        address: String,
        function: String,
        reason: String,
    },
    /// No liquidity provider on the destination chain can cover the request.
    NoXlpsFound(u64),
    /// Fewer liquidity providers than required can cover the request.
    InsufficientXlps { found: usize, required: usize, chain_id: u64 },
    /// A runtime variable name is longer than eight bytes.
    InvalidVariableName(String),
    /// A runtime variable is set from a call, or used in one, that cannot be resolved yet.
    DynamicVariableCall(String),
    /// A voucher request whose destination is its own source chain.
    SameChainVoucher(u64),
    /// Paymaster overrides are not allowed in a batch that uses vouchers.
    CannotOverridePaymaster,
    /// No voucher request exists for a chain.
    NoVoucherForChain(u64),
    /// An operation reached the executor without a signature.
    UserOpNotSigned,
    /// `execute` was started twice.
    ExecutionAlreadyStarted,
    /// The execution did not finish within this many seconds.
    ExecutionTimeout(u64),
    /// Provider transport failure.
    AlloyProvider(String),
    /// Contract call failure.
    AlloyContract(String),
    /// Signer failure.
    AlloySigner(String),
    /// JSON (de)serialization failure.
    Serialization(serde_json::Error),
    /// Hex decoding failure.
    HexDecode(hex::FromHexError),
    /// Any other failure, as text.
    Generic(String),
}

/// What an `EilError` stands for: the same variants, with texts as character
/// sequences.
pub enum EilErrorView {
    UnsupportedChain(u64),
    InvalidAddress { chain_id: u64, address: Seq<char> },
    VoucherNotFound(Seq<char>),
    DuplicateVoucher(Seq<char>),
    VoucherNotConsumed(Seq<char>, u64),
    VoucherAlreadyUsed(Seq<char>),
    InvalidVoucherDestination { expected: u64, actual: u64 },
    AccountNotSet,
    AccountAlreadySet,
    BuilderAlreadyBuilt,
    ContractNotDeployed { name: Seq<char>, chain_id: u64, address: Seq<char> },
    ContractNotSupported {
        name: Seq<char>,
        chain_id: u64,
        address: Seq<char>,
        function: Seq<char>,
        reason: Seq<char>,
    },
    NoXlpsFound(u64),
    InsufficientXlps { found: usize, required: usize, chain_id: u64 },
    InvalidVariableName(Seq<char>),
    DynamicVariableCall(Seq<char>),
    SameChainVoucher(u64),
    CannotOverridePaymaster,
    NoVoucherForChain(u64),
    UserOpNotSigned,
    ExecutionAlreadyStarted,
    ExecutionTimeout(u64),
    AlloyProvider(Seq<char>),
    AlloyContract(Seq<char>),
    AlloySigner(Seq<char>),
    Serialization(serde_json::Error),
    HexDecode(hex::FromHexError),
    Generic(Seq<char>),
}

impl View for EilError {
    type V = EilErrorView;

    open spec fn view(&self) -> EilErrorView {
        match *self {
            EilError::UnsupportedChain(c) => EilErrorView::UnsupportedChain(c),
            EilError::InvalidAddress { chain_id, address } => EilErrorView::InvalidAddress {
                chain_id,
                address: address@,
            },
            EilError::VoucherNotFound(id) => EilErrorView::VoucherNotFound(id@),
            EilError::DuplicateVoucher(id) => EilErrorView::DuplicateVoucher(id@),
            EilError::VoucherNotConsumed(id, c) => EilErrorView::VoucherNotConsumed(id@, c),
            EilError::VoucherAlreadyUsed(id) => EilErrorView::VoucherAlreadyUsed(id@),
            EilError::InvalidVoucherDestination {
                expected,
                actual,
            } => EilErrorView::InvalidVoucherDestination { expected, actual },
            EilError::AccountNotSet => EilErrorView::AccountNotSet,
            EilError::AccountAlreadySet => EilErrorView::AccountAlreadySet,
            EilError::BuilderAlreadyBuilt => EilErrorView::BuilderAlreadyBuilt,
            EilError::ContractNotDeployed {
                name,
                chain_id,
                address,
            } => EilErrorView::ContractNotDeployed { name: name@, chain_id, address: address@ },
            EilError::ContractNotSupported {
                name,
                chain_id,
                address,
                function,
                reason,
            } => EilErrorView::ContractNotSupported {
                name: name@,
                chain_id,
                address: address@,
                function: function@,
                reason: reason@,
            },
            EilError::NoXlpsFound(c) => EilErrorView::NoXlpsFound(c),
            EilError::InsufficientXlps { found, required, chain_id } => EilErrorView::InsufficientXlps {
                found,
                required,
                chain_id,
            },
            EilError::InvalidVariableName(n) => EilErrorView::InvalidVariableName(n@),
            EilError::DynamicVariableCall(n) => EilErrorView::DynamicVariableCall(n@),
            EilError::SameChainVoucher(c) => EilErrorView::SameChainVoucher(c),
            EilError::CannotOverridePaymaster => EilErrorView::CannotOverridePaymaster,
            EilError::NoVoucherForChain(c) => EilErrorView::NoVoucherForChain(c),
            EilError::UserOpNotSigned => EilErrorView::UserOpNotSigned,
            EilError::ExecutionAlreadyStarted => EilErrorView::ExecutionAlreadyStarted,
            EilError::ExecutionTimeout(s) => EilErrorView::ExecutionTimeout(s),
            EilError::AlloyProvider(m) => EilErrorView::AlloyProvider(m@),
            EilError::AlloyContract(m) => EilErrorView::AlloyContract(m@),
            EilError::AlloySigner(m) => EilErrorView::AlloySigner(m@),
            EilError::Serialization(e) => EilErrorView::Serialization(e),
            EilError::HexDecode(e) => EilErrorView::HexDecode(e),
            EilError::Generic(m) => EilErrorView::Generic(m@),
        }
    }
}

impl From<String> for EilError {
    fn from(s: String) -> (e: EilError) {
        EilError::Generic(s)
    }
}

impl vstd::std_specs::convert::FromSpecImpl<String> for EilError {
    open spec fn obeys_from_spec() -> bool {
        true
    }

    open spec fn from_spec(s: String) -> EilError {
        EilError::Generic(s)
    }
}

impl From<&str> for EilError {
    fn from(s: &str) -> (e: EilError) {
        EilError::Generic(s.to_owned())
    }
}

impl vstd::std_specs::convert::FromSpecImpl<&str> for EilError {
    /// The text of the error is the text given; which `String` holds it is not
    /// determined.
    open spec fn obeys_from_spec() -> bool {
        false
    }

    open spec fn from_spec(s: &str) -> EilError {
        arbitrary()
    }
}

impl From<serde_json::Error> for EilError {
    fn from(e: serde_json::Error) -> (r: EilError) {
        EilError::Serialization(e)
    }
}

impl vstd::std_specs::convert::FromSpecImpl<serde_json::Error> for EilError {
    open spec fn obeys_from_spec() -> bool {
        true
    }

    open spec fn from_spec(e: serde_json::Error) -> EilError {
        EilError::Serialization(e)
    }
}

impl From<hex::FromHexError> for EilError {
    fn from(e: hex::FromHexError) -> (r: EilError) {
        EilError::HexDecode(e)
    }
}

impl vstd::std_specs::convert::FromSpecImpl<hex::FromHexError> for EilError {
    open spec fn obeys_from_spec() -> bool {
        true
    }

    open spec fn from_spec(e: hex::FromHexError) -> EilError {
        EilError::HexDecode(e)
    }
}

} // verus!
