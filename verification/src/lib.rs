//! Interface-contract fingerprinting: a schema for the public surface of a
//! component, a canonical byte encoding of every schema item, a 16-bit
//! checksum over that encoding, and the entry-point names derived from a
//! declaration's identity.

pub mod callable;
pub mod contract;
pub mod encoding;
pub mod ffi_names;
pub mod hasher;
pub mod laws;
pub mod literal;
pub mod map;
pub mod metadata;
pub mod object;
pub mod record;
pub mod types;

pub use callable::{
    ConstructorMetadata, FnMetadata, FnParamMetadata, MethodMetadata, TraitMethodMetadata,
};
pub use contract::{
    check_contract, check_contract_version, find_mismatches, ChecksumReport, ContractError,
    UNIFFI_CONTRACT_VERSION,
};
pub use encoding::{checksum, Checksum};
pub use ffi_names::{
    constructor_checksum_symbol_name, constructor_symbol_name, fn_checksum_symbol_name,
    fn_symbol_name, free_fn_symbol_name, method_checksum_symbol_name, method_symbol_name,
};
pub use hasher::ChecksumHasher;
pub use literal::{LiteralMetadata, Radix};
pub use metadata::{Metadata, NamespaceMetadata, UdlFile};
pub use object::{
    CallbackInterfaceMetadata, CustomTypeMetadata, ObjectMetadata, UniffiTraitMetadata,
};
pub use record::{EnumMetadata, ErrorMetadata, FieldMetadata, RecordMetadata, VariantMetadata};
pub use types::{ExternalKind, ObjectImpl, Type};
