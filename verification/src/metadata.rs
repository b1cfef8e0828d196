//! Runtime metadata: modules with their storage entries, constants, calls,
//! events and errors, and the constants derived from them.
use crate::argument::ArgumentDecodeError;
use crate::argument_meta::{ArgumentMeta, ConversionError};
use vstd::prelude::*;

verus! {

/// Failure to read runtime metadata or something in it.
#[derive(Debug)]
pub enum MetadataError {
    /// No module of that name.
    ModuleNotFound(String),
    /// The metadata could not be converted.
    Conversion(ConversionError),
    /// A constant's bytes do not hold a value of the type asked for.
    ConstantValueError,
    /// No constant of that name.
    ConstantNotFound(String),
    /// An event has an argument of a primitive type that is not understood.
    Argument(ArgumentDecodeError),
}

/// Constants derived from the metadata once it is read.
#[derive(Debug)]
pub struct RuntimeConfig {
    pub expected_block_time_millis: u64,
    pub epoch_duration_blocks: u64,
    pub epoch_duration_millis: u64,
    pub sessions_per_era: u32,
    pub max_nominations: u32,
    pub era_duration_blocks: u64,
    pub era_duration_millis: u64,
    pub spec_name: String,
    pub spec_version: u32,
    pub tx_version: u32,
}

impl Default for RuntimeConfig {
    fn default() -> (config: RuntimeConfig)
        ensures
            config.expected_block_time_millis == 0,
            config.epoch_duration_blocks == 0,
            config.epoch_duration_millis == 0,
            config.sessions_per_era == 0,
            config.max_nominations == 0,
            config.era_duration_blocks == 0,
            config.era_duration_millis == 0,
            config.spec_name@ == Seq::<char>::empty(),
            config.spec_version == 0,
            config.tx_version == 0,
    {
        RuntimeConfig {
            expected_block_time_millis: 0,
            epoch_duration_blocks: 0,
            epoch_duration_millis: 0,
            sessions_per_era: 0,
            max_nominations: 0,
            era_duration_blocks: 0,
            era_duration_millis: 0,
            spec_name: String::new(),
            spec_version: 0,
            tx_version: 0,
        }
    }
}

impl Clone for RuntimeConfig {
    fn clone(&self) -> (copy: RuntimeConfig)
        ensures
            copy == *self,
    {
        RuntimeConfig {
            expected_block_time_millis: self.expected_block_time_millis,
            epoch_duration_blocks: self.epoch_duration_blocks,
            epoch_duration_millis: self.epoch_duration_millis,
            sessions_per_era: self.sessions_per_era,
            max_nominations: self.max_nominations,
            era_duration_blocks: self.era_duration_blocks,
            era_duration_millis: self.era_duration_millis,
            spec_name: self.spec_name.clone(),
            spec_version: self.spec_version,
            tx_version: self.tx_version,
        }
    }
}

/// Metadata versions that are read.
#[derive(Clone, Copy, Debug, PartialEq, Eq, Structural)]
pub enum MetadataVersion {
    V12,
    V13,
}

/// Whether a storage entry without a value reads as nothing or as its default.
#[derive(Clone, Copy, Debug, PartialEq, Eq, Structural)]
pub enum StorageEntryModifier {
    Optional,
    Default,
}

/// The ways a storage key is hashed.
#[derive(Clone, Copy, Debug, PartialEq, Eq, Structural)]
pub enum HasherKind {
    Identity,
    Blake2_128,
    Blake2_128Concat,
    Blake2_256,
    Twox128,
    Twox256,
    Twox64Concat,
}

/// A storage hasher, by the metadata version that named it.
#[derive(Clone, Copy, Debug, PartialEq, Eq, Structural)]
pub enum StorageHasher {
    V12(HasherKind),
    V13(HasherKind),
}

impl StorageHasher {
    /// The hashing function, whatever the version.
    pub open spec fn spec_kind(self) -> HasherKind {
        match self {
            StorageHasher::V12(kind) => kind,
            StorageHasher::V13(kind) => kind,
        }
    }

    /// The hashing function, whatever the version.
    #[verifier::when_used_as_spec(spec_kind)]
    pub fn kind(self) -> (kind: HasherKind)
        ensures
            kind == self.spec_kind(),
    {
        match self {
            StorageHasher::V12(kind) => kind,
            StorageHasher::V13(kind) => kind,
        }
    }
}

/// How a storage entry is keyed, with the names of its key and value types.
#[derive(Debug)]
pub enum StorageEntryShape {
    Plain(String),
    SingleMap { hasher: HasherKind, key: String, value: String, unused: bool },
    DoubleMap { hasher: HasherKind, key1: String, key2: String, value: String, key2_hasher: HasherKind },
    NMap { keys: String, hashers: Vec<HasherKind>, value: String },
}

/// A storage entry's shape, by the metadata version that described it.
#[derive(Debug)]
pub enum StorageEntryType {
    V12(StorageEntryShape),
    V13(StorageEntryShape),
}

/// A storage entry of a module.
#[derive(Debug)]
pub struct StorageMetadata {
    pub module_prefix: String,
    pub storage_prefix: String,
    pub modifier: StorageEntryModifier,
    pub ty: StorageEntryType,
    pub default: Vec<u8>,
}

/// A call of a module.
#[derive(Debug)]
pub struct ModuleCallMetadata {
    pub index: usize,
    pub name: String,
    pub arguments: Vec<ArgumentMeta>,
    pub documentation: Vec<String>,
}

impl Default for ModuleCallMetadata {
    fn default() -> (call: ModuleCallMetadata)
        ensures
            call.index == 0,
            call.name@ == Seq::<char>::empty(),
            call.arguments@ == Seq::<ArgumentMeta>::empty(),
            call.documentation@ == Seq::<String>::empty(),
    {
        ModuleCallMetadata {
            index: 0,
            name: String::new(),
            arguments: Vec::new(),
            documentation: Vec::new(),
        }
    }
}

/// An event of a module.
#[derive(Debug)]
pub struct ModuleEventMetadata {
    pub index: usize,
    pub name: String,
    pub arguments: Vec<ArgumentMeta>,
    pub documentation: Vec<String>,
}

/// A constant of a module, with its value as SCALE bytes.
#[derive(Debug)]
pub struct ModuleConstantMetadata {
    pub name: String,
    pub ty: String,
    pub value: Vec<u8>,
    pub documentation: Vec<String>,
}

/// A module of the runtime.
#[derive(Debug)]
pub struct ModuleMetadata {
    pub index: u8,
    pub name: String,
    pub storage: Vec<StorageMetadata>,
    pub constants: Vec<ModuleConstantMetadata>,
    pub calls: Vec<ModuleCallMetadata>,
    pub events: Vec<ModuleEventMetadata>,
    pub errors: Vec<String>,
}

/// Runtime metadata.
#[derive(Debug)]
pub struct Metadata {
    pub version: MetadataVersion,
    pub modules: Vec<ModuleMetadata>,
    pub runtime_config: RuntimeConfig,
}

} // verus!
