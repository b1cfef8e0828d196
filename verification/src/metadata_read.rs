//! Reading the metadata: the check of its prefix and version, the look-up of
//! modules and constants, the constants derived from them, and the check that
//! the arguments of every event are understood.
use crate::argument::{primitive_kind, Argument, ArgumentDecodeError};
use crate::argument_meta::{views_of, ArgumentMeta, ArgumentMetaView, ConversionError};
use crate::metadata::{
    Metadata, MetadataError, MetadataVersion, ModuleConstantMetadata, ModuleEventMetadata,
    ModuleMetadata, RuntimeConfig, StorageMetadata,
};
use crate::metadata_convert::{
    convert_modules, module_converted, modules_rejection, tells_rejection, RawModule,
};
use crate::scale::{
    compact_size, compact_value, fixed_value, read_bytes, read_compact_u32, read_u32, read_u64,
    rest,
};
use crate::text::string_from_utf8;
use vstd::prelude::*;
use vstd::string::*;
use vstd::utf8::{decode_utf8, valid_utf8};

verus! {

/// The four bytes `meta`, read as a little-endian number, that metadata begins with.
pub const META_RESERVED: u32 = 0x6174_656d;

/// The metadata as the node writes it: the number it begins with, its version,
/// and its modules.
#[derive(Debug)]
pub struct RawMetadata {
    pub magic: u32,
    pub version: u8,
    pub modules: Vec<RawModule>,
}

/// Position of the first module of the given name.
pub open spec fn module_position(modules: Seq<ModuleMetadata>, name: Seq<char>, upto: int) -> Option<
    int,
>
    decreases upto,
{
    if upto <= 0 || upto > modules.len() {
        None
    } else {
        match module_position(modules, name, upto - 1) {
            Some(i) => Some(i),
            None => if modules[upto - 1].name@ == name {
                Some(upto - 1)
            } else {
                None
            },
        }
    }
}

/// Position of the last of the first `upto` constants that has the given name.
pub open spec fn constant_position(constants: Seq<ModuleConstantMetadata>, name: Seq<char>, upto: int) -> Option<
    int,
>
    decreases upto,
{
    if upto <= 0 || upto > constants.len() {
        None
    } else if constants[upto - 1].name@ == name {
        Some(upto - 1)
    } else {
        constant_position(constants, name, upto - 1)
    }
}

proof fn lemma_module_position_stays(modules: Seq<ModuleMetadata>, name: Seq<char>, at: int, upto: int)
    requires
        0 <= at <= upto <= modules.len(),
        module_position(modules, name, at) is Some,
    ensures
        module_position(modules, name, upto) == module_position(modules, name, at),
    decreases upto - at,
{
    if at < upto {
        lemma_module_position_stays(modules, name, at, upto - 1);
    }
}

impl Metadata {
    /// The first module of the given name.
    pub fn module(&self, key: &str) -> (result: Result<&ModuleMetadata, MetadataError>)
        ensures
            match module_position(self.modules@, key@, self.modules@.len() as int) {
                Some(i) => result == Ok::<&ModuleMetadata, MetadataError>(&self.modules@[i]),
                None => result matches Err(MetadataError::ModuleNotFound(name)) && name@ == key@,
            },
    {
        let mut i: usize = 0;
        while i < self.modules.len()
            invariant
                i <= self.modules@.len(),
                module_position(self.modules@, key@, i as int) is None,
            decreases self.modules@.len() - i,
        {
            if self.modules[i].name == String::from_str(key) {
                proof {
                    lemma_module_position_stays(
                        self.modules@,
                        key@,
                        i + 1,
                        self.modules@.len() as int,
                    );
                }
                return Ok(&self.modules[i]);
            }
            i += 1;
        }
        Err(MetadataError::ModuleNotFound(String::from_str(key)))
    }

    /// The module of the given index: the last one, should several have it.
    pub fn module_by_index(&self, index: u8) -> (module: Option<&ModuleMetadata>)
        ensures
            module == match index_position(self.modules@, index, self.modules@.len() as int) {
                Some(i) => Some(&self.modules@[i]),
                None => None,
            },
    {
        let mut i: usize = self.modules.len();
        while i > 0
            invariant
                i <= self.modules@.len(),
                index_position(self.modules@, index, self.modules@.len() as int) == index_position(
                    self.modules@,
                    index,
                    i as int,
                ),
            decreases i,
        {
            i -= 1;
            if self.modules[i].index == index {
                return Some(&self.modules[i]);
            }
        }
        None
    }
}

/// Position of the last of the first `upto` modules that has the given index.
pub open spec fn index_position(modules: Seq<ModuleMetadata>, index: u8, upto: int) -> Option<int>
    decreases upto,
{
    if upto <= 0 || upto > modules.len() {
        None
    } else if modules[upto - 1].index == index {
        Some(upto - 1)
    } else {
        index_position(modules, index, upto - 1)
    }
}

/// Position of the last storage entry of the given name among the first `upto`.
pub open spec fn storage_position(entries: Seq<StorageMetadata>, name: Seq<char>, upto: int) -> Option<
    int,
>
    decreases upto,
{
    if upto <= 0 || upto > entries.len() {
        None
    } else if entries[upto - 1].storage_prefix@ == name {
        Some(upto - 1)
    } else {
        storage_position(entries, name, upto - 1)
    }
}

/// The storage entry `item` of the module `module`, if the runtime has it.
pub open spec fn storage_entry_of(modules: Seq<ModuleMetadata>, module: Seq<char>, item: Seq<char>) -> Option<
    StorageMetadata,
> {
    match module_position(modules, module, modules.len() as int) {
        None => None,
        Some(m) => match storage_position(modules[m].storage@, item, modules[m].storage@.len() as int) {
            None => None,
            Some(e) => Some(modules[m].storage@[e]),
        },
    }
}

impl Metadata {
    /// The storage entry `item` of the module `module`, if the runtime has it.
    pub fn storage_entry(&self, module: &str, item: &str) -> (entry: Option<&StorageMetadata>)
        ensures
            entry == match storage_entry_of(self.modules@, module@, item@) {
                Some(found) => Some(&found),
                None => None,
            },
    {
        match self.module(module) {
            Ok(found) => found.storage_entry(item),
            Err(_) => None,
        }
    }
}

impl ModuleMetadata {
    /// The storage entry of the given name: the last one, should several have it.
    pub fn storage_entry(&self, key: &str) -> (entry: Option<&StorageMetadata>)
        ensures
            entry == match storage_position(self.storage@, key@, self.storage@.len() as int) {
                Some(i) => Some(&self.storage@[i]),
                None => None,
            },
    {
        let mut i: usize = self.storage.len();
        while i > 0
            invariant
                i <= self.storage@.len(),
                storage_position(self.storage@, key@, self.storage@.len() as int)
                    == storage_position(self.storage@, key@, i as int),
            decreases i,
        {
            i -= 1;
            if self.storage[i].storage_prefix == String::from_str(key) {
                return Some(&self.storage[i]);
            }
        }
        None
    }

    /// The constant of the given name: the last one, should several have it.
    pub fn constant(&self, key: &str) -> (result: Result<&ModuleConstantMetadata, MetadataError>)
        ensures
            match constant_position(self.constants@, key@, self.constants@.len() as int) {
                Some(i) => result == Ok::<&ModuleConstantMetadata, MetadataError>(
                    &self.constants@[i],
                ),
                None => result matches Err(MetadataError::ConstantNotFound(name)) && name@ == key@,
            },
    {
        let mut i: usize = self.constants.len();
        while i > 0
            invariant
                i <= self.constants@.len(),
                constant_position(self.constants@, key@, self.constants@.len() as int)
                    == constant_position(self.constants@, key@, i as int),
            decreases i,
        {
            i -= 1;
            if self.constants[i].name == String::from_str(key) {
                return Ok(&self.constants[i]);
            }
        }
        Err(MetadataError::ConstantNotFound(String::from_str(key)))
    }

    /// The call at the given position among the calls of the module.
    pub fn call(&self, index: u8) -> (call: Option<&crate::metadata::ModuleCallMetadata>)
        ensures
            call == if (index as int) < self.calls@.len() {
                Some(&self.calls@[index as int])
            } else {
                None
            },
    {
        if (index as usize) < self.calls.len() {
            Some(&self.calls[index as usize])
        } else {
            None
        }
    }

    /// The event at the given position among the events of the module.
    pub fn event(&self, index: u8) -> (event: Option<&ModuleEventMetadata>)
        ensures
            event == if (index as int) < self.events@.len() {
                Some(&self.events@[index as int])
            } else {
                None
            },
    {
        if (index as usize) < self.events.len() {
            Some(&self.events[index as usize])
        } else {
            None
        }
    }
}

impl ModuleConstantMetadata {
    /// The value of the constant as a 32-bit number: its first four bytes.
    pub fn value_u32(&self) -> (result: Result<u32, MetadataError>)
        ensures
            match fixed_value(self.value@, 4) {
                Some(value) => result matches Ok(read) && read == value,
                None => result matches Err(MetadataError::ConstantValueError),
            },
    {
        assert(rest(self.value@, 0) =~= self.value@);
        match read_u32(self.value.as_slice(), 0) {
            Some((value, _)) => Ok(value),
            None => Err(MetadataError::ConstantValueError),
        }
    }

    /// The value of the constant as a 64-bit number: its first eight bytes.
    pub fn value_u64(&self) -> (result: Result<u64, MetadataError>)
        ensures
            match fixed_value(self.value@, 8) {
                Some(value) => result matches Ok(read) && read == value,
                None => result matches Err(MetadataError::ConstantValueError),
            },
    {
        assert(rest(self.value@, 0) =~= self.value@);
        match read_u64(self.value.as_slice(), 0) {
            Some((value, _)) => Ok(value),
            None => Err(MetadataError::ConstantValueError),
        }
    }
}

/// What is read of the version of a runtime.
pub struct RuntimeVersionView {
    pub spec_name: Seq<char>,
    pub spec_version: u32,
    pub transaction_version: u32,
}

/// The text at `pos`: its length in bytes as a compact number, then its bytes in
/// UTF-8; and where it ends.
pub open spec fn text_at(bytes: Seq<u8>, pos: int) -> Option<(Seq<char>, int)> {
    if 0 <= pos < bytes.len() && compact_value(rest(bytes, pos), 4) is Some {
        let length = compact_value(rest(bytes, pos), 4)->Some_0 as int;
        let start = pos + compact_size(rest(bytes, pos));
        if start + length <= bytes.len() && valid_utf8(bytes.subrange(start, start + length)) {
            Some((decode_utf8(bytes.subrange(start, start + length)), start + length))
        } else {
            None
        }
    } else {
        None
    }
}

/// The 32-bit number at `pos`, and where it ends.
pub open spec fn number_at(bytes: Seq<u8>, pos: int) -> Option<(u32, int)> {
    if 0 <= pos <= bytes.len() && fixed_value(rest(bytes, pos), 4) is Some {
        Some((fixed_value(rest(bytes, pos), 4)->Some_0 as u32, pos + 4))
    } else {
        None
    }
}

/// The version of a runtime: the name of the specification and that of the
/// implementation, both texts; the authoring version, the version of the
/// specification and that of the implementation, four bytes each; the interfaces,
/// their number compact and twelve bytes for each; the transaction version in
/// four bytes.
pub open spec fn runtime_version_of(bytes: Seq<u8>) -> Option<RuntimeVersionView> {
    match text_at(bytes, 0) {
        None => None,
        Some((spec_name, after_spec_name)) => match text_at(bytes, after_spec_name) {
            None => None,
            Some((_, after_names)) => match number_at(bytes, after_names + 4) {
                None => None,
                Some((spec_version, after_spec_version)) => {
                    let at = after_spec_version + 4;
                    if 0 <= at < bytes.len() && compact_value(rest(bytes, at), 4) is Some {
                        let count = compact_value(rest(bytes, at), 4)->Some_0 as int;
                        let after_interfaces = at + compact_size(rest(bytes, at)) + 12 * count;
                        match number_at(bytes, after_interfaces) {
                            None => None,
                            Some((transaction_version, _)) => Some(
                                RuntimeVersionView { spec_name, spec_version, transaction_version },
                            ),
                        }
                    } else {
                        None
                    }
                },
            },
        },
    }
}

/// Reads the text at `pos`.
fn read_text(bytes: &[u8], pos: usize) -> (read: Option<(String, usize)>)
    ensures
        match read {
            Some((text, next)) => text_at(bytes@, pos as int) == Some((text@, next as int)) && next
                <= bytes@.len(),
            None => text_at(bytes@, pos as int) is None,
        },
{
    match read_compact_u32(bytes, pos) {
        None => None,
        Some((length, start)) => match read_bytes(bytes, start, length as usize) {
            None => None,
            Some((raw, next)) => match string_from_utf8(raw) {
                Some(text) => Some((text, next)),
                None => None,
            },
        },
    }
}

/// Reads the 32-bit number at `pos`.
fn read_number(bytes: &[u8], pos: usize) -> (read: Option<(u32, usize)>)
    ensures
        match read {
            Some((value, next)) => number_at(bytes@, pos as int) == Some((value, next as int))
                && next <= bytes@.len(),
            None => number_at(bytes@, pos as int) is None,
        },
{
    read_u32(bytes, pos)
}

/// What is kept of the version of a runtime.
#[derive(Debug)]
pub struct RuntimeVersion {
    pub spec_name: String,
    pub spec_version: u32,
    pub transaction_version: u32,
}

/// Reads the version of a runtime.
pub fn decode_runtime_version(bytes: &[u8]) -> (version: Option<RuntimeVersion>)
    ensures
        match version {
            Some(read) => runtime_version_of(bytes@) == Some(
                RuntimeVersionView {
                    spec_name: read.spec_name@,
                    spec_version: read.spec_version,
                    transaction_version: read.transaction_version,
                },
            ),
            None => runtime_version_of(bytes@) is None,
        },
{
    let n = bytes.len();
    let (spec_name, after_spec_name) = match read_text(bytes, 0) {
        Some(read) => read,
        None => {
            return None;
        },
    };
    let after_names = match read_text(bytes, after_spec_name) {
        Some((_, next)) => next,
        None => {
            return None;
        },
    };
    if n - after_names < 4 {
        return None;
    }
    let (spec_version, after_spec_version) = match read_number(bytes, after_names + 4) {
        Some(read) => read,
        None => {
            return None;
        },
    };
    if n - after_spec_version < 4 {
        proof {
            let at = after_spec_version + 4;
            if 0 <= at < bytes@.len() && compact_value(rest(bytes@, at), 4) is Some {
            }
        }
        return None;
    }
    let at = after_spec_version + 4;
    let (count, after_count) = match read_compact_u32(bytes, at) {
        Some(read) => read,
        None => {
            return None;
        },
    };
    if (n - after_count) / 12 < count as usize {
        return None;
    }
    let after_interfaces = after_count + 12 * (count as usize);
    match read_number(bytes, after_interfaces) {
        Some((transaction_version, _)) => Some(
            RuntimeVersion { spec_name, spec_version, transaction_version },
        ),
        None => None,
    }
}

} // verus!

verus! {

/// The first primitive name of a shape that the table of primitives does not
/// hold, if there is one.
pub open spec fn first_unknown(meta: ArgumentMetaView) -> Option<Seq<char>>
    decreases meta,
{
    match meta {
        ArgumentMetaView::Primitive(name) => if primitive_kind(name) is None {
            Some(name)
        } else {
            None
        },
        ArgumentMetaView::Vec(inner) => first_unknown(*inner),
        ArgumentMetaView::Option(inner) => first_unknown(*inner),
        ArgumentMetaView::Tuple(members) => first_unknown_among(members, members.len() as int),
    }
}

/// The first primitive name that is not understood among the first `upto` shapes.
pub open spec fn first_unknown_among(shapes: Seq<ArgumentMetaView>, upto: int) -> Option<Seq<char>>
    decreases shapes, upto,
{
    if upto <= 0 || upto > shapes.len() {
        None
    } else {
        match first_unknown_among(shapes, upto - 1) {
            Some(name) => Some(name),
            None => first_unknown(shapes[upto - 1]),
        }
    }
}

/// The first primitive name that is not understood among the arguments of the
/// first `upto` events.
pub open spec fn first_unknown_of_events(events: Seq<ModuleEventMetadata>, upto: int) -> Option<
    Seq<char>,
>
    decreases upto,
{
    if upto <= 0 || upto > events.len() {
        None
    } else {
        match first_unknown_of_events(events, upto - 1) {
            Some(name) => Some(name),
            None => first_unknown_among(
                views_of(events[upto - 1].arguments@),
                events[upto - 1].arguments@.len() as int,
            ),
        }
    }
}

/// The first primitive name that is not understood among the arguments of the
/// events of the first `upto` modules.
pub open spec fn first_unknown_of_modules(modules: Seq<ModuleMetadata>, upto: int) -> Option<
    Seq<char>,
>
    decreases upto,
{
    if upto <= 0 || upto > modules.len() {
        None
    } else {
        match first_unknown_of_modules(modules, upto - 1) {
            Some(name) => Some(name),
            None => first_unknown_of_events(
                modules[upto - 1].events@,
                modules[upto - 1].events@.len() as int,
            ),
        }
    }
}

proof fn lemma_unknown_among_stays(shapes: Seq<ArgumentMetaView>, at: int, upto: int)
    requires
        0 <= at <= upto <= shapes.len(),
        first_unknown_among(shapes, at) is Some,
    ensures
        first_unknown_among(shapes, upto) == first_unknown_among(shapes, at),
    decreases upto - at,
{
    if at < upto {
        lemma_unknown_among_stays(shapes, at, upto - 1);
    }
}

proof fn lemma_unknown_of_events_stays(events: Seq<ModuleEventMetadata>, at: int, upto: int)
    requires
        0 <= at <= upto <= events.len(),
        first_unknown_of_events(events, at) is Some,
    ensures
        first_unknown_of_events(events, upto) == first_unknown_of_events(events, at),
    decreases upto - at,
{
    if at < upto {
        lemma_unknown_of_events_stays(events, at, upto - 1);
    }
}

proof fn lemma_unknown_of_modules_stays(modules: Seq<ModuleMetadata>, at: int, upto: int)
    requires
        0 <= at <= upto <= modules.len(),
        first_unknown_of_modules(modules, at) is Some,
    ensures
        first_unknown_of_modules(modules, upto) == first_unknown_of_modules(modules, at),
    decreases upto - at,
{
    if at < upto {
        lemma_unknown_of_modules_stays(modules, at, upto - 1);
    }
}

/// Whether an error tells that the primitive `name` is not understood.
pub open spec fn tells_unknown(error: ArgumentDecodeError, name: Seq<char>) -> bool {
    error matches ArgumentDecodeError::UnknownPrimitiveType(unknown) && unknown@ == name
}

/// Checks that every primitive of a shape is understood, by reading each from no
/// bytes at all: that the bytes end too early is expected and passed over; that
/// the primitive is not understood is not.
fn check_shape(meta: &ArgumentMeta) -> (result: Result<(), ArgumentDecodeError>)
    ensures
        match first_unknown(meta@) {
            None => result is Ok,
            Some(name) => result matches Err(error) && tells_unknown(error, name),
        },
    decreases meta, 0nat,
{
    match meta {
        ArgumentMeta::Primitive(_) => {
            let empty: Vec<u8> = Vec::new();
            match Argument::decode(meta, empty.as_slice(), 0) {
                Err(ArgumentDecodeError::UnknownPrimitiveType(name)) => Err(
                    ArgumentDecodeError::UnknownPrimitiveType(name),
                ),
                _ => Ok(()),
            }
        },
        ArgumentMeta::Vec(inner) => check_shape(inner),
        ArgumentMeta::Option(inner) => check_shape(inner),
        ArgumentMeta::Tuple(members) => {
            assert(meta@->Tuple_0 =~= views_of(members@));
            check_shapes(members)
        },
    }
}

/// Checks that every primitive of each of the shapes is understood.
fn check_shapes(shapes: &Vec<ArgumentMeta>) -> (result: Result<(), ArgumentDecodeError>)
    ensures
        match first_unknown_among(views_of(shapes@), shapes@.len() as int) {
            None => result is Ok,
            Some(name) => result matches Err(error) && tells_unknown(error, name),
        },
    decreases shapes, 1nat,
{
    let mut i: usize = 0;
    while i < shapes.len()
        invariant
            i <= shapes@.len(),
            first_unknown_among(views_of(shapes@), i as int) is None,
        decreases shapes@.len() - i,
    {
        assert(decreases_to!(*shapes => shapes[i as int]));
        assert(views_of(shapes@)[i as int] == shapes@[i as int]@);
        match check_shape(&shapes[i]) {
            Ok(()) => {},
            Err(error) => {
                proof {
                    lemma_unknown_among_stays(views_of(shapes@), i + 1, shapes@.len() as int);
                }
                return Err(error);
            },
        }
        i += 1;
    }
    Ok(())
}

impl Metadata {
    /// Checks that the arguments of every event are made of primitives that are
    /// understood; fails with the first that is not.
    pub fn check_event_primitive_argument_support(&self) -> (result: Result<
        (),
        ArgumentDecodeError,
    >)
        ensures
            match first_unknown_of_modules(self.modules@, self.modules@.len() as int) {
                None => result is Ok,
                Some(name) => result matches Err(error) && tells_unknown(error, name),
            },
    {
        let mut m: usize = 0;
        while m < self.modules.len()
            invariant
                m <= self.modules@.len(),
                first_unknown_of_modules(self.modules@, m as int) is None,
            decreases self.modules@.len() - m,
        {
            let events = &self.modules[m].events;
            let mut e: usize = 0;
            while e < events.len()
                invariant
                    e <= events@.len(),
                    m < self.modules@.len(),
                    events == &self.modules@[m as int].events,
                    first_unknown_of_modules(self.modules@, m as int) is None,
                    first_unknown_of_events(events@, e as int) is None,
                decreases events@.len() - e,
            {
                match check_shapes(&events[e].arguments) {
                    Ok(()) => {},
                    Err(error) => {
                        proof {
                            lemma_unknown_of_events_stays(events@, e + 1, events@.len() as int);
                            lemma_unknown_of_modules_stays(
                                self.modules@,
                                m + 1,
                                self.modules@.len() as int,
                            );
                        }
                        return Err(error);
                    },
                }
                e += 1;
            }
            m += 1;
        }
        Ok(())
    }
}

} // verus!

verus! {

/// Why the constants of a runtime could not be derived.
pub enum ConfigFailure {
    ModuleNotFound(Seq<char>),
    ConstantNotFound(Seq<char>),
    ConstantValue,
}

/// Mathematical model of a [`RuntimeConfig`].
pub struct RuntimeConfigView {
    pub expected_block_time_millis: u64,
    pub epoch_duration_blocks: u64,
    pub epoch_duration_millis: u64,
    pub sessions_per_era: u32,
    pub max_nominations: u32,
    pub era_duration_blocks: u64,
    pub era_duration_millis: u64,
    pub spec_name: Seq<char>,
    pub spec_version: u32,
    pub tx_version: u32,
}

impl View for RuntimeConfig {
    type V = RuntimeConfigView;

    open spec fn view(&self) -> RuntimeConfigView {
        RuntimeConfigView {
            expected_block_time_millis: self.expected_block_time_millis,
            epoch_duration_blocks: self.epoch_duration_blocks,
            epoch_duration_millis: self.epoch_duration_millis,
            sessions_per_era: self.sessions_per_era,
            max_nominations: self.max_nominations,
            era_duration_blocks: self.era_duration_blocks,
            era_duration_millis: self.era_duration_millis,
            spec_name: self.spec_name@,
            spec_version: self.spec_version,
            tx_version: self.tx_version,
        }
    }
}

/// The bytes of the constant `constant` of the module `module`.
pub open spec fn constant_bytes(modules: Seq<ModuleMetadata>, module: Seq<char>, constant: Seq<char>) -> Result<
    Seq<u8>,
    ConfigFailure,
> {
    match module_position(modules, module, modules.len() as int) {
        None => Err(ConfigFailure::ModuleNotFound(module)),
        Some(m) => match constant_position(
            modules[m].constants@,
            constant,
            modules[m].constants@.len() as int,
        ) {
            None => Err(ConfigFailure::ConstantNotFound(constant)),
            Some(c) => Ok(modules[m].constants@[c].value@),
        },
    }
}

/// The constant `constant` of the module `module`, read as a number of `width` bytes.
pub open spec fn constant_number(
    modules: Seq<ModuleMetadata>,
    module: Seq<char>,
    constant: Seq<char>,
    width: int,
) -> Result<nat, ConfigFailure> {
    match constant_bytes(modules, module, constant) {
        Err(failure) => Err(failure),
        Ok(bytes) => match fixed_value(bytes, width) {
            Some(value) => Ok(value),
            None => Err(ConfigFailure::ConstantValue),
        },
    }
}

/// The product of two numbers where it fits 64 bits.
pub open spec fn product(a: nat, b: nat) -> Result<nat, ConfigFailure> {
    if a * b <= u64::MAX {
        Ok(a * b)
    } else {
        Err(ConfigFailure::ConstantValue)
    }
}

/// The constants derived from the modules of a runtime: the block time and the
/// length of an epoch from `Babe`, the sessions of an era and the most
/// nominations from `Staking`, the version from `System`; a duration in
/// milliseconds is a duration in blocks times the block time, and an era is as
/// many epochs as it has sessions. A product that does not fit 64 bits counts as
/// a constant without a value.
pub open spec fn derived_config(modules: Seq<ModuleMetadata>) -> Result<RuntimeConfigView, ConfigFailure> {
    match constant_number(modules, "Babe"@, "ExpectedBlockTime"@, 8) {
        Err(failure) => Err(failure),
        Ok(block_time) => match constant_number(modules, "Babe"@, "EpochDuration"@, 8) {
            Err(failure) => Err(failure),
            Ok(epoch_blocks) => match product(epoch_blocks, block_time) {
                Err(failure) => Err(failure),
                Ok(epoch_millis) => match constant_number(modules, "Staking"@, "SessionsPerEra"@, 4) {
                    Err(failure) => Err(failure),
                    Ok(sessions) => match constant_number(
                        modules,
                        "Staking"@,
                        "MaxNominations"@,
                        4,
                    ) {
                        Err(failure) => Err(failure),
                        Ok(max_nominations) => match product(epoch_blocks, sessions) {
                            Err(failure) => Err(failure),
                            Ok(era_blocks) => match product(era_blocks, block_time) {
                                Err(failure) => Err(failure),
                                Ok(era_millis) => match constant_bytes(
                                    modules,
                                    "System"@,
                                    "Version"@,
                                ) {
                                    Err(failure) => Err(failure),
                                    Ok(bytes) => match runtime_version_of(bytes) {
                                        None => Err(ConfigFailure::ConstantValue),
                                        Some(version) => Ok(
                                            RuntimeConfigView {
                                                expected_block_time_millis: block_time as u64,
                                                epoch_duration_blocks: epoch_blocks as u64,
                                                epoch_duration_millis: epoch_millis as u64,
                                                sessions_per_era: sessions as u32,
                                                max_nominations: max_nominations as u32,
                                                era_duration_blocks: era_blocks as u64,
                                                era_duration_millis: era_millis as u64,
                                                spec_name: version.spec_name,
                                                spec_version: version.spec_version,
                                                tx_version: version.transaction_version,
                                            },
                                        ),
                                    },
                                },
                            },
                        },
                    },
                },
            },
        },
    }
}

/// Whether an error tells of a failure to derive the constants.
pub open spec fn tells_failure(error: MetadataError, failure: ConfigFailure) -> bool {
    match failure {
        ConfigFailure::ModuleNotFound(name) => error matches MetadataError::ModuleNotFound(text)
            && text@ == name,
        ConfigFailure::ConstantNotFound(name) => error matches MetadataError::ConstantNotFound(text)
            && text@ == name,
        ConfigFailure::ConstantValue => error is ConstantValueError,
    }
}

/// The product of two numbers where it fits 64 bits.
fn multiply(a: u64, b: u64) -> (result: Result<u64, MetadataError>)
    ensures
        match product(a as nat, b as nat) {
            Ok(value) => result matches Ok(multiplied) && multiplied == value,
            Err(_) => result matches Err(MetadataError::ConstantValueError),
        },
{
    match a.checked_mul(b) {
        Some(value) => Ok(value),
        None => Err(MetadataError::ConstantValueError),
    }
}

impl Metadata {
    /// The 64-bit constant `constant` of the module `module`.
    fn constant_u64(&self, module: &str, constant: &str) -> (result: Result<u64, MetadataError>)
        ensures
            match constant_number(self.modules@, module@, constant@, 8) {
                Ok(value) => result matches Ok(read) && read == value,
                Err(failure) => result matches Err(error) && tells_failure(error, failure),
            },
    {
        match self.module(module) {
            Err(error) => Err(error),
            Ok(found) => match found.constant(constant) {
                Err(error) => Err(error),
                Ok(value) => value.value_u64(),
            },
        }
    }

    /// The 32-bit constant `constant` of the module `module`.
    fn constant_u32(&self, module: &str, constant: &str) -> (result: Result<u32, MetadataError>)
        ensures
            match constant_number(self.modules@, module@, constant@, 4) {
                Ok(value) => result matches Ok(read) && read == value,
                Err(failure) => result matches Err(error) && tells_failure(error, failure),
            },
    {
        match self.module(module) {
            Err(error) => Err(error),
            Ok(found) => match found.constant(constant) {
                Err(error) => Err(error),
                Ok(value) => value.value_u32(),
            },
        }
    }

    /// Derives the constants of the runtime from its modules.
    pub fn derive_runtime_config(&self) -> (result: Result<RuntimeConfig, MetadataError>)
        ensures
            match derived_config(self.modules@) {
                Ok(config) => result matches Ok(derived) && derived@ == config,
                Err(failure) => result matches Err(error) && tells_failure(error, failure),
            },
    {
        let expected_block_time_millis = match self.constant_u64("Babe", "ExpectedBlockTime") {
            Ok(value) => value,
            Err(error) => {
                return Err(error);
            },
        };
        let epoch_duration_blocks = match self.constant_u64("Babe", "EpochDuration") {
            Ok(value) => value,
            Err(error) => {
                return Err(error);
            },
        };
        let epoch_duration_millis = match multiply(epoch_duration_blocks, expected_block_time_millis) {
            Ok(value) => value,
            Err(error) => {
                return Err(error);
            },
        };
        let sessions_per_era = match self.constant_u32("Staking", "SessionsPerEra") {
            Ok(value) => value,
            Err(error) => {
                return Err(error);
            },
        };
        let max_nominations = match self.constant_u32("Staking", "MaxNominations") {
            Ok(value) => value,
            Err(error) => {
                return Err(error);
            },
        };
        let era_duration_blocks = match multiply(epoch_duration_blocks, sessions_per_era as u64) {
            Ok(value) => value,
            Err(error) => {
                return Err(error);
            },
        };
        let era_duration_millis = match multiply(era_duration_blocks, expected_block_time_millis) {
            Ok(value) => value,
            Err(error) => {
                return Err(error);
            },
        };
        let system = match self.module("System") {
            Ok(found) => found,
            Err(error) => {
                return Err(error);
            },
        };
        let version_constant = match system.constant("Version") {
            Ok(found) => found,
            Err(error) => {
                return Err(error);
            },
        };
        let version = match decode_runtime_version(version_constant.value.as_slice()) {
            Some(version) => version,
            None => {
                return Err(MetadataError::ConstantValueError);
            },
        };
        Ok(
            RuntimeConfig {
                expected_block_time_millis,
                epoch_duration_blocks,
                epoch_duration_millis,
                sessions_per_era,
                max_nominations,
                era_duration_blocks,
                era_duration_millis,
                spec_name: version.spec_name,
                spec_version: version.spec_version,
                tx_version: version.transaction_version,
            },
        )
    }

    /// Reads the metadata that the node has written: the version must be 12 or
    /// 13 and the number in front the reserved one; the modules are converted,
    /// the constants of the runtime derived, and the arguments of the events
    /// checked to be understood. The first of these that fails is what is told.
    pub fn from(raw: RawMetadata) -> (result: Result<Metadata, MetadataError>)
        ensures
            raw.version != 12 && raw.version != 13 ==> result matches Err(
                MetadataError::Conversion(ConversionError::InvalidVersion),
            ),
            (raw.version == 12 || raw.version == 13) && raw.magic != META_RESERVED
                ==> result matches Err(MetadataError::Conversion(ConversionError::InvalidPrefix)),
            (raw.version == 12 || raw.version == 13) && raw.magic == META_RESERVED
                ==> match modules_rejection(raw.modules@, raw.modules@.len() as int) {
                Some(rejection) => result matches Err(MetadataError::Conversion(error))
                    && tells_rejection(error, rejection),
                None => exists|modules: Seq<ModuleMetadata>| #[trigger]
                    read_outcome(raw, modules, result),
            },
    {
        let ghost given = raw;
        let version = if raw.version == 12 {
            MetadataVersion::V12
        } else if raw.version == 13 {
            MetadataVersion::V13
        } else {
            return Err(MetadataError::Conversion(ConversionError::InvalidVersion));
        };
        if raw.magic != META_RESERVED {
            return Err(MetadataError::Conversion(ConversionError::InvalidPrefix));
        }
        let modules = match convert_modules(raw.modules) {
            Ok(modules) => modules,
            Err(error) => {
                return Err(error);
            },
        };
        let mut metadata = Metadata { version, modules, runtime_config: RuntimeConfig::default() };
        let ghost converted = metadata.modules@;
        match metadata.derive_runtime_config() {
            Ok(config) => {
                metadata.runtime_config = config;
            },
            Err(error) => {
                let result = Err(error);
                assert(read_outcome(given, converted, result));
                return result;
            },
        }
        match metadata.check_event_primitive_argument_support() {
            Ok(()) => {},
            Err(error) => {
                let result = Err(MetadataError::Argument(error));
                assert(read_outcome(given, converted, result));
                return result;
            },
        }
        let result = Ok(metadata);
        assert(read_outcome(given, converted, result));
        result
    }
}

/// Whether `result` is what reading comes to once the modules of `raw` are
/// converted to `modules`: the failure to derive the constants of the runtime,
/// else the first primitive that is not understood, else the metadata with these
/// modules and the constants derived from them.
pub open spec fn read_outcome(
    raw: RawMetadata,
    modules: Seq<ModuleMetadata>,
    result: Result<Metadata, MetadataError>,
) -> bool {
    &&& modules.len() == raw.modules@.len()
    &&& forall|i: int|
        0 <= i < modules.len() ==> module_converted(raw.modules@[i], #[trigger] modules[i])
    &&& match derived_config(modules) {
        Err(failure) => result matches Err(error) && tells_failure(error, failure),
        Ok(config) => match first_unknown_of_modules(modules, modules.len() as int) {
            Some(name) => result matches Err(MetadataError::Argument(error)) && tells_unknown(
                error,
                name,
            ),
            None => result matches Ok(metadata) && metadata.modules@ == modules
                && metadata.runtime_config@ == config && metadata.version == (if raw.version
                == 12 {
                MetadataVersion::V12
            } else {
                MetadataVersion::V13
            }),
        },
    }
}

} // verus!

verus! {

/// The texts of the first `upto` shapes, each followed by a comma and a blank.
pub open spec fn listed_shapes(shapes: Seq<ArgumentMetaView>, upto: int) -> Seq<char>
    decreases upto,
{
    if upto <= 0 || upto > shapes.len() {
        Seq::empty()
    } else {
        listed_shapes(shapes, upto - 1) + crate::argument_meta::text_of(shapes[upto - 1])
            + crate::argument_meta::separator()
    }
}

/// How a call or an event is written in the log: the name of its module, a dot,
/// its own name, and between parentheses its arguments, each followed by a
/// comma and a blank.
pub open spec fn signature_text(module: Seq<char>, name: Seq<char>, shapes: Seq<ArgumentMetaView>) -> Seq<
    char,
> {
    module + seq!['.'] + name + seq!['('] + listed_shapes(shapes, shapes.len() as int) + seq![')']
}

/// Writes a call or an event as the log shows it.
pub fn signature(module: &str, name: &str, arguments: &Vec<ArgumentMeta>) -> (text: String)
    ensures
        text@ == signature_text(module@, name@, views_of(arguments@)),
{
    proof {
        reveal_strlit(".");
        reveal_strlit("(");
        reveal_strlit(")");
        reveal_strlit(", ");
        assert("."@ =~= seq!['.']);
        assert("("@ =~= seq!['(']);
        assert(")"@ =~= seq![')']);
        assert(", "@ =~= crate::argument_meta::separator());
    }
    let mut text = String::from_str(module);
    text.append(".");
    text.append(name);
    text.append("(");
    let ghost head = text@;
    let mut i: usize = 0;
    assert(text@ =~= head + listed_shapes(views_of(arguments@), 0));
    while i < arguments.len()
        invariant
            i <= arguments@.len(),
            ", "@ == crate::argument_meta::separator(),
            text@ == head + listed_shapes(views_of(arguments@), i as int),
        decreases arguments@.len() - i,
    {
        let shape = arguments[i].to_string();
        assert(views_of(arguments@)[i as int] == arguments@[i as int]@);
        text.append(shape.as_str());
        text.append(", ");
        assert(text@ =~= head + listed_shapes(views_of(arguments@), i + 1));
        i += 1;
    }
    text.append(")");
    assert(text@ =~= signature_text(module@, name@, views_of(arguments@)));
    text
}

/// The calls of a module among its first `upto`, each as the log shows it.
pub open spec fn module_call_lines(module: ModuleMetadata, upto: int) -> Seq<Seq<char>>
    decreases upto,
{
    if upto <= 0 || upto > module.calls@.len() {
        Seq::empty()
    } else {
        module_call_lines(module, upto - 1).push(
            signature_text(
                module.name@,
                module.calls@[upto - 1].name@,
                views_of(module.calls@[upto - 1].arguments@),
            ),
        )
    }
}

/// The calls of the first `upto` modules, module by module.
pub open spec fn call_lines(modules: Seq<ModuleMetadata>, upto: int) -> Seq<Seq<char>>
    decreases upto,
{
    if upto <= 0 || upto > modules.len() {
        Seq::empty()
    } else {
        call_lines(modules, upto - 1) + module_call_lines(
            modules[upto - 1],
            modules[upto - 1].calls@.len() as int,
        )
    }
}

/// The events of a module among its first `upto`, each as the log shows it.
pub open spec fn module_event_lines(module: ModuleMetadata, upto: int) -> Seq<Seq<char>>
    decreases upto,
{
    if upto <= 0 || upto > module.events@.len() {
        Seq::empty()
    } else {
        module_event_lines(module, upto - 1).push(
            signature_text(
                module.name@,
                module.events@[upto - 1].name@,
                views_of(module.events@[upto - 1].arguments@),
            ),
        )
    }
}

/// The events of the first `upto` modules, module by module.
pub open spec fn event_lines(modules: Seq<ModuleMetadata>, upto: int) -> Seq<Seq<char>>
    decreases upto,
{
    if upto <= 0 || upto > modules.len() {
        Seq::empty()
    } else {
        event_lines(modules, upto - 1) + module_event_lines(
            modules[upto - 1],
            modules[upto - 1].events@.len() as int,
        )
    }
}

impl Metadata {
    /// The lines that show every call of the runtime, module by module, for the log.
    pub fn log_all_calls(&self) -> (lines: Vec<String>)
        ensures
            crate::store::texts_of(lines@) == call_lines(self.modules@, self.modules@.len() as int),
    {
        let mut lines: Vec<String> = Vec::new();
        let mut m: usize = 0;
        assert(crate::store::texts_of(lines@) =~= call_lines(self.modules@, 0));
        while m < self.modules.len()
            invariant
                m <= self.modules@.len(),
                crate::store::texts_of(lines@) == call_lines(self.modules@, m as int),
            decreases self.modules@.len() - m,
        {
            let module = &self.modules[m];
            let ghost before = crate::store::texts_of(lines@);
            let mut c: usize = 0;
            assert(crate::store::texts_of(lines@) =~= before + module_call_lines(*module, 0));
            while c < module.calls.len()
                invariant
                    c <= module.calls@.len(),
                    crate::store::texts_of(lines@) == before + module_call_lines(*module, c as int),
                decreases module.calls@.len() - c,
            {
                let ghost held = crate::store::texts_of(lines@);
                let line = signature(
                    module.name.as_str(),
                    module.calls[c].name.as_str(),
                    &module.calls[c].arguments,
                );
                let ghost text = line@;
                lines.push(line);
                assert(crate::store::texts_of(lines@) =~= held.push(text));
                assert(before + module_call_lines(*module, c + 1) =~= (before + module_call_lines(
                    *module,
                    c as int,
                )).push(text));
                c += 1;
            }
            m += 1;
        }
        lines
    }

    /// The lines that show every event of the runtime, module by module, for the log.
    pub fn log_all_events(&self) -> (lines: Vec<String>)
        ensures
            crate::store::texts_of(lines@) == event_lines(self.modules@, self.modules@.len() as int),
    {
        let mut lines: Vec<String> = Vec::new();
        let mut m: usize = 0;
        assert(crate::store::texts_of(lines@) =~= event_lines(self.modules@, 0));
        while m < self.modules.len()
            invariant
                m <= self.modules@.len(),
                crate::store::texts_of(lines@) == event_lines(self.modules@, m as int),
            decreases self.modules@.len() - m,
        {
            let module = &self.modules[m];
            let ghost before = crate::store::texts_of(lines@);
            let mut e: usize = 0;
            assert(crate::store::texts_of(lines@) =~= before + module_event_lines(*module, 0));
            while e < module.events.len()
                invariant
                    e <= module.events@.len(),
                    crate::store::texts_of(lines@) == before + module_event_lines(
                        *module,
                        e as int,
                    ),
                decreases module.events@.len() - e,
            {
                let ghost held = crate::store::texts_of(lines@);
                let line = signature(
                    module.name.as_str(),
                    module.events[e].name.as_str(),
                    &module.events[e].arguments,
                );
                let ghost text = line@;
                lines.push(line);
                assert(crate::store::texts_of(lines@) =~= held.push(text));
                assert(before + module_event_lines(*module, e + 1) =~= (before
                    + module_event_lines(*module, e as int)).push(text));
                e += 1;
            }
            m += 1;
        }
        lines
    }
}

} // verus!
