//! From the metadata as the node writes it to the descriptors of the crate:
//! the types of the arguments of calls and events are parsed, the rest is
//! taken over.
use crate::argument_meta::{
    parse_text, reason, views_of, ArgumentMeta, ArgumentMetaView, ConversionError, Rejection,
};
use crate::metadata::{
    MetadataError, ModuleCallMetadata, ModuleConstantMetadata, ModuleEventMetadata,
    ModuleMetadata, StorageEntryModifier, StorageEntryType, StorageMetadata,
};
use vstd::prelude::*;

verus! {

/// An argument of a call as the node describes it: its name and the name of its type.
#[derive(Debug)]
pub struct RawCallArgument {
    pub name: String,
    pub ty: String,
}

/// A call as the node describes it.
#[derive(Debug)]
pub struct RawCall {
    pub name: String,
    pub arguments: Vec<RawCallArgument>,
    pub documentation: Vec<String>,
}

/// An event as the node describes it: the names of the types of its arguments.
#[derive(Debug)]
pub struct RawEvent {
    pub name: String,
    pub arguments: Vec<String>,
    pub documentation: Vec<String>,
}

/// A storage entry as the node describes it.
#[derive(Debug)]
pub struct RawStorageEntry {
    pub name: String,
    pub modifier: StorageEntryModifier,
    pub ty: StorageEntryType,
    pub default: Vec<u8>,
}

/// The storage of a module as the node describes it.
#[derive(Debug)]
pub struct RawStorage {
    pub prefix: String,
    pub entries: Vec<RawStorageEntry>,
}

/// A module as the node describes it.
#[derive(Debug)]
pub struct RawModule {
    pub index: u8,
    pub name: String,
    pub storage: Option<RawStorage>,
    pub calls: Option<Vec<RawCall>>,
    pub events: Option<Vec<RawEvent>>,
    pub constants: Vec<ModuleConstantMetadata>,
    pub errors: Vec<String>,
}

/// The names of the types of the arguments of a call.
pub open spec fn call_types(call: RawCall) -> Seq<Seq<char>> {
    Seq::new(call.arguments@.len(), |i: int| call.arguments@[i].ty@)
}

/// The names of the types of the arguments of an event.
pub open spec fn event_types(event: RawEvent) -> Seq<Seq<char>> {
    Seq::new(event.arguments@.len(), |i: int| event.arguments@[i]@)
}

/// The shapes that the first `upto` type names denote, or the first rejection.
pub open spec fn shapes_of(types: Seq<Seq<char>>, upto: int) -> Result<
    Seq<ArgumentMetaView>,
    Rejection,
>
    decreases upto,
{
    if upto <= 0 || upto > types.len() {
        Ok(Seq::empty())
    } else {
        match shapes_of(types, upto - 1) {
            Err(rejection) => Err(rejection),
            Ok(before) => match parse_text(types[upto - 1]) {
                Ok(shape) => Ok(before.push(shape)),
                Err(rejection) => Err(rejection),
            },
        }
    }
}

/// The first rejection among the type names of the first `upto` calls, if there is one.
pub open spec fn calls_rejection(calls: Seq<RawCall>, upto: int) -> Option<Rejection>
    decreases upto,
{
    if upto <= 0 || upto > calls.len() {
        None
    } else {
        match calls_rejection(calls, upto - 1) {
            Some(rejection) => Some(rejection),
            None => match shapes_of(call_types(calls[upto - 1]), calls[upto - 1].arguments@.len() as int) {
                Ok(_) => None,
                Err(rejection) => Some(rejection),
            },
        }
    }
}

/// The first rejection among the type names of the first `upto` events, if there is one.
pub open spec fn events_rejection(events: Seq<RawEvent>, upto: int) -> Option<Rejection>
    decreases upto,
{
    if upto <= 0 || upto > events.len() {
        None
    } else {
        match events_rejection(events, upto - 1) {
            Some(rejection) => Some(rejection),
            None => match shapes_of(
                event_types(events[upto - 1]),
                events[upto - 1].arguments@.len() as int,
            ) {
                Ok(_) => None,
                Err(rejection) => Some(rejection),
            },
        }
    }
}

/// The calls of a module as the node describes it; none where it describes none.
pub open spec fn raw_calls(module: RawModule) -> Seq<RawCall> {
    match module.calls {
        Some(calls) => calls@,
        None => Seq::empty(),
    }
}

/// The events of a module as the node describes it; none where it describes none.
pub open spec fn raw_events(module: RawModule) -> Seq<RawEvent> {
    match module.events {
        Some(events) => events@,
        None => Seq::empty(),
    }
}

/// The first rejection in a module: among its calls first, then among its events.
pub open spec fn module_rejection(module: RawModule) -> Option<Rejection> {
    match calls_rejection(raw_calls(module), raw_calls(module).len() as int) {
        Some(rejection) => Some(rejection),
        None => events_rejection(raw_events(module), raw_events(module).len() as int),
    }
}

/// The first rejection among the first `upto` modules.
pub open spec fn modules_rejection(modules: Seq<RawModule>, upto: int) -> Option<Rejection>
    decreases upto,
{
    if upto <= 0 || upto > modules.len() {
        None
    } else {
        match modules_rejection(modules, upto - 1) {
            Some(rejection) => Some(rejection),
            None => module_rejection(modules[upto - 1]),
        }
    }
}

/// Whether an error tells of a rejection.
pub open spec fn tells_rejection(error: ConversionError, rejection: Rejection) -> bool {
    error matches ConversionError::InvalidEventArg(text, why) && text@ == rejection.text && why@
        == reason(rejection.missing)
}

/// Whether `call` is the call at `index` that the node describes as `raw`.
pub open spec fn call_converted(raw: RawCall, index: int, call: ModuleCallMetadata) -> bool {
    &&& call.index == index
    &&& call.name == raw.name
    &&& call.documentation == raw.documentation
    &&& shapes_of(call_types(raw), raw.arguments@.len() as int) == Ok::<
        Seq<ArgumentMetaView>,
        Rejection,
    >(views_of(call.arguments@))
}

/// Whether `event` is the event at `index` that the node describes as `raw`.
pub open spec fn event_converted(raw: RawEvent, index: int, event: ModuleEventMetadata) -> bool {
    &&& event.index == index
    &&& event.name == raw.name
    &&& event.documentation == raw.documentation
    &&& shapes_of(event_types(raw), raw.arguments@.len() as int) == Ok::<
        Seq<ArgumentMetaView>,
        Rejection,
    >(views_of(event.arguments@))
}

/// Whether `entry` is the storage entry that the node describes as `raw` in the
/// storage of the prefix `prefix`.
pub open spec fn entry_converted(raw: RawStorageEntry, prefix: Seq<char>, entry: StorageMetadata) -> bool {
    &&& entry.module_prefix@ == prefix
    &&& entry.storage_prefix == raw.name
    &&& entry.modifier == raw.modifier
    &&& entry.ty == raw.ty
    &&& entry.default == raw.default
}

/// Whether `module` is the module that the node describes as `raw`.
pub open spec fn module_converted(raw: RawModule, module: ModuleMetadata) -> bool {
    &&& module.index == raw.index
    &&& module.name == raw.name
    &&& module.constants == raw.constants
    &&& module.errors == raw.errors
    &&& match raw.storage {
        Some(storage) => {
            &&& module.storage@.len() == storage.entries@.len()
            &&& forall|i: int|
                0 <= i < storage.entries@.len() ==> entry_converted(
                    storage.entries@[i],
                    storage.prefix@,
                    #[trigger] module.storage@[i],
                )
        },
        None => module.storage@.len() == 0,
    }
    &&& module.calls@.len() == raw_calls(raw).len()
    &&& forall|i: int|
        0 <= i < raw_calls(raw).len() ==> call_converted(raw_calls(raw)[i], i, #[trigger] module.calls@[i])
    &&& module.events@.len() == raw_events(raw).len()
    &&& forall|i: int|
        0 <= i < raw_events(raw).len() ==> event_converted(
            raw_events(raw)[i],
            i,
            #[trigger] module.events@[i],
        )
}

/// Parses the names of types, in their order, up to the first that is rejected.
fn parse_types(types: &Vec<String>) -> (result: Result<Vec<ArgumentMeta>, ConversionError>)
    ensures
        match shapes_of(Seq::new(types@.len(), |i: int| types@[i]@), types@.len() as int) {
            Ok(shapes) => result matches Ok(parsed) && views_of(parsed@) == shapes,
            Err(rejection) => result matches Err(error) && tells_rejection(error, rejection),
        },
{
    let ghost texts = Seq::new(types@.len(), |i: int| types@[i]@);
    let mut parsed: Vec<ArgumentMeta> = Vec::new();
    let mut i: usize = 0;
    assert(views_of(parsed@) =~= Seq::<ArgumentMetaView>::empty());
    while i < types.len()
        invariant
            i <= types@.len(),
            texts == Seq::new(types@.len(), |i: int| types@[i]@),
            shapes_of(texts, i as int) == Ok::<Seq<ArgumentMetaView>, Rejection>(views_of(parsed@)),
        decreases types@.len() - i,
    {
        let ghost before = views_of(parsed@);
        assert(texts[i as int] == types@[i as int]@);
        match ArgumentMeta::parse(types[i].as_str()) {
            Ok(shape) => {
                let ghost view = shape@;
                parsed.push(shape);
                assert(views_of(parsed@) =~= before.push(view));
            },
            Err(error) => {
                proof {
                    lemma_shapes_rejection_stays(texts, i + 1, types@.len() as int);
                }
                return Err(error);
            },
        }
        i += 1;
    }
    Ok(parsed)
}

/// Once a type name is rejected, the rejection stays however many names follow.
proof fn lemma_shapes_rejection_stays(types: Seq<Seq<char>>, at: int, upto: int)
    requires
        0 <= at <= upto <= types.len(),
        shapes_of(types, at) is Err,
    ensures
        shapes_of(types, upto) == shapes_of(types, at),
    decreases upto - at,
{
    if at < upto {
        lemma_shapes_rejection_stays(types, at, upto - 1);
    }
}

proof fn lemma_calls_rejection_stays(calls: Seq<RawCall>, at: int, upto: int)
    requires
        0 <= at <= upto <= calls.len(),
        calls_rejection(calls, at) is Some,
    ensures
        calls_rejection(calls, upto) == calls_rejection(calls, at),
    decreases upto - at,
{
    if at < upto {
        lemma_calls_rejection_stays(calls, at, upto - 1);
    }
}

proof fn lemma_events_rejection_stays(events: Seq<RawEvent>, at: int, upto: int)
    requires
        0 <= at <= upto <= events.len(),
        events_rejection(events, at) is Some,
    ensures
        events_rejection(events, upto) == events_rejection(events, at),
    decreases upto - at,
{
    if at < upto {
        lemma_events_rejection_stays(events, at, upto - 1);
    }
}

proof fn lemma_modules_rejection_stays(modules: Seq<RawModule>, at: int, upto: int)
    requires
        0 <= at <= upto <= modules.len(),
        modules_rejection(modules, at) is Some,
    ensures
        modules_rejection(modules, upto) == modules_rejection(modules, at),
    decreases upto - at,
{
    if at < upto {
        lemma_modules_rejection_stays(modules, at, upto - 1);
    }
}

/// The types of the arguments of a call, taken out of it.
fn take_call_types(arguments: Vec<RawCallArgument>) -> (types: Vec<String>)
    ensures
        types@.len() == arguments@.len(),
        forall|i: int| 0 <= i < arguments@.len() ==> types@[i] == arguments@[i].ty,
{
    let mut types: Vec<String> = Vec::new();
    let ghost all = arguments@;
    for argument in it: arguments
        invariant
            all == it.seq(),
            types@.len() == it.index(),
            forall|i: int| 0 <= i < it.index() ==> types@[i] == all[i].ty,
    {
        types.push(argument.ty);
    }
    types
}

/// Converts the call at `index`.
fn convert_call(index: usize, call: RawCall) -> (result: Result<ModuleCallMetadata, ConversionError>)
    ensures
        match shapes_of(call_types(call), call.arguments@.len() as int) {
            Ok(_) => result matches Ok(converted) && call_converted(call, index as int, converted),
            Err(rejection) => result matches Err(error) && tells_rejection(error, rejection),
        },
{
    let ghost types_model = call_types(call);
    let types = take_call_types(call.arguments);
    assert(Seq::new(types@.len(), |i: int| types@[i]@) =~= types_model);
    match parse_types(&types) {
        Ok(arguments) => Ok(
            ModuleCallMetadata { index, name: call.name, arguments, documentation: call.documentation },
        ),
        Err(error) => Err(error),
    }
}

/// Converts the event at `index`.
fn convert_event(index: usize, event: RawEvent) -> (result: Result<
    ModuleEventMetadata,
    ConversionError,
>)
    ensures
        match shapes_of(event_types(event), event.arguments@.len() as int) {
            Ok(_) => result matches Ok(converted) && event_converted(event, index as int, converted),
            Err(rejection) => result matches Err(error) && tells_rejection(error, rejection),
        },
{
    assert(Seq::new(event.arguments@.len(), |i: int| event.arguments@[i]@) =~= event_types(event));
    match parse_types(&event.arguments) {
        Ok(arguments) => Ok(
            ModuleEventMetadata {
                index,
                name: event.name,
                arguments,
                documentation: event.documentation,
            },
        ),
        Err(error) => Err(error),
    }
}

/// Converts a storage entry of the storage of the prefix `module_prefix`.
fn convert_entry(module_prefix: String, entry: RawStorageEntry) -> (converted: StorageMetadata)
    ensures
        entry_converted(entry, module_prefix@, converted),
{
    StorageMetadata {
        module_prefix,
        storage_prefix: entry.name,
        modifier: entry.modifier,
        ty: entry.ty,
        default: entry.default,
    }
}

/// Converts the calls of a module.
fn convert_calls(calls: Vec<RawCall>) -> (result: Result<Vec<ModuleCallMetadata>, ConversionError>)
    ensures
        match calls_rejection(calls@, calls@.len() as int) {
            None => result matches Ok(converted) && converted@.len() == calls@.len() && forall|
                i: int,
            |
                0 <= i < calls@.len() ==> call_converted(calls@[i], i, #[trigger] converted@[i]),
            Some(rejection) => result matches Err(error) && tells_rejection(error, rejection),
        },
{
    let mut converted: Vec<ModuleCallMetadata> = Vec::new();
    let ghost all = calls@;
    for call in it: calls
        invariant
            all == it.seq(),
            converted@.len() == it.index(),
            calls_rejection(all, it.index() as int) is None,
            forall|i: int| 0 <= i < it.index() ==> call_converted(all[i], i, #[trigger] converted@[i]),
    {
        let ghost at = it.index() as int;
        match convert_call(converted.len(), call) {
            Ok(one) => {
                converted.push(one);
            },
            Err(error) => {
                proof {
                    lemma_calls_rejection_stays(all, at + 1, all.len() as int);
                }
                return Err(error);
            },
        }
    }
    Ok(converted)
}

/// Converts the events of a module.
fn convert_events(events: Vec<RawEvent>) -> (result: Result<Vec<ModuleEventMetadata>, ConversionError>)
    ensures
        match events_rejection(events@, events@.len() as int) {
            None => result matches Ok(converted) && converted@.len() == events@.len() && forall|
                i: int,
            |
                0 <= i < events@.len() ==> event_converted(events@[i], i, #[trigger] converted@[i]),
            Some(rejection) => result matches Err(error) && tells_rejection(error, rejection),
        },
{
    let mut converted: Vec<ModuleEventMetadata> = Vec::new();
    let ghost all = events@;
    for event in it: events
        invariant
            all == it.seq(),
            converted@.len() == it.index(),
            events_rejection(all, it.index() as int) is None,
            forall|i: int| 0 <= i < it.index() ==> event_converted(all[i], i, #[trigger] converted@[i]),
    {
        let ghost at = it.index() as int;
        match convert_event(converted.len(), event) {
            Ok(one) => {
                converted.push(one);
            },
            Err(error) => {
                proof {
                    lemma_events_rejection_stays(all, at + 1, all.len() as int);
                }
                return Err(error);
            },
        }
    }
    Ok(converted)
}

/// Converts the storage of a module.
fn convert_storage(storage: RawStorage) -> (converted: Vec<StorageMetadata>)
    ensures
        converted@.len() == storage.entries@.len(),
        forall|i: int|
            0 <= i < storage.entries@.len() ==> entry_converted(
                storage.entries@[i],
                storage.prefix@,
                #[trigger] converted@[i],
            ),
{
    let mut converted: Vec<StorageMetadata> = Vec::new();
    let prefix = storage.prefix;
    let ghost all = storage.entries@;
    for entry in it: storage.entries
        invariant
            all == it.seq(),
            converted@.len() == it.index(),
            forall|i: int|
                0 <= i < it.index() ==> entry_converted(all[i], prefix@, #[trigger] converted@[i]),
    {
        converted.push(convert_entry(prefix.clone(), entry));
    }
    converted
}

/// Converts one module.
pub fn convert_module(module: RawModule) -> (result: Result<ModuleMetadata, ConversionError>)
    ensures
        match module_rejection(module) {
            None => result matches Ok(converted) && module_converted(module, converted),
            Some(rejection) => result matches Err(error) && tells_rejection(error, rejection),
        },
{
    let storage = match module.storage {
        Some(storage) => convert_storage(storage),
        None => Vec::new(),
    };
    let calls = match module.calls {
        Some(calls) => match convert_calls(calls) {
            Ok(converted) => converted,
            Err(error) => {
                return Err(error);
            },
        },
        None => Vec::new(),
    };
    let events = match module.events {
        Some(events) => match convert_events(events) {
            Ok(converted) => converted,
            Err(error) => {
                return Err(error);
            },
        },
        None => Vec::new(),
    };
    Ok(
        ModuleMetadata {
            index: module.index,
            name: module.name,
            storage,
            constants: module.constants,
            calls,
            events,
            errors: module.errors,
        },
    )
}

/// Converts the modules that the node describes, in their order, up to the
/// first type name that is rejected.
pub fn convert_modules(modules: Vec<RawModule>) -> (result: Result<Vec<ModuleMetadata>, MetadataError>)
    ensures
        match modules_rejection(modules@, modules@.len() as int) {
            None => result matches Ok(converted) && converted@.len() == modules@.len() && forall|
                i: int,
            |
                0 <= i < modules@.len() ==> module_converted(modules@[i], #[trigger] converted@[i]),
            Some(rejection) => result matches Err(MetadataError::Conversion(error))
                && tells_rejection(error, rejection),
        },
{
    let mut converted: Vec<ModuleMetadata> = Vec::new();
    let ghost all = modules@;
    for module in it: modules
        invariant
            all == it.seq(),
            converted@.len() == it.index(),
            modules_rejection(all, it.index() as int) is None,
            forall|i: int| 0 <= i < it.index() ==> module_converted(all[i], #[trigger] converted@[i]),
    {
        let ghost at = it.index() as int;
        match convert_module(module) {
            Ok(one) => {
                converted.push(one);
            },
            Err(error) => {
                proof {
                    lemma_modules_rejection_stays(all, at + 1, all.len() as int);
                }
                return Err(MetadataError::Conversion(error));
            },
        }
    }
    Ok(converted)
}

} // verus!
