//! Entry validation for a zome with two entry types, one that always
//! validates and one that never does.

use vstd::prelude::*;
use vstd::string::*;
use crate::payload::{decode, decoded_payload, encode, encoding, encoding_decodes};
use crate::validation::{OutcomeModel, ValidationOutcome};

verus! {

/// Who may see an entry.
#[derive(Debug, Clone, Copy, PartialEq, Eq, Structural)]
pub enum EntryVisibility {
    Public,
    Private,
}

/// The type of an app entry, as an action names it: the index of the zome
/// that defines it and the index of the type in that zome.
#[derive(Debug, Clone, Copy, PartialEq, Eq, Structural)]
pub struct AppEntryDef {
    pub entry_index: u8,
    pub zome_index: u8,
    pub visibility: EntryVisibility,
}

/// What kind of entry an action refers to.
#[derive(Debug, Clone, Copy, PartialEq, Eq, Structural)]
pub enum EntryType {
    AgentPubKey,
    App(AppEntryDef),
    CapClaim,
    CapGrant,
}

/// An entry. Of the system entries only the kind is kept; an app entry is its
/// serialized payload.
#[derive(Debug)]
pub enum Entry {
    Agent([u8; 36]),
    App(Vec<u8>),
    CounterSign(Vec<u8>),
    CapClaim,
    CapGrant,
}

/// Mathematical model of an [`Entry`].
pub enum EntryModel {
    Agent(Seq<u8>),
    App(Seq<u8>),
    CounterSign(Seq<u8>),
    CapClaim,
    CapGrant,
}

impl View for Entry {
    type V = EntryModel;

    open spec fn view(&self) -> EntryModel {
        match self {
            Entry::Agent(key) => EntryModel::Agent(key@),
            Entry::App(bytes) => EntryModel::App(bytes@),
            Entry::CounterSign(bytes) => EntryModel::CounterSign(bytes@),
            Entry::CapClaim => EntryModel::CapClaim,
            Entry::CapGrant => EntryModel::CapGrant,
        }
    }
}

/// The storing of a new entry: the type that the creating action gives it,
/// and the entry.
#[derive(Debug)]
pub struct StoreEntry {
    pub entry_type: EntryType,
    pub entry: Entry,
}

/// The change that a validation callback is asked about.
#[derive(Debug)]
pub enum Op {
    StoreRecord,
    StoreEntry(StoreEntry),
    RegisterUpdate,
    RegisterDelete,
    RegisterAgentActivity,
    RegisterCreateLink,
    RegisterDeleteLink,
}

/// Mathematical model of an [`Op`].
pub enum OpModel {
    StoreEntry { entry_type: EntryType, entry: EntryModel },
    Other,
}

impl View for Op {
    type V = OpModel;

    open spec fn view(&self) -> OpModel {
        match self {
            Op::StoreEntry(store) => OpModel::StoreEntry {
                entry_type: store.entry_type,
                entry: store.entry@,
            },
            _ => OpModel::Other,
        }
    }
}

/// An error of the guest.
#[derive(Debug)]
pub enum WasmError {
    /// Bytes that are not the serialized form of what was expected.
    Serialize,
    /// An error that the guest describes in words.
    Guest(String),
}

/// Mathematical model of a [`WasmError`].
pub enum WasmErrorModel {
    Serialize,
    Guest(Seq<char>),
}

impl View for WasmError {
    type V = WasmErrorModel;

    open spec fn view(&self) -> WasmErrorModel {
        match self {
            WasmError::Serialize => WasmErrorModel::Serialize,
            WasmError::Guest(message) => WasmErrorModel::Guest(message@),
        }
    }
}

/// A type as the whole DNA numbers it: the index of its zome among all
/// zomes, and the index of the type.
#[derive(Debug, Clone, Copy, PartialEq, Eq, Structural)]
pub struct ScopedZomeType {
    pub zome_index: u8,
    pub zome_type: u8,
}

/// A type as one zome numbers it: the index of a zome among those in its
/// scope, and the index of the type among that zome's types.
#[derive(Debug, Clone, Copy, PartialEq, Eq, Structural)]
pub struct ZomeTypesKey {
    pub zome_index: u8,
    pub type_index: u8,
}

/// The entry types in the scope of a zome: for each zome it depends on, in
/// order, that zome's index in the DNA and the types it defines.
#[derive(Debug)]
pub struct ScopedEntryTypes(pub Vec<(u8, Vec<u8>)>);

impl View for ScopedEntryTypes {
    type V = Seq<(u8, Seq<u8>)>;

    open spec fn view(&self) -> Seq<(u8, Seq<u8>)> {
        self.0@.map_values(|zome: (u8, Vec<u8>)| (zome.0, zome.1@))
    }
}

/// The first position, from `from` on, of the zome with index `wanted`.
pub open spec fn zome_position(zomes: Seq<(u8, Seq<u8>)>, wanted: u8, from: int) -> Option<int>
    decreases zomes.len() - from,
{
    if from < 0 || from >= zomes.len() {
        None
    } else if zomes[from].0 == wanted {
        Some(from)
    } else {
        zome_position(zomes, wanted, from + 1)
    }
}

/// The first position, from `from` on, of the type `wanted`.
pub open spec fn type_position(types: Seq<u8>, wanted: u8, from: int) -> Option<int>
    decreases types.len() - from,
{
    if from < 0 || from >= types.len() {
        None
    } else if types[from] == wanted {
        Some(from)
    } else {
        type_position(types, wanted, from + 1)
    }
}

/// The key under which a scope holds a type: the first zome with the type's
/// zome index, and the first place of the type among that zome's types, where
/// both exist and fit in a byte.
pub open spec fn key_of_type(zomes: Seq<(u8, Seq<u8>)>, scoped: ScopedZomeType) -> Option<
    ZomeTypesKey,
> {
    match zome_position(zomes, scoped.zome_index, 0) {
        None => None,
        Some(zome) => match type_position(zomes[zome].1, scoped.zome_type, 0) {
            None => None,
            Some(place) => if zome <= 255 && place <= 255 {
                Some(ZomeTypesKey { zome_index: zome as u8, type_index: place as u8 })
            } else {
                None
            },
        },
    }
}

/// The type that a scope holds under a key.
pub open spec fn type_at_key(zomes: Seq<(u8, Seq<u8>)>, key: ZomeTypesKey) -> Option<
    ScopedZomeType,
> {
    if key.zome_index < zomes.len() && key.type_index < zomes[key.zome_index as int].1.len() {
        Some(
            ScopedZomeType {
                zome_index: zomes[key.zome_index as int].0,
                zome_type: zomes[key.zome_index as int].1[key.type_index as int],
            },
        )
    } else {
        None
    }
}

/// How `hdi` prints, for debugging, the type of an app entry with these
/// indices, public or private.
pub uninterp spec fn app_entry_type_debug(entry_index: u8, zome_index: u8, public: bool) -> Seq<
    char,
>;

/// The message of `hdi` for an entry of this size that is over the limit.
pub uninterp spec fn entry_too_large_message(size: nat) -> Seq<char>;

impl ScopedEntryTypes {
    /// Calls `ScopedZomeTypes::find_key` of `holochain_integrity_types`
    /// (through `hdi`) on the same lists. That function takes the first zome
    /// whose index is the type's zome index, then the first place of the type
    /// in that zome's list, and gives both as a key if each fits in a byte.
    #[verifier::external_body]
    fn outside_find_key(&self, scoped: ScopedZomeType) -> (key: Option<ZomeTypesKey>)
        ensures
            key == key_of_type(self@, scoped),
    {
        let types = hdi::prelude::ScopedZomeTypes::<hdi::prelude::EntryDefIndex>(
            self.0.iter().map(
                |(zome, defs)| ((*zome).into(), defs.iter().map(|def| (*def).into()).collect()),
            ).collect(),
        );
        let wanted = hdi::prelude::ScopedZomeType {
            zome_index: scoped.zome_index.into(),
            zome_type: scoped.zome_type.into(),
        };
        types.find_key(wanted).map(
            |key| ZomeTypesKey { zome_index: key.zome_index.0, type_index: key.type_index.0 },
        )
    }

    /// Calls `ScopedZomeTypes::get` of `holochain_integrity_types` (through
    /// `hdi`) on the same lists. That function indexes the zomes by the key's
    /// zome index and that zome's types by its type index, and gives the
    /// zome's own index with the type found there.
    #[verifier::external_body]
    fn outside_get(&self, key: ZomeTypesKey) -> (scoped: Option<ScopedZomeType>)
        ensures
            scoped == type_at_key(self@, key),
    {
        let types = hdi::prelude::ScopedZomeTypes::<hdi::prelude::EntryDefIndex>(
            self.0.iter().map(
                |(zome, defs)| ((*zome).into(), defs.iter().map(|def| (*def).into()).collect()),
            ).collect(),
        );
        let wanted = hdi::prelude::ZomeTypesKey::<hdi::prelude::EntryDefIndex> {
            zome_index: key.zome_index.into(),
            type_index: key.type_index.into(),
        };
        types.get(wanted).map(
            |found| ScopedZomeType { zome_index: found.zome_index.0, zome_type: found.zome_type.0 },
        )
    }

    /// The key under which this scope holds a type, if it holds it.
    pub fn find_key(&self, scoped: ScopedZomeType) -> (key: Option<ZomeTypesKey>)
        ensures
            key == key_of_type(self@, scoped),
    {
        self.outside_find_key(scoped)
    }

    /// The type that this scope holds under a key, if any.
    pub fn get(&self, key: ZomeTypesKey) -> (scoped: Option<ScopedZomeType>)
        ensures
            scoped == type_at_key(self@, key),
    {
        self.outside_get(key)
    }
}

/// Formats the `hdi` entry type `EntryType::App` of an `AppEntryDef` with
/// these fields by its derived `Debug`. The contract only names the text.
#[verifier::external_body]
fn outside_entry_type_debug(def: &AppEntryDef) -> (text: String)
    ensures
        text@ == app_entry_type_debug(
            def.entry_index,
            def.zome_index,
            def.visibility == EntryVisibility::Public,
        ),
{
    let visibility = match def.visibility {
        EntryVisibility::Public => hdi::prelude::EntryVisibility::Public,
        EntryVisibility::Private => hdi::prelude::EntryVisibility::Private,
    };
    let entry_type = hdi::prelude::EntryType::App(
        hdi::prelude::AppEntryDef::new(def.entry_index.into(), def.zome_index.into(), visibility),
    );
    format!("{:?}", entry_type)
}

/// Formats `EntryError::EntryTooLarge` of `holochain_integrity_types`
/// (through `hdi`) for this size by its `Display`. The contract only names
/// the text.
#[verifier::external_body]
fn outside_too_large_message(size: usize) -> (text: String)
    ensures
        text@ == entry_too_large_message(size as nat),
{
    hdi::prelude::EntryError::EntryTooLarge(size).to_string()
}

/// The largest payload, in bytes, that an app entry may have.
pub const ENTRY_SIZE_LIMIT: usize = 4000000;

/// The two kinds of entry of this zome.
#[derive(Debug, Clone, Copy, PartialEq, Eq, Structural)]
pub enum ThisWasmEntry {
    AlwaysValidates,
    NeverValidates,
}

/// How many validators must agree before an entry of either kind is
/// accepted.
pub const REQUIRED_VALIDATIONS: u8 = 5;

/// The entry of this zome that an entry holds: an app entry whose payload
/// reads as one.
pub open spec fn decoded(entry: EntryModel) -> Option<ThisWasmEntry> {
    match entry {
        EntryModel::App(bytes) => decoded_payload(bytes),
        _ => None,
    }
}

/// One entry type as a zome declares it.
#[derive(Debug)]
pub struct EntryDef {
    pub id: String,
    pub visibility: EntryVisibility,
    pub required_validations: u8,
    pub cache_at_agent_activity: bool,
}

impl Entry {
    /// Makes an app entry of a serialized payload, unless the payload is over
    /// the size limit.
    pub fn app(payload: Vec<u8>) -> (entry: Result<Entry, WasmError>)
        ensures
            match entry {
                Ok(e) => payload@.len() <= ENTRY_SIZE_LIMIT && e@ == EntryModel::App(payload@),
                Err(e) => payload@.len() > ENTRY_SIZE_LIMIT && e@ == WasmErrorModel::Guest(
                    entry_too_large_message(payload@.len()),
                ),
            },
    {
        let size = payload.len();
        if size > ENTRY_SIZE_LIMIT {
            Err(WasmError::Guest(outside_too_large_message(size)))
        } else {
            Ok(Entry::App(payload))
        }
    }
}

impl ThisWasmEntry {
    /// The serialized form of this entry.
    pub fn encode(&self) -> (bytes: Vec<u8>)
        ensures
            bytes@ == encoding(*self),
    {
        encode(*self)
    }

    /// Reads an entry of this zome out of an entry. Anything but an app entry
    /// is refused in words; an app entry whose payload does not read as an
    /// entry of this zome is refused as not deserializable.
    pub fn try_from_entry(entry: &Entry) -> (this: Result<ThisWasmEntry, WasmError>)
        ensures
            match this {
                Ok(e) => decoded(entry@) == Some(e),
                Err(e) => decoded(entry@) is None && e@ == (if entry@ is App {
                    WasmErrorModel::Serialize
                } else {
                    WasmErrorModel::Guest("failed to deserialize ThisWasmEntry"@)
                }),
            },
    {
        match entry {
            Entry::App(bytes) => match decode(bytes.as_slice()) {
                Some(this) => Ok(this),
                None => Err(WasmError::Serialize),
            },
            _ => Err(WasmError::Guest(String::from_str("failed to deserialize ThisWasmEntry"))),
        }
    }

    /// The app entry that holds this entry. It never fails: the serialized
    /// form is far under the size limit.
    pub fn to_entry(&self) -> (entry: Result<Entry, WasmError>)
        ensures
            entry is Ok,
            entry->Ok_0@ == EntryModel::App(encoding(*self)),
            decoded(entry->Ok_0@) == Some(*self),
    {
        let bytes = self.encode();
        proof {
            encoding_decodes(*self);
        }
        Entry::app(bytes)
    }

    /// The type of this zome's entries as the whole DNA numbers it: what the
    /// scope holds under the first type of the first zome.
    pub fn scoped_entry_def_index(&self, types: &ScopedEntryTypes) -> (scoped: Result<
        ScopedZomeType,
        WasmError,
    >)
        ensures
            match scoped {
                Ok(found) => type_at_key(types@, ZomeTypesKey { zome_index: 0, type_index: 0 })
                    == Some(found),
                Err(e) => type_at_key(types@, ZomeTypesKey { zome_index: 0, type_index: 0 })
                    is None && e@ == WasmErrorModel::Guest(
                    "ThisWasmEntry did not map to an EntryDefIndex within this scope"@,
                ),
            },
    {
        match types.get(ZomeTypesKey { zome_index: 0, type_index: 0 }) {
            Some(found) => Ok(found),
            None => Err(
                WasmError::Guest(
                    String::from_str(
                        "ThisWasmEntry did not map to an EntryDefIndex within this scope",
                    ),
                ),
            ),
        }
    }
}

/// The entry types that this zome declares: the first of its two kinds only.
pub fn entry_defs() -> (defs: Vec<EntryDef>)
    ensures
        defs@.len() == 1,
        defs@[0].id@ == "always_validates"@,
        defs@[0].visibility == EntryVisibility::Public,
        defs@[0].required_validations == REQUIRED_VALIDATIONS,
        !defs@[0].cache_at_agent_activity,
{
    let mut defs: Vec<EntryDef> = Vec::new();
    defs.push(
        EntryDef {
            id: String::from_str("always_validates"),
            visibility: EntryVisibility::Public,
            required_validations: REQUIRED_VALIDATIONS,
            cache_at_agent_activity: false,
        },
    );
    defs
}

/// How many entry types this zome declares.
pub fn num_entry_types() -> (n: u8)
    ensures
        n == 1,
{
    1
}

/// How many link types this zome declares.
pub fn num_link_types() -> (n: u8)
    ensures
        n == 0,
{
    0
}

/// What the validation callback answers to an operation, in a scope of entry
/// types.
pub open spec fn validation_of(op: OpModel, types: Seq<(u8, Seq<u8>)>) -> OutcomeModel {
    match op {
        OpModel::StoreEntry { entry_type: EntryType::App(def), entry } => {
            let scoped = ScopedZomeType { zome_index: def.zome_index, zome_type: def.entry_index };
            if key_of_type(types, scoped) is Some {
                match decoded(entry) {
                    Some(ThisWasmEntry::AlwaysValidates) => OutcomeModel::Valid,
                    Some(ThisWasmEntry::NeverValidates) => OutcomeModel::Invalid(
                        "NeverValidates never validates"@,
                    ),
                    None => OutcomeModel::Invalid("failed to deserialize ThisWasmEntry"@),
                }
            } else {
                OutcomeModel::Invalid(
                    "Not a ThisWasmEntry but a "@ + app_entry_type_debug(
                        def.entry_index,
                        def.zome_index,
                        def.visibility == EntryVisibility::Public,
                    ),
                )
            }
        },
        _ => OutcomeModel::Valid,
    }
}

/// Whether the answer to an operation depends on the entry types in scope:
/// it does for the storing of an app entry, and for nothing else.
pub open spec fn asks_for_scope(op: OpModel) -> bool {
    match op {
        OpModel::StoreEntry { entry_type: EntryType::App(_), .. } => true,
        _ => false,
    }
}

impl Op {
    /// Whether the entry types in scope are needed to validate this
    /// operation. Where they are not, the operation is valid in every scope,
    /// and the host need not be asked for them.
    pub fn needs_entry_types(&self) -> (needed: bool)
        ensures
            needed == asks_for_scope(self@),
            !needed ==> forall|types: Seq<(u8, Seq<u8>)>| #[trigger]
                validation_of(self@, types) == OutcomeModel::Valid,
    {
        match self {
            Op::StoreEntry(store) => match &store.entry_type {
                EntryType::App(_) => true,
                _ => false,
            },
            _ => false,
        }
    }
}

/// The outcome for an entry whose type is not in the zome's scope, from the
/// description of that type.
pub fn foreign_entry_outcome(described: &str) -> (outcome: ValidationOutcome)
    ensures
        outcome@ == OutcomeModel::Invalid("Not a ThisWasmEntry but a "@ + described@),
{
    ValidationOutcome::Invalid(String::from_str("Not a ThisWasmEntry but a ").concat(described))
}

/// The validation callback of this zome.
///
/// Only the storing of an app entry is looked at; every other operation is
/// valid. An entry whose type is not in the zome's scope is invalid, and so
/// is one whose payload is not an entry of this zome: neither is an error.
/// Of this zome's entries one kind is valid and the other is not.
pub fn validate(op: &Op, types: &ScopedEntryTypes) -> (outcome: ValidationOutcome)
    ensures
        outcome@ == validation_of(op@, types@),
{
    match op {
        Op::StoreEntry(store) => match &store.entry_type {
            EntryType::App(def) => {
                let scoped = ScopedZomeType {
                    zome_index: def.zome_index,
                    zome_type: def.entry_index,
                };
                if types.find_key(scoped).is_some() {
                    match ThisWasmEntry::try_from_entry(&store.entry) {
                        Ok(ThisWasmEntry::AlwaysValidates) => ValidationOutcome::Valid,
                        Ok(ThisWasmEntry::NeverValidates) => ValidationOutcome::Invalid(
                            String::from_str("NeverValidates never validates"),
                        ),
                        Err(_) => ValidationOutcome::Invalid(
                            String::from_str("failed to deserialize ThisWasmEntry"),
                        ),
                    }
                } else {
                    let described = outside_entry_type_debug(def);
                    foreign_entry_outcome(described.as_str())
                }
            },
            _ => ValidationOutcome::Valid,
        },
        _ => ValidationOutcome::Valid,
    }
}

} // verus!
