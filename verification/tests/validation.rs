use conductor_gate::integrity::{
    entry_defs, foreign_entry_outcome, num_entry_types, num_link_types, validate, AppEntryDef,
    Entry, EntryType, EntryVisibility, Op, ScopedEntryTypes, ScopedZomeType, StoreEntry,
    ThisWasmEntry, WasmError, ZomeTypesKey, ENTRY_SIZE_LIMIT, REQUIRED_VALIDATIONS,
};
use conductor_gate::validation::{aggregate, EntryStatus, ValidationOutcome};

fn valid(n: usize) -> Vec<ValidationOutcome> {
    (0..n).map(|_| ValidationOutcome::Valid).collect()
}

fn invalid(reason: &str) -> ValidationOutcome {
    ValidationOutcome::Invalid(reason.to_string())
}

#[test]
fn five_valid_outcomes_accept() {
    for n in 0..5usize {
        match aggregate(5, &valid(n)) {
            EntryStatus::Pending(count) => assert_eq!(count as usize, n),
            other => panic!("unexpected: {:?}", other),
        }
    }
    assert!(matches!(aggregate(5, &valid(5)), EntryStatus::Accepted));
    assert!(matches!(aggregate(5, &valid(9)), EntryStatus::Accepted));
}

#[test]
fn one_invalid_outcome_rejects() {
    let mut outcomes = valid(3);
    outcomes.push(invalid("no"));
    outcomes.extend(valid(5));
    outcomes.push(invalid("later"));
    match aggregate(5, &outcomes) {
        EntryStatus::Rejected(reason) => assert_eq!(reason, "no"),
        other => panic!("unexpected: {:?}", other),
    }
    match aggregate(5, &[invalid("first")]) {
        EntryStatus::Rejected(reason) => assert_eq!(reason, "first"),
        other => panic!("unexpected: {:?}", other),
    }
}

#[test]
fn invalid_after_acceptance_changes_nothing() {
    let mut outcomes = valid(5);
    outcomes.push(invalid("late"));
    assert!(matches!(aggregate(5, &outcomes), EntryStatus::Accepted));
}

#[test]
fn recording_step_by_step() {
    let status = EntryStatus::proposed();
    assert!(!status.is_terminal());
    let status = status.record(2, &ValidationOutcome::Valid);
    assert!(matches!(status, EntryStatus::Pending(1)));
    let status = status.record(2, &ValidationOutcome::Valid);
    assert!(matches!(status, EntryStatus::Accepted));
    assert!(status.is_terminal());
    let status = status.record(2, &invalid("late"));
    assert!(matches!(status, EntryStatus::Accepted));
    let rejected = EntryStatus::proposed().record(2, &invalid("bad"));
    assert!(rejected.is_terminal());
    let rejected = rejected.record(2, &ValidationOutcome::Valid).record(2, &invalid("worse"));
    match rejected {
        EntryStatus::Rejected(reason) => assert_eq!(reason, "bad"),
        other => panic!("unexpected: {:?}", other),
    }
    assert!(matches!(
        EntryStatus::Pending(255).record(255, &ValidationOutcome::Valid),
        EntryStatus::Accepted
    ));
    assert!(matches!(
        EntryStatus::Pending(253).record(255, &ValidationOutcome::Valid),
        EntryStatus::Pending(254)
    ));
}

fn scope() -> ScopedEntryTypes {
    ScopedEntryTypes(vec![(3, vec![10, 11]), (5, vec![20]), (3, vec![30])])
}

fn store(zome_index: u8, entry_index: u8, entry: Entry) -> Op {
    Op::StoreEntry(StoreEntry {
        entry_type: EntryType::App(AppEntryDef {
            entry_index,
            zome_index,
            visibility: EntryVisibility::Public,
        }),
        entry,
    })
}

#[test]
fn scope_lookups() {
    let types = scope();
    assert_eq!(
        types.find_key(ScopedZomeType { zome_index: 3, zome_type: 11 }),
        Some(ZomeTypesKey { zome_index: 0, type_index: 1 })
    );
    assert_eq!(
        types.find_key(ScopedZomeType { zome_index: 5, zome_type: 20 }),
        Some(ZomeTypesKey { zome_index: 1, type_index: 0 })
    );
    assert_eq!(types.find_key(ScopedZomeType { zome_index: 3, zome_type: 30 }), None);
    assert_eq!(types.find_key(ScopedZomeType { zome_index: 4, zome_type: 10 }), None);
    assert_eq!(
        types.get(ZomeTypesKey { zome_index: 2, type_index: 0 }),
        Some(ScopedZomeType { zome_index: 3, zome_type: 30 })
    );
    assert_eq!(
        types.get(ZomeTypesKey { zome_index: 0, type_index: 1 }),
        Some(ScopedZomeType { zome_index: 3, zome_type: 11 })
    );
    assert_eq!(types.get(ZomeTypesKey { zome_index: 1, type_index: 1 }), None);
    assert_eq!(types.get(ZomeTypesKey { zome_index: 3, type_index: 0 }), None);
}

#[test]
fn always_validates_is_valid() {
    let entry = ThisWasmEntry::AlwaysValidates.to_entry().unwrap();
    assert!(matches!(validate(&store(3, 10, entry), &scope()), ValidationOutcome::Valid));
}

#[test]
fn never_validates_is_invalid() {
    let entry = ThisWasmEntry::NeverValidates.to_entry().unwrap();
    match validate(&store(5, 20, entry), &scope()) {
        ValidationOutcome::Invalid(reason) => assert_eq!(reason, "NeverValidates never validates"),
        other => panic!("unexpected: {:?}", other),
    }
}

#[test]
fn entry_of_a_type_out_of_scope_is_invalid() {
    let entry = ThisWasmEntry::AlwaysValidates.to_entry().unwrap();
    match validate(&store(7, 3, entry), &scope()) {
        ValidationOutcome::Invalid(reason) => assert_eq!(
            reason,
            "Not a ThisWasmEntry but a App(AppEntryDef { entry_index: EntryDefIndex(3), \
             zome_index: ZomeIndex(7), visibility: Public })"
        ),
        other => panic!("unexpected: {:?}", other),
    }
    let private = Op::StoreEntry(StoreEntry {
        entry_type: EntryType::App(AppEntryDef {
            entry_index: 0,
            zome_index: 9,
            visibility: EntryVisibility::Private,
        }),
        entry: Entry::CapClaim,
    });
    match validate(&private, &scope()) {
        ValidationOutcome::Invalid(reason) => assert_eq!(
            reason,
            "Not a ThisWasmEntry but a App(AppEntryDef { entry_index: EntryDefIndex(0), \
             zome_index: ZomeIndex(9), visibility: Private })"
        ),
        other => panic!("unexpected: {:?}", other),
    }
}

#[test]
fn foreign_entry_reason_is_built_from_the_description() {
    match foreign_entry_outcome("X") {
        ValidationOutcome::Invalid(reason) => assert_eq!(reason, "Not a ThisWasmEntry but a X"),
        other => panic!("unexpected: {:?}", other),
    }
}

#[test]
fn malformed_entry_is_invalid_not_an_error() {
    for entry in [Entry::App(vec![0xc0]), Entry::App(vec![]), Entry::CapGrant, Entry::Agent([0; 36])]
    {
        match validate(&store(3, 10, entry), &scope()) {
            ValidationOutcome::Invalid(reason) => {
                assert_eq!(reason, "failed to deserialize ThisWasmEntry")
            }
            other => panic!("unexpected: {:?}", other),
        }
    }
}

#[test]
fn other_operations_are_valid() {
    for op in [
        Op::StoreRecord,
        Op::RegisterUpdate,
        Op::RegisterDelete,
        Op::RegisterAgentActivity,
        Op::RegisterCreateLink,
        Op::RegisterDeleteLink,
        Op::StoreEntry(StoreEntry { entry_type: EntryType::CapGrant, entry: Entry::CapGrant }),
        Op::StoreEntry(StoreEntry { entry_type: EntryType::AgentPubKey, entry: Entry::App(vec![]) }),
    ] {
        assert!(matches!(validate(&op, &scope()), ValidationOutcome::Valid));
    }
}

struct Variant(u32, &'static str);

impl serde::Serialize for Variant {
    fn serialize<S: serde::Serializer>(&self, serializer: S) -> Result<S::Ok, S::Error> {
        serializer.serialize_unit_variant("ThisWasmEntry", self.0, self.1)
    }
}

impl std::fmt::Debug for Variant {
    fn fmt(&self, f: &mut std::fmt::Formatter<'_>) -> std::fmt::Result {
        f.write_str(self.1)
    }
}

#[test]
fn encoding_is_that_of_the_serializer() {
    assert_eq!(
        ThisWasmEntry::AlwaysValidates.encode(),
        hdi::prelude::encode(&Variant(0, "AlwaysValidates")).unwrap()
    );
    assert_eq!(
        ThisWasmEntry::NeverValidates.encode(),
        hdi::prelude::encode(&Variant(1, "NeverValidates")).unwrap()
    );
}

#[test]
fn entries_round_trip() {
    for this in [ThisWasmEntry::AlwaysValidates, ThisWasmEntry::NeverValidates] {
        let entry = this.to_entry().unwrap();
        assert!(matches!(&entry, Entry::App(bytes) if *bytes == this.encode()));
        assert_eq!(ThisWasmEntry::try_from_entry(&entry).unwrap(), this);
    }
    assert!(matches!(
        ThisWasmEntry::try_from_entry(&Entry::App(vec![0x81, 0xaf])),
        Err(WasmError::Serialize)
    ));
    match ThisWasmEntry::try_from_entry(&Entry::CounterSign(ThisWasmEntry::AlwaysValidates.encode()))
    {
        Err(WasmError::Guest(message)) => assert_eq!(message, "failed to deserialize ThisWasmEntry"),
        other => panic!("unexpected: {:?}", other),
    }
}

#[test]
fn app_entry_size_limit() {
    assert_eq!(ENTRY_SIZE_LIMIT, 4_000_000);
    assert_eq!(ENTRY_SIZE_LIMIT, hdi::prelude::ENTRY_SIZE_LIMIT);
    assert!(matches!(Entry::app(vec![0; 4_000_000]), Ok(Entry::App(bytes)) if bytes.len() == 4_000_000));
    match Entry::app(vec![0; 4_000_001]) {
        Err(WasmError::Guest(message)) => assert_eq!(
            message,
            "Attempted to create an Entry whose size exceeds the limit.\nEntry size: 4000001\nLimit: 4000000"
        ),
        other => panic!("unexpected: {:?}", other.map(|_| ())),
    }
}

#[test]
fn scoped_index_of_this_zome() {
    let this = ThisWasmEntry::AlwaysValidates;
    assert_eq!(
        this.scoped_entry_def_index(&scope()).unwrap(),
        ScopedZomeType { zome_index: 3, zome_type: 10 }
    );
    for empty in [ScopedEntryTypes(vec![]), ScopedEntryTypes(vec![(3, vec![])])] {
        match this.scoped_entry_def_index(&empty) {
            Err(WasmError::Guest(message)) => assert_eq!(
                message,
                "ThisWasmEntry did not map to an EntryDefIndex within this scope"
            ),
            other => panic!("unexpected: {:?}", other),
        }
    }
}

#[test]
fn declared_entry_types() {
    let defs = entry_defs();
    assert_eq!(defs.len(), 1);
    assert_eq!(defs[0].id, "always_validates");
    assert_eq!(defs[0].visibility, EntryVisibility::Public);
    assert_eq!(defs[0].required_validations, 5);
    assert!(!defs[0].cache_at_agent_activity);
    assert_eq!(REQUIRED_VALIDATIONS, 5);
    assert_eq!(num_entry_types(), 1);
    assert_eq!(num_link_types(), 0);
}

#[test]
fn only_a_stored_app_entry_needs_the_scope() {
    let entry = || ThisWasmEntry::AlwaysValidates.to_entry().unwrap();
    assert!(store(3, 10, entry()).needs_entry_types());
    for op in [
        Op::StoreRecord,
        Op::RegisterUpdate,
        Op::RegisterDelete,
        Op::RegisterAgentActivity,
        Op::RegisterCreateLink,
        Op::RegisterDeleteLink,
        Op::StoreEntry(StoreEntry { entry_type: EntryType::CapClaim, entry: entry() }),
        Op::StoreEntry(StoreEntry { entry_type: EntryType::AgentPubKey, entry: entry() }),
    ] {
        assert!(!op.needs_entry_types());
        assert!(matches!(validate(&op, &ScopedEntryTypes(vec![])), ValidationOutcome::Valid));
    }
}
