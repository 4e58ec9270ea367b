use conductor_gate::app_info::{
    error_reason_json, stopped_status_json, AppInfo, AppInfoStatus, AppRoleAssignment, AppStatus,
    CellInfo, CloneCell, DisabledAppReason, DnaDefinition, DnaModifiers, InstalledApp,
    PausedAppReason,
};
use conductor_gate::app_interface::{
    authorization_reason, envelope_json, zome_call_response, AppRequest, AppResponse, CallFailure,
    ExternalApiWireError, FetchQueueInfo, NetworkInfo, NetworkInfoRequestPayload, RequestKind,
    ResponseKind, SignalSubscription,
};
use conductor_gate::authorize::{
    authorize, AuthorizationError, CapAccess, CapabilityGrant, NonceRecord,
};
use conductor_gate::call::{CellId, ZomeCall};
use conductor_gate::host_fn::{
    dispatch, random_bytes, zeroed_buffer, HostFn, RandomBytesInput, RandomBytesOutput,
    RandomFill, RibosomeError,
};
use conductor_gate::integrity::{
    validate, AppEntryDef, EntryType, EntryVisibility, Op, ScopedEntryTypes, StoreEntry,
    ThisWasmEntry,
};
use conductor_gate::validation::{aggregate, EntryStatus};
use std::hash::{BuildHasher, Hasher};

#[test]
fn status_serialization() {
    let status: AppInfoStatus =
        AppStatus::Disabled(DisabledAppReason::Error("because".into())).into();

    assert_eq!(
        status.to_json().unwrap(),
        "{\"disabled\":{\"reason\":{\"error\":\"because\"}}}"
    );

    let status: AppInfoStatus = AppStatus::Paused(PausedAppReason::Error("because".into())).into();

    assert_eq!(
        status.to_json().unwrap(),
        "{\"paused\":{\"reason\":{\"error\":\"because\"}}}"
    );

    let status: AppInfoStatus = AppStatus::Disabled(DisabledAppReason::User).into();

    assert_eq!(
        status.to_json().unwrap(),
        "{\"disabled\":{\"reason\":\"user\"}}"
    );
}

#[test]
fn status_json_of_the_other_forms() {
    assert_eq!(AppInfoStatus::Running.to_json().unwrap(), "\"running\"");
    let never = AppInfoStatus::Disabled { reason: DisabledAppReason::NeverStarted };
    assert_eq!(never.to_json().unwrap(), "{\"disabled\":{\"reason\":\"never_started\"}}");
    let quoted = AppInfoStatus::Paused {
        reason: PausedAppReason::Error("say \"no\"\n\\".to_string()),
    };
    assert_eq!(
        quoted.to_json().unwrap(),
        "{\"paused\":{\"reason\":{\"error\":\"say \\\"no\\\"\\n\\\\\"}}}"
    );
    assert_eq!(error_reason_json("\"x\""), "{\"error\":\"x\"}");
    assert_eq!(stopped_status_json(true, "1"), "{\"paused\":{\"reason\":1}}");
    assert_eq!(stopped_status_json(false, "1"), "{\"disabled\":{\"reason\":1}}");
}

#[test]
fn status_conversions_round_trip() {
    let status = AppStatus::Paused(PausedAppReason::Error("x".to_string()));
    let shown = status.to_info_status();
    assert!(!shown.is_running());
    assert!(matches!(&shown, AppInfoStatus::Paused { reason: PausedAppReason::Error(m) } if m == "x"));
    let back: AppStatus = shown.into();
    assert!(matches!(back, AppStatus::Paused(PausedAppReason::Error(m)) if m == "x"));
    let running: AppInfoStatus = AppStatus::Running.into();
    assert!(running.is_running());
    assert!(matches!(AppStatus::from(running), AppStatus::Running));
    let disabled: AppStatus = AppInfoStatus::Disabled { reason: DisabledAppReason::User }.into();
    assert!(matches!(disabled, AppStatus::Disabled(DisabledAppReason::User)));
}

fn cell(n: u8) -> CellId {
    CellId { dna_hash: [n; 36], agent_pub_key: [100; 36] }
}

fn definition(n: u8, name: &str) -> DnaDefinition {
    DnaDefinition {
        cell_id: cell(n),
        name: name.to_string(),
        modifiers: DnaModifiers {
            network_seed: format!("seed-{}", n),
            properties: vec![n],
            origin_time: 1000 + n as i64,
            quantum_time_secs: 300,
            quantum_time_nanos: n as u32,
        },
    }
}

fn clone_cell(id: &str, n: u8) -> CloneCell {
    CloneCell { clone_id: id.to_string(), cell_id: cell(n) }
}

fn app(status: AppStatus) -> InstalledApp {
    InstalledApp {
        installed_app_id: "app".to_string(),
        status,
        role_assignments: vec![
            AppRoleAssignment {
                role_name: "profiles".to_string(),
                base_cell_id: cell(1),
                is_provisioned: true,
                clones: vec![clone_cell("profiles.0", 2), clone_cell("profiles.1", 9)],
                disabled_clones: vec![clone_cell("profiles.2", 3)],
            },
            AppRoleAssignment {
                role_name: "files".to_string(),
                base_cell_id: cell(8),
                is_provisioned: true,
                clones: vec![],
                disabled_clones: vec![clone_cell("files.0", 1)],
            },
        ],
    }
}

fn summary(info: &CellInfo) -> (char, u8, Option<String>, String, bool, String) {
    match info {
        CellInfo::Provisioned(c) => (
            'p',
            c.cell_id.dna_hash[0],
            c.clone_id.clone(),
            c.name.clone(),
            c.enabled,
            c.dna_modifiers.network_seed.clone(),
        ),
        CellInfo::Cloned(c) => (
            'c',
            c.cell_id.dna_hash[0],
            c.clone_id.clone(),
            c.name.clone(),
            c.enabled,
            c.dna_modifiers.network_seed.clone(),
        ),
        CellInfo::Stem(_) => panic!("no stem cell is ever listed"),
    }
}

#[test]
fn app_info_lists_cells_role_by_role() {
    let definitions =
        vec![definition(1, "one"), definition(2, "two"), definition(3, "three"), definition(1, "x")];
    let info = AppInfo::from_installed_app(&app(AppStatus::Running), &definitions);
    assert_eq!(info.installed_app_id, "app");
    assert!(info.status.is_running());
    assert_eq!(info.cell_info.len(), 2);
    assert_eq!(info.cell_info[0].role_name, "profiles");
    let cells: Vec<_> = info.cell_info[0].cells.iter().map(summary).collect();
    assert_eq!(
        cells,
        vec![
            ('p', 1, None, "one".to_string(), true, "seed-1".to_string()),
            ('c', 2, Some("profiles.0".to_string()), "two".to_string(), true, "seed-2".to_string()),
            ('c', 3, Some("profiles.2".to_string()), "three".to_string(), false, "seed-3".to_string()),
        ]
    );
    assert_eq!(info.cell_info[1].role_name, "files");
    let cells: Vec<_> = info.cell_info[1].cells.iter().map(summary).collect();
    assert_eq!(
        cells,
        vec![('c', 1, Some("files.0".to_string()), "one".to_string(), false, "seed-1".to_string())]
    );
    match &info.cell_info[0].cells[0] {
        CellInfo::Provisioned(c) => {
            assert_eq!(c.dna_modifiers.properties, vec![1]);
            assert_eq!(c.dna_modifiers.origin_time, 1001);
            assert_eq!(c.dna_modifiers.quantum_time_secs, 300);
            assert_eq!(c.dna_modifiers.quantum_time_nanos, 1);
        }
        other => panic!("unexpected: {:?}", other),
    }
}

#[test]
fn provisioned_cell_is_enabled_only_while_the_app_runs() {
    let definitions = vec![definition(1, "one"), definition(2, "two")];
    let status = AppStatus::Disabled(DisabledAppReason::User);
    let info = AppInfo::from_installed_app(&app(status), &definitions);
    assert!(matches!(info.status, AppInfoStatus::Disabled { reason: DisabledAppReason::User }));
    let cells: Vec<_> = info.cell_info[0].cells.iter().map(summary).collect();
    assert_eq!(
        cells,
        vec![
            ('p', 1, None, "one".to_string(), false, "seed-1".to_string()),
            ('c', 2, Some("profiles.0".to_string()), "two".to_string(), true, "seed-2".to_string()),
        ]
    );
    let none = AppInfo::from_installed_app(&app(AppStatus::Running), &[]);
    assert_eq!(none.cell_info.len(), 2);
    assert!(none.cell_info[0].cells.is_empty());
    assert!(none.cell_info[1].cells.is_empty());
    let empty = InstalledApp {
        installed_app_id: "none".to_string(),
        status: AppStatus::Running,
        role_assignments: vec![],
    };
    assert!(AppInfo::from_installed_app(&empty, &definitions).cell_info.is_empty());
}

#[test]
fn new_cell_infos() {
    let provisioned =
        CellInfo::new_provisioned(cell(1), definition(1, "one").modifiers, "one".to_string(), true);
    assert_eq!(summary(&provisioned), ('p', 1, None, "one".to_string(), true, "seed-1".to_string()));
    let cloned = CellInfo::new_cloned(
        cell(2),
        "r.0".to_string(),
        definition(2, "two").modifiers.duplicate(),
        "two".to_string(),
        false,
    );
    assert_eq!(
        summary(&cloned),
        ('c', 2, Some("r.0".to_string()), "two".to_string(), false, "seed-2".to_string())
    );
}

fn sample_call() -> ZomeCall {
    ZomeCall {
        cell_id: cell(1),
        zome_name: "zome".to_string(),
        fn_name: "create".to_string(),
        payload: vec![0xc0],
        cap_secret: None,
        provenance: [9; 36],
        signature: [7; 64],
        nonce: [1; 32],
        expires_at: 100,
    }
}

#[test]
fn tags_on_the_wire() {
    let requests = vec![
        (AppRequest::AppInfo { installed_app_id: "app".to_string() }, "app_info", "app_info"),
        (AppRequest::CallZome(Box::new(sample_call())), "call_zome", "zome_called"),
        (
            AppRequest::NetworkInfo(Box::new(NetworkInfoRequestPayload { dnas: vec![[1; 36]] })),
            "network_info",
            "network_info",
        ),
        (
            AppRequest::SignalSubscription(SignalSubscription { subscribe: true }),
            "signal_subscription",
            "unimplemented",
        ),
    ];
    for (request, tag, success) in requests.iter() {
        assert_eq!(request.tag(), *tag);
        assert_eq!(request.kind().tag(), *tag);
        assert_eq!(request.kind().success().tag(), *success);
    }
    assert_eq!(RequestKind::CreateCloneCell.tag(), "create_clone_cell");
    assert_eq!(RequestKind::DisableCloneCell.tag(), "disable_clone_cell");
    assert_eq!(RequestKind::EnableCloneCell.tag(), "enable_clone_cell");
    assert_eq!(RequestKind::CreateCloneCell.success().tag(), "clone_cell_created");
    assert_eq!(RequestKind::DisableCloneCell.success().tag(), "clone_cell_disabled");
    assert_eq!(RequestKind::EnableCloneCell.success().tag(), "clone_cell_enabled");
    assert_eq!(ResponseKind::Error.tag(), "error");
    assert_eq!(AppResponse::CloneCellDisabled.tag(), "clone_cell_disabled");
    assert_eq!(AppResponse::AppInfo(None).tag(), "app_info");
}

#[test]
fn which_response_answers_which_request() {
    let call = AppRequest::CallZome(Box::new(sample_call()));
    let network = AppRequest::NetworkInfo(Box::new(NetworkInfoRequestPayload { dnas: vec![] }));
    let signal = AppRequest::SignalSubscription(SignalSubscription { subscribe: false });
    let error = AppResponse::Error(ExternalApiWireError::InternalError("x".to_string()));
    let called = AppResponse::ZomeCalled(Box::new(vec![1]));
    let info = AppResponse::NetworkInfo(vec![NetworkInfo {
        fetch_queue_info: FetchQueueInfo { op_bytes_to_fetch: 1, num_ops_to_fetch: 2 },
    }]);
    assert!(called.answers(&call));
    assert!(error.answers(&call));
    assert!(!info.answers(&call));
    assert!(!AppResponse::AppInfo(None).answers(&call));
    assert!(info.answers(&network));
    assert!(!error.answers(&network));
    assert!(!error.answers(&signal));
    assert!(!called.answers(&signal));
    let echoed = AppResponse::unimplemented(AppRequest::SignalSubscription(SignalSubscription {
        subscribe: false,
    }));
    assert!(echoed.answers(&signal));
    assert!(!echoed.answers(&call));
    assert!(matches!(
        echoed,
        AppResponse::Unimplemented(AppRequest::SignalSubscription(SignalSubscription {
            subscribe: false
        }))
    ));
    assert!(ResponseKind::Error.answers(RequestKind::AppInfo));
    assert!(ResponseKind::Error.answers(RequestKind::CreateCloneCell));
    assert!(ResponseKind::Error.answers(RequestKind::DisableCloneCell));
    assert!(ResponseKind::Error.answers(RequestKind::EnableCloneCell));
    assert!(!ResponseKind::CloneCellEnabled.answers(RequestKind::DisableCloneCell));
}

#[test]
fn failures_become_errors_of_their_kind() {
    assert_eq!(authorization_reason(AuthorizationError::Expired), "expired");
    assert_eq!(authorization_reason(AuthorizationError::Replayed), "replayed");
    assert_eq!(authorization_reason(AuthorizationError::BadSignature), "bad_signature");
    assert_eq!(authorization_reason(AuthorizationError::Unauthorized), "unauthorized");
    match zome_call_response(Err(CallFailure::Authorization(AuthorizationError::Replayed))) {
        AppResponse::Error(ExternalApiWireError::ZomeCallUnauthorized(m)) => {
            assert_eq!(m, "replayed")
        }
        other => panic!("unexpected: {:?}", other),
    }
    match zome_call_response(Err(CallFailure::Guest("oops".to_string()))) {
        AppResponse::Error(ExternalApiWireError::RibosomeError(m)) => assert_eq!(m, "oops"),
        other => panic!("unexpected: {:?}", other),
    }
    match zome_call_response(Err(CallFailure::HostEnvironment("no rng".to_string()))) {
        AppResponse::Error(ExternalApiWireError::InternalError(m)) => assert_eq!(m, "no rng"),
        other => panic!("unexpected: {:?}", other),
    }
    match zome_call_response(Ok(vec![1, 2])) {
        AppResponse::ZomeCalled(bytes) => assert_eq!(*bytes, vec![1, 2]),
        other => panic!("unexpected: {:?}", other),
    }
}

fn fill(buffer: Vec<u8>) -> RandomFill {
    let mut filled = buffer;
    let mut i = 0;
    while i < filled.len() {
        let word = std::collections::hash_map::RandomState::new().build_hasher().finish();
        for byte in word.to_le_bytes() {
            if i < filled.len() {
                filled[i] = byte;
                i += 1;
            }
        }
    }
    RandomFill::Filled(filled)
}

#[test]
fn random_bytes_test() {
    const LEN: usize = 10;
    let input = RandomBytesInput::new(LEN.try_into().unwrap());

    let output: RandomBytesOutput = random_bytes(input, fill(zeroed_buffer(input))).unwrap();

    println!("{:?}", output);

    assert_ne!(&[0; LEN], &output.into_inner()[..]);
}

#[test]
fn ribosome_random_bytes_test() {
    const LEN: usize = 5;
    let input = RandomBytesInput::new(5 as _);
    let output: RandomBytesOutput =
        dispatch("random_bytes", input, fill(zeroed_buffer(input))).unwrap();
    assert_ne!(&[0; LEN], &output.into_inner()[..]);
}

#[test]
fn random_bytes_have_the_length_asked_for() {
    for length in [0u32, 1, 8, 1000] {
        let input = RandomBytesInput::new(length);
        assert_eq!(input.into_inner(), length);
        let buffer = zeroed_buffer(input);
        assert_eq!(buffer, vec![0u8; length as usize]);
        let first = random_bytes(input, fill(buffer)).unwrap().into_inner();
        let second = random_bytes(input, fill(zeroed_buffer(input))).unwrap().into_inner();
        assert_eq!(first.len(), length as usize);
        assert_eq!(second.len(), length as usize);
        if length >= 8 {
            assert_ne!(first, second);
        }
    }
}

#[test]
fn random_bytes_failures() {
    let input = RandomBytesInput::new(4);
    match random_bytes(input, RandomFill::Filled(vec![1, 2, 3])) {
        Err(RibosomeError::Capability(m)) => assert_eq!(m, "random bytes of the wrong length"),
        other => panic!("unexpected: {:?}", other),
    }
    match random_bytes(input, RandomFill::Failed("busy".to_string())) {
        Err(RibosomeError::Capability(m)) => assert_eq!(m, "busy"),
        other => panic!("unexpected: {:?}", other),
    }
    match random_bytes(input, RandomFill::Unavailable("no sodium".to_string())) {
        Err(RibosomeError::HostEnvironment(m)) => assert_eq!(m, "no sodium"),
        other => panic!("unexpected: {:?}", other),
    }
    match dispatch("random_byte", input, RandomFill::Filled(vec![1, 2, 3, 4])) {
        Err(RibosomeError::UnknownCapability(m)) => assert_eq!(m, "random_byte"),
        other => panic!("unexpected: {:?}", other),
    }
    assert_eq!(HostFn::from_name("random_bytes"), Some(HostFn::RandomBytes));
    assert_eq!(HostFn::from_name(""), None);
    assert_eq!(HostFn::RandomBytes.name(), "random_bytes");
}

fn run_call(produces: ThisWasmEntry) -> (AppResponse, EntryStatus) {
    let grants = vec![CapabilityGrant {
        cell_id: cell(1),
        zome_name: "zome".to_string(),
        fn_name: "create".to_string(),
        access: CapAccess::Unrestricted,
    }];
    let mut record = NonceRecord::new();
    let request = AppRequest::CallZome(Box::new(sample_call()));
    let call = match request {
        AppRequest::CallZome(call) => *call,
        _ => unreachable!(),
    };
    let authorized = authorize(call, &grants, &mut record, 50, true).unwrap();
    let payload = authorized.into_call().payload;
    let op = Op::StoreEntry(StoreEntry {
        entry_type: EntryType::App(AppEntryDef {
            entry_index: 0,
            zome_index: 0,
            visibility: EntryVisibility::Public,
        }),
        entry: produces.to_entry().unwrap(),
    });
    let outcome = validate(&op, &ScopedEntryTypes(vec![(0, vec![0])]));
    (zome_call_response(Ok(payload)), aggregate(1, &[outcome]))
}

#[test]
fn call_succeeds_whatever_validation_says() {
    let (response, status) = run_call(ThisWasmEntry::AlwaysValidates);
    assert_eq!(response.tag(), "zome_called");
    assert!(matches!(status, EntryStatus::Accepted));
    let (response, status) = run_call(ThisWasmEntry::NeverValidates);
    assert_eq!(response.tag(), "zome_called");
    assert!(matches!(response, AppResponse::ZomeCalled(bytes) if *bytes == vec![0xc0]));
    match status {
        EntryStatus::Rejected(reason) => assert_eq!(reason, "NeverValidates never validates"),
        other => panic!("unexpected: {:?}", other),
    }
}

#[test]
fn messages_on_the_wire() {
    assert_eq!(
        envelope_json(RequestKind::AppInfo.tag(), Some("{\"installed_app_id\":\"app\"}")),
        "{\"type\":\"app_info\",\"data\":{\"installed_app_id\":\"app\"}}"
    );
    assert_eq!(
        envelope_json(AppResponse::CloneCellDisabled.tag(), None),
        "{\"type\":\"clone_cell_disabled\"}"
    );
    assert_eq!(envelope_json("", Some("")), "{\"type\":\"\",\"data\":}");
}

#[test]
fn json_strings_escape_what_json_asks() {
    let message = "\u{0}\u{1}\u{8}\t\n\u{b}\u{c}\r\u{1f} \u{7f}/\u{e9}\"\\".to_string();
    let status = AppInfoStatus::Paused { reason: PausedAppReason::Error(message) };
    assert_eq!(
        status.to_json().unwrap(),
        "{\"paused\":{\"reason\":{\"error\":\"\\u0000\\u0001\\b\\t\\n\\u000b\\f\\r\\u001f \u{7f}/\u{e9}\\\"\\\\\"}}}"
    );
    let empty = DisabledAppReason::Error(String::new());
    assert_eq!(empty.to_json().unwrap(), "{\"error\":\"\"}");
}
