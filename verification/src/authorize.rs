//! Call authorization: expiry, replay protection, the signature check and
//! capability grants, in that order.

use vstd::prelude::*;
use crate::bytes::{bytes_eq, secret_eq};
use crate::call::{CellId, SignedCallModel, ZomeCall};

verus! {

/// Why a call was refused.
#[derive(Debug, Clone, Copy, PartialEq, Eq, Structural)]
pub enum AuthorizationError {
    /// The call was evaluated after its `expires_at`.
    Expired,
    /// The caller has used this nonce before.
    Replayed,
    /// The signature does not verify against the caller's key.
    BadSignature,
    /// No grant covers the function, or the grant's conditions are not met.
    Unauthorized,
}

/// What a grant asks of a caller.
#[derive(Debug, Clone, Copy)]
pub enum CapAccess {
    /// Anybody may call.
    Unrestricted,
    /// The caller must present the secret and, where an assignee is named,
    /// be that agent.
    Secret { expected: [u8; 64], assignee: Option<[u8; 36]> },
}

/// A capability grant: permission to call one function of one zome in one
/// cell.
#[derive(Debug)]
pub struct CapabilityGrant {
    pub cell_id: CellId,
    pub zome_name: String,
    pub fn_name: String,
    pub access: CapAccess,
}

/// Mathematical model of a [`CapAccess`].
pub enum AccessModel {
    Unrestricted,
    Secret { expected: Seq<u8>, assignee: Option<Seq<u8>> },
}

/// Mathematical model of a [`CapabilityGrant`].
pub struct GrantModel {
    pub cell_id: (Seq<u8>, Seq<u8>),
    pub zome_name: Seq<char>,
    pub fn_name: Seq<char>,
    pub access: AccessModel,
}

impl View for CapAccess {
    type V = AccessModel;

    open spec fn view(&self) -> AccessModel {
        match self {
            CapAccess::Unrestricted => AccessModel::Unrestricted,
            CapAccess::Secret { expected, assignee } => AccessModel::Secret {
                expected: expected@,
                assignee: match assignee {
                    Some(agent) => Some(agent@),
                    None => None,
                },
            },
        }
    }
}

impl View for CapabilityGrant {
    type V = GrantModel;

    open spec fn view(&self) -> GrantModel {
        GrantModel {
            cell_id: self.cell_id@,
            zome_name: self.zome_name@,
            fn_name: self.fn_name@,
            access: self.access@,
        }
    }
}

/// The views of a list of grants, in order.
pub open spec fn grant_models(grants: Seq<CapabilityGrant>) -> Seq<GrantModel> {
    grants.map_values(|g: CapabilityGrant| g@)
}

/// Whether a grant is for the function that the call names.
pub open spec fn covers(grant: GrantModel, call: SignedCallModel) -> bool {
    &&& grant.cell_id == call.call.cell_id
    &&& grant.zome_name == call.call.zome_name
    &&& grant.fn_name == call.call.fn_name
}

/// Whether the call meets what the grant asks.
pub open spec fn permits(access: AccessModel, call: SignedCallModel) -> bool {
    match access {
        AccessModel::Unrestricted => true,
        AccessModel::Secret { expected, assignee } => {
            &&& call.call.cap_secret == Some(expected)
            &&& (assignee is None || assignee == Some(call.call.provenance))
        },
    }
}

/// The grant that is looked at for a call: the first one, from index `from`
/// on, that covers the function.
pub open spec fn grant_from(grants: Seq<GrantModel>, call: SignedCallModel, from: int) -> Option<
    AccessModel,
>
    decreases grants.len() - from,
{
    if from < 0 || from >= grants.len() {
        None
    } else if covers(grants[from], call) {
        Some(grants[from].access)
    } else {
        grant_from(grants, call, from + 1)
    }
}

/// Whether the grants let the call through.
pub open spec fn granted(grants: Seq<GrantModel>, call: SignedCallModel) -> bool {
    match grant_from(grants, call, 0) {
        Some(access) => permits(access, call),
        None => false,
    }
}

/// A consumed nonce: who used it, and until when the call that carried it
/// was good.
#[derive(Debug, Clone, Copy)]
struct NonceEntry {
    caller: [u8; 36],
    nonce: [u8; 32],
    expires_at: i64,
}

/// The nonces that callers have used, each with the `expires_at` of the call
/// that used it. Seen from outside it is a map from `(caller, nonce)` to that
/// time.
pub struct NonceRecord {
    entries: Vec<NonceEntry>,
}

/// The pair by which a consumed nonce is found again.
pub open spec fn nonce_key(caller: Seq<u8>, nonce: Seq<u8>) -> (Seq<u8>, Seq<u8>) {
    (caller, nonce)
}

spec fn key_of(e: NonceEntry) -> (Seq<u8>, Seq<u8>) {
    (e.caller@, e.nonce@)
}

spec fn model_of(entries: Seq<NonceEntry>) -> Map<(Seq<u8>, Seq<u8>), int>
    decreases entries.len(),
{
    if entries.len() == 0 {
        Map::empty()
    } else {
        model_of(entries.drop_last()).insert(
            key_of(entries.last()),
            entries.last().expires_at as int,
        )
    }
}

spec fn distinct(entries: Seq<NonceEntry>) -> bool {
    forall|i: int, j: int|
        0 <= i < j < entries.len() ==> key_of(#[trigger] entries[i]) != key_of(
            #[trigger] entries[j],
        )
}

proof fn lemma_model_domain(entries: Seq<NonceEntry>, key: (Seq<u8>, Seq<u8>))
    ensures
        model_of(entries).dom().contains(key) <==> exists|i: int|
            0 <= i < entries.len() && key_of(#[trigger] entries[i]) == key,
    decreases entries.len(),
{
    if entries.len() > 0 {
        let front = entries.drop_last();
        lemma_model_domain(front, key);
        if model_of(entries).dom().contains(key) {
            if key_of(entries.last()) == key {
                assert(key_of(entries[entries.len() - 1]) == key);
            } else {
                let i = choose|i: int| 0 <= i < front.len() && key_of(#[trigger] front[i]) == key;
                assert(key_of(entries[i]) == key);
            }
        }
        if exists|i: int| 0 <= i < entries.len() && key_of(#[trigger] entries[i]) == key {
            let i = choose|i: int| 0 <= i < entries.len() && key_of(#[trigger] entries[i]) == key;
            if i < entries.len() - 1 {
                assert(key_of(front[i]) == key);
            }
        }
    }
}

/// What is left of a record when every nonce whose call expired before `now`
/// is forgotten.
pub open spec fn pruned(record: Map<(Seq<u8>, Seq<u8>), int>, now: int) -> Map<
    (Seq<u8>, Seq<u8>),
    int,
> {
    Map::new(
        |key: (Seq<u8>, Seq<u8>)| record.dom().contains(key) && record[key] >= now,
        |key: (Seq<u8>, Seq<u8>)| record[key],
    )
}

impl View for NonceRecord {
    type V = Map<(Seq<u8>, Seq<u8>), int>;

    closed spec fn view(&self) -> Map<(Seq<u8>, Seq<u8>), int> {
        model_of(self.entries@)
    }
}

impl NonceRecord {
    #[verifier::type_invariant]
    spec fn well_formed(self) -> bool {
        distinct(self.entries@)
    }

    /// A record in which no nonce has been used.
    pub fn new() -> (record: NonceRecord)
        ensures
            record@ == Map::<(Seq<u8>, Seq<u8>), int>::empty(),
    {
        NonceRecord { entries: Vec::new() }
    }

    /// How many nonces are on record.
    pub fn len(&self) -> (n: usize)
        ensures
            n == self@.dom().len(),
            self@.dom().finite(),
    {
        proof {
            use_type_invariant(self);
            lemma_model_size(self.entries@);
        }
        self.entries.len()
    }

    /// Whether `caller` has used `nonce`.
    pub fn contains(&self, caller: &[u8; 36], nonce: &[u8; 32]) -> (used: bool)
        ensures
            used == self@.dom().contains(nonce_key(caller@, nonce@)),
    {
        let mut i: usize = 0;
        while i < self.entries.len()
            invariant
                i <= self.entries.len(),
                forall|j: int|
                    0 <= j < i ==> key_of(#[trigger] self.entries@[j]) != nonce_key(
                        caller@,
                        nonce@,
                    ),
            decreases self.entries.len() - i,
        {
            let entry = &self.entries[i];
            if bytes_eq(entry.caller.as_slice(), caller.as_slice()) && bytes_eq(
                entry.nonce.as_slice(),
                nonce.as_slice(),
            ) {
                proof {
                    assert(key_of(self.entries@[i as int]) == nonce_key(caller@, nonce@));
                    lemma_model_domain(self.entries@, nonce_key(caller@, nonce@));
                }
                return true;
            }
            i += 1;
        }
        proof {
            lemma_model_domain(self.entries@, nonce_key(caller@, nonce@));
        }
        false
    }

    /// Until when the call that used this nonce was good, if the nonce is on
    /// record.
    pub fn expiry_of(&self, caller: &[u8; 36], nonce: &[u8; 32]) -> (expiry: Option<i64>)
        ensures
            match expiry {
                Some(at) => self@.dom().contains(nonce_key(caller@, nonce@)) && self@[nonce_key(
                    caller@,
                    nonce@,
                )] == at,
                None => !self@.dom().contains(nonce_key(caller@, nonce@)),
            },
    {
        proof {
            use_type_invariant(self);
        }
        let mut i: usize = 0;
        while i < self.entries.len()
            invariant
                i <= self.entries.len(),
                distinct(self.entries@),
                forall|j: int|
                    0 <= j < i ==> key_of(#[trigger] self.entries@[j]) != nonce_key(
                        caller@,
                        nonce@,
                    ),
            decreases self.entries.len() - i,
        {
            let entry = &self.entries[i];
            if bytes_eq(entry.caller.as_slice(), caller.as_slice()) && bytes_eq(
                entry.nonce.as_slice(),
                nonce.as_slice(),
            ) {
                proof {
                    assert(key_of(self.entries@[i as int]) == nonce_key(caller@, nonce@));
                    lemma_model_domain(self.entries@, nonce_key(caller@, nonce@));
                    lemma_model_value(self.entries@, i as int);
                }
                return Some(entry.expires_at);
            }
            i += 1;
        }
        proof {
            lemma_model_domain(self.entries@, nonce_key(caller@, nonce@));
        }
        None
    }

    /// Uses up a nonce, as one step: puts it on record unless it is there
    /// already, and says whether it was new.
    pub fn consume(&mut self, caller: &[u8; 36], nonce: &[u8; 32], expires_at: i64) -> (fresh:
        bool)
        ensures
            fresh == !old(self)@.dom().contains(nonce_key(caller@, nonce@)),
            final(self)@ == if fresh {
                old(self)@.insert(nonce_key(caller@, nonce@), expires_at as int)
            } else {
                old(self)@
            },
    {
        proof {
            use_type_invariant(&*self);
        }
        if self.contains(caller, nonce) {
            return false;
        }
        let entry = NonceEntry { caller: *caller, nonce: *nonce, expires_at };
        proof {
            lemma_model_domain(self.entries@, nonce_key(caller@, nonce@));
            assert(self.entries@.push(entry).drop_last() =~= self.entries@);
            assert(key_of(entry) == nonce_key(caller@, nonce@));
            assert(distinct(self.entries@.push(entry)));
        }
        let mut entries: Vec<NonceEntry> = Vec::new();
        std::mem::swap(&mut entries, &mut self.entries);
        entries.push(entry);
        self.entries = entries;
        true
    }

    /// Forgets every nonce whose call expired before `now`. A nonce whose call
    /// is still good at `now` stays on record.
    pub fn prune(&mut self, now: i64)
        ensures
            final(self)@ == pruned(old(self)@, now as int),
    {
        proof {
            use_type_invariant(&*self);
        }
        let mut kept: Vec<NonceEntry> = Vec::new();
        let mut i: usize = 0;
        proof {
            assert(self.entries@.take(0) =~= Seq::<NonceEntry>::empty());
            assert(model_of(kept@) =~= pruned(model_of(self.entries@.take(0)), now as int));
        }
        while i < self.entries.len()
            invariant
                i <= self.entries.len(),
                distinct(self.entries@),
                distinct(kept@),
                forall|j: int|
                    0 <= j < kept.len() ==> exists|m: int|
                        0 <= m < i && #[trigger] kept@[j] == self.entries@[m],
                model_of(kept@) == pruned(model_of(self.entries@.take(i as int)), now as int),
            decreases self.entries.len() - i,
        {
            let entry = self.entries[i];
            proof {
                let before = self.entries@.take(i as int);
                let after = self.entries@.take(i + 1);
                assert(after.drop_last() =~= before);
                assert(after.last() == entry);
                lemma_model_domain(before, key_of(entry));
                assert(!model_of(before).dom().contains(key_of(entry)));
                if entry.expires_at >= now {
                    assert(kept@.push(entry).drop_last() =~= kept@);
                    assert(model_of(kept@.push(entry)) =~= pruned(model_of(after), now as int));
                    assert forall|a: int, b: int| 0 <= a < b < kept@.push(entry).len() implies key_of(
                        #[trigger] kept@.push(entry)[a],
                    ) != key_of(#[trigger] kept@.push(entry)[b]) by {
                        if b == kept.len() {
                            let m = choose|m: int| 0 <= m < i && kept@[a] == self.entries@[m];
                            assert(key_of(self.entries@[m]) != key_of(self.entries@[i as int]));
                        } else {
                            assert(key_of(kept@[a]) != key_of(kept@[b]));
                        }
                    }
                } else {
                    assert(model_of(kept@) =~= pruned(model_of(after), now as int));
                }
            }
            if entry.expires_at >= now {
                let ghost earlier = kept@;
                kept.push(entry);
                proof {
                    assert forall|j: int| 0 <= j < kept.len() implies exists|m: int|
                        0 <= m < i + 1 && #[trigger] kept@[j] == self.entries@[m] by {
                        if j < earlier.len() {
                            let m = choose|m: int| 0 <= m < i && earlier[j] == self.entries@[m];
                            assert(kept@[j] == self.entries@[m]);
                        } else {
                            assert(kept@[j] == self.entries@[i as int]);
                        }
                    }
                }
            }
            i += 1;
        }
        proof {
            assert(self.entries@.take(i as int) =~= self.entries@);
        }
        self.entries = kept;
    }
}

proof fn lemma_model_value(entries: Seq<NonceEntry>, i: int)
    requires
        distinct(entries),
        0 <= i < entries.len(),
    ensures
        model_of(entries).dom().contains(key_of(entries[i])),
        model_of(entries)[key_of(entries[i])] == entries[i].expires_at,
    decreases entries.len(),
{
    let front = entries.drop_last();
    if i < entries.len() - 1 {
        assert(distinct(front)) by {
            assert forall|a: int, b: int| 0 <= a < b < front.len() implies key_of(
                #[trigger] front[a],
            ) != key_of(#[trigger] front[b]) by {
                assert(key_of(entries[a]) != key_of(entries[b]));
            }
        }
        lemma_model_value(front, i);
        assert(key_of(entries[i]) != key_of(entries[entries.len() - 1]));
        assert(front[i] == entries[i]);
    }
}

proof fn lemma_model_size(entries: Seq<NonceEntry>)
    requires
        distinct(entries),
    ensures
        model_of(entries).dom().finite(),
        model_of(entries).dom().len() == entries.len(),
    decreases entries.len(),
{
    if entries.len() > 0 {
        let front = entries.drop_last();
        assert(distinct(front)) by {
            assert forall|a: int, b: int| 0 <= a < b < front.len() implies key_of(
                #[trigger] front[a],
            ) != key_of(#[trigger] front[b]) by {
                assert(key_of(entries[a]) != key_of(entries[b]));
            }
        }
        lemma_model_size(front);
        lemma_model_domain(front, key_of(entries.last()));
        if model_of(front).dom().contains(key_of(entries.last())) {
            let m = choose|m: int| 0 <= m < front.len() && key_of(#[trigger] front[m]) == key_of(
                entries.last(),
            );
            assert(key_of(entries[m]) != key_of(entries[entries.len() - 1]));
        }
    }
}

/// A call that has passed every check of [`authorize`]. Only [`authorize`]
/// makes one.
#[derive(Debug)]
pub struct AuthorizedCall {
    call: ZomeCall,
}

impl View for AuthorizedCall {
    type V = SignedCallModel;

    closed spec fn view(&self) -> SignedCallModel {
        self.call@
    }
}

impl AuthorizedCall {
    /// The call that was authorized.
    pub fn call(&self) -> (call: &ZomeCall)
        ensures
            call@ == self@,
    {
        &self.call
    }

    /// Gives the call up for execution.
    pub fn into_call(self) -> (call: ZomeCall)
        ensures
            call@ == self@,
    {
        self.call
    }
}

/// The answer to a call, from what is known when it is evaluated.
pub open spec fn verdict(
    call: SignedCallModel,
    grants: Seq<GrantModel>,
    record: Map<(Seq<u8>, Seq<u8>), int>,
    now: int,
    signature_valid: bool,
) -> Result<(), AuthorizationError> {
    if now > call.call.expires_at {
        Err(AuthorizationError::Expired)
    } else if record.dom().contains(nonce_key(call.call.provenance, call.call.nonce)) {
        Err(AuthorizationError::Replayed)
    } else if !signature_valid {
        Err(AuthorizationError::BadSignature)
    } else if !granted(grants, call) {
        Err(AuthorizationError::Unauthorized)
    } else {
        Ok(())
    }
}

/// The record of nonces after a call has been evaluated: the call's nonce is
/// on it unless the call was expired; nothing else changes.
pub open spec fn record_after(call: SignedCallModel, record: Map<(Seq<u8>, Seq<u8>), int>, now: int)
    -> Map<(Seq<u8>, Seq<u8>), int> {
    let key = nonce_key(call.call.provenance, call.call.nonce);
    if now > call.call.expires_at || record.dom().contains(key) {
        record
    } else {
        record.insert(key, call.call.expires_at)
    }
}

/// Finds the grant that is looked at for a call: the first that covers the
/// function it names.
pub fn find_grant(grants: &[CapabilityGrant], call: &ZomeCall) -> (access: Option<CapAccess>)
    ensures
        match access {
            Some(a) => grant_from(grant_models(grants@), call@, 0) == Some(a@),
            None => grant_from(grant_models(grants@), call@, 0) is None,
        },
{
    let mut i: usize = 0;
    while i < grants.len()
        invariant
            i <= grants.len(),
            grant_from(grant_models(grants@), call@, 0) == grant_from(
                grant_models(grants@),
                call@,
                i as int,
            ),
        decreases grants.len() - i,
    {
        let grant = &grants[i];
        proof {
            assert(grant_models(grants@)[i as int] == grant@);
        }
        if grant.cell_id.same_as(&call.cell_id) && grant.zome_name == call.zome_name
            && grant.fn_name == call.fn_name {
            return Some(grant.access);
        }
        i += 1;
    }
    None
}

/// Whether a call meets what a grant asks. The secret is compared in time
/// that does not depend on its bytes.
pub fn access_permits(access: &CapAccess, call: &ZomeCall) -> (ok: bool)
    ensures
        ok == permits(access@, call@),
{
    match access {
        CapAccess::Unrestricted => true,
        CapAccess::Secret { expected, assignee } => {
            let secret_ok = match &call.cap_secret {
                Some(secret) => secret_eq(secret.as_slice(), expected.as_slice()),
                None => false,
            };
            let assignee_ok = match assignee {
                Some(agent) => bytes_eq(agent.as_slice(), call.provenance.as_slice()),
                None => true,
            };
            secret_ok && assignee_ok
        },
    }
}

/// Decides whether a signed call may be executed.
///
/// `signature_valid` says whether the call's signature verifies against its
/// provenance over the call's canonical bytes. The checks are made in order
/// and the first that fails decides: expiry, replay, signature, grant. A call
/// that is not expired and whose nonce is new uses its nonce up, whether or
/// not the later checks let it through.
pub fn authorize(
    signed_call: ZomeCall,
    grants: &[CapabilityGrant],
    nonce_record: &mut NonceRecord,
    now: i64,
    signature_valid: bool,
) -> (authorized: Result<AuthorizedCall, AuthorizationError>)
    ensures
        final(nonce_record)@ == record_after(signed_call@, old(nonce_record)@, now as int),
        match authorized {
            Ok(call) => call@ == signed_call@ && verdict(
                signed_call@,
                grant_models(grants@),
                old(nonce_record)@,
                now as int,
                signature_valid,
            ) is Ok,
            Err(e) => verdict(
                signed_call@,
                grant_models(grants@),
                old(nonce_record)@,
                now as int,
                signature_valid,
            ) == Err::<(), AuthorizationError>(e),
        },
{
    if now > signed_call.expires_at {
        return Err(AuthorizationError::Expired);
    }
    if !nonce_record.consume(&signed_call.provenance, &signed_call.nonce, signed_call.expires_at) {
        return Err(AuthorizationError::Replayed);
    }
    if !signature_valid {
        return Err(AuthorizationError::BadSignature);
    }
    let permitted = match find_grant(grants, &signed_call) {
        Some(access) => access_permits(&access, &signed_call),
        None => false,
    };
    if !permitted {
        return Err(AuthorizationError::Unauthorized);
    }
    Ok(AuthorizedCall { call: signed_call })
}

/// An expired call is refused as expired, whatever else holds of it, and
/// leaves the record of nonces as it was.
pub proof fn expired_call_is_refused(
    call: SignedCallModel,
    grants: Seq<GrantModel>,
    record: Map<(Seq<u8>, Seq<u8>), int>,
    now: int,
    signature_valid: bool,
)
    requires
        now > call.call.expires_at,
    ensures
        verdict(call, grants, record, now, signature_valid) == Err::<(), AuthorizationError>(
            AuthorizationError::Expired,
        ),
        record_after(call, record, now) == record,
{
}

/// A call that has not expired, carries a new nonce and a good signature,
/// and is let through by the grants, is authorized.
pub proof fn valid_call_is_authorized(
    call: SignedCallModel,
    grants: Seq<GrantModel>,
    record: Map<(Seq<u8>, Seq<u8>), int>,
    now: int,
)
    requires
        now <= call.call.expires_at,
        !record.dom().contains(nonce_key(call.call.provenance, call.call.nonce)),
        granted(grants, call),
    ensures
        verdict(call, grants, record, now, true) is Ok,
{
}

/// A call whose signature does not verify is refused for that, whatever the
/// grants say, once it is known to be unexpired and its nonce new; the nonce
/// is used up all the same. So a call that was changed after it was signed
/// is not executed, as far as the signature tells the change.
pub proof fn unverified_call_is_refused(
    call: SignedCallModel,
    grants: Seq<GrantModel>,
    record: Map<(Seq<u8>, Seq<u8>), int>,
    now: int,
)
    requires
        now <= call.call.expires_at,
        !record.dom().contains(nonce_key(call.call.provenance, call.call.nonce)),
    ensures
        verdict(call, grants, record, now, false) == Err::<(), AuthorizationError>(
            AuthorizationError::BadSignature,
        ),
        record_after(call, record, now).dom().contains(
            nonce_key(call.call.provenance, call.call.nonce),
        ),
{
}

/// Replay protection. Of two calls by one caller with one nonce, whichever
/// is evaluated second is refused as replayed, provided neither had expired
/// when it was evaluated: the first used the nonce up, whatever became of it
/// after that.
pub proof fn second_use_of_nonce_is_replayed(
    first: SignedCallModel,
    second: SignedCallModel,
    grants: Seq<GrantModel>,
    record: Map<(Seq<u8>, Seq<u8>), int>,
    first_at: int,
    second_at: int,
    first_signature_valid: bool,
    second_signature_valid: bool,
)
    requires
        first.call.provenance == second.call.provenance,
        first.call.nonce == second.call.nonce,
        first_at <= first.call.expires_at,
        second_at <= second.call.expires_at,
    ensures
        verdict(
            second,
            grants,
            record_after(first, record, first_at),
            second_at,
            second_signature_valid,
        ) == Err::<(), AuthorizationError>(AuthorizationError::Replayed),
{
}

/// The record of nonces only grows under authorization: what was on it stays
/// on it, with the time it had.
pub proof fn record_grows(
    call: SignedCallModel,
    record: Map<(Seq<u8>, Seq<u8>), int>,
    now: int,
    key: (Seq<u8>, Seq<u8>),
)
    requires
        record.dom().contains(key),
    ensures
        record_after(call, record, now).dom().contains(key),
        record_after(call, record, now)[key] == record[key],
{
}

/// Pruning does not reopen a nonce early: a nonce that a call used up is
/// still refused after the record was pruned at any time up to that call's
/// `expires_at`.
pub proof fn pruned_nonce_stays_used(
    first: SignedCallModel,
    second: SignedCallModel,
    grants: Seq<GrantModel>,
    record: Map<(Seq<u8>, Seq<u8>), int>,
    first_at: int,
    pruned_at: int,
    second_at: int,
    second_signature_valid: bool,
)
    requires
        first.call.provenance == second.call.provenance,
        first.call.nonce == second.call.nonce,
        !record.dom().contains(nonce_key(first.call.provenance, first.call.nonce)),
        first_at <= first.call.expires_at,
        pruned_at <= first.call.expires_at,
        second_at <= second.call.expires_at,
    ensures
        verdict(
            second,
            grants,
            pruned(record_after(first, record, first_at), pruned_at),
            second_at,
            second_signature_valid,
        ) == Err::<(), AuthorizationError>(AuthorizationError::Replayed),
{
}

/// A function under an unrestricted grant can be called without a secret,
/// and with any.
pub proof fn unrestricted_grant_asks_nothing(grants: Seq<GrantModel>, call: SignedCallModel)
    requires
        grant_from(grants, call, 0) == Some(AccessModel::Unrestricted),
    ensures
        granted(grants, call),
{
}

/// A function under a grant with a secret can be called exactly by those who
/// present that secret and, where the grant names an assignee, are that
/// agent. Without a secret, or with another, the call is unauthorized.
pub proof fn secret_grant_asks_the_secret(
    grants: Seq<GrantModel>,
    call: SignedCallModel,
    record: Map<(Seq<u8>, Seq<u8>), int>,
    now: int,
    expected: Seq<u8>,
    assignee: Option<Seq<u8>>,
)
    requires
        grant_from(grants, call, 0) == Some(AccessModel::Secret { expected, assignee }),
        now <= call.call.expires_at,
        !record.dom().contains(nonce_key(call.call.provenance, call.call.nonce)),
    ensures
        call.call.cap_secret != Some(expected) ==> verdict(call, grants, record, now, true) == Err::<
            (),
            AuthorizationError,
        >(AuthorizationError::Unauthorized),
        call.call.cap_secret == Some(expected) && (assignee is None || assignee == Some(
            call.call.provenance,
        )) ==> verdict(call, grants, record, now, true) is Ok,
{
}

/// A function that no grant covers cannot be called.
pub proof fn ungranted_function_is_unauthorized(
    grants: Seq<GrantModel>,
    call: SignedCallModel,
    record: Map<(Seq<u8>, Seq<u8>), int>,
    now: int,
)
    requires
        grant_from(grants, call, 0) is None,
        now <= call.call.expires_at,
        !record.dom().contains(nonce_key(call.call.provenance, call.call.nonce)),
    ensures
        verdict(call, grants, record, now, true) == Err::<(), AuthorizationError>(
            AuthorizationError::Unauthorized,
        ),
{
}

} // verus!
