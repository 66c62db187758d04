use vstd::prelude::*;

use crate::account::AccountId;
use vstd::string::StringSliceAdditionalSpecFns;
use vstd::utf8::encode_utf8;

verus! {

/// A registered profile.
#[derive(Debug)]
pub struct Profile {
    /// The account that registered it.
    pub owner: AccountId,
    /// Reference to off-record profile metadata.
    pub metadata_uri: String,
    /// Linked decentralised identifier, if any.
    pub did: Option<String>,
}

impl Clone for Profile {
    fn clone(&self) -> (r: Self)
        ensures
            r == *self,
    {
        let did = match &self.did {
            Some(d) => Some(d.clone()),
            None => None,
        };
        Profile { owner: self.owner, metadata_uri: self.metadata_uri.clone(), did }
    }
}

/// Whether a claim's issuer has approved it.
#[derive(Clone, Copy, Debug, PartialEq, Eq, Structural)]
pub enum ClaimStatus {
    /// Waiting for the issuer's approval.
    Pending,
    /// Approved by the issuer.
    Approved,
}

/// A claim that one account makes about another.
#[derive(Debug)]
pub struct Claim {
    /// Identifier, assigned in creation order.
    pub id: u64,
    /// The account that made the claim.
    pub issuer: AccountId,
    /// The account the claim is about.
    pub receiver: AccountId,
    /// Kind of claim, such as a contribution or a completed job.
    pub claim_type: String,
    /// Hash of the off-record proof.
    pub proof_hash: [u8; 32],
    /// Approval state.
    pub status: ClaimStatus,
}

impl Clone for Claim {
    fn clone(&self) -> (r: Self)
        ensures
            r == *self,
    {
        Claim {
            id: self.id,
            issuer: self.issuer,
            receiver: self.receiver,
            claim_type: self.claim_type.clone(),
            proof_hash: self.proof_hash,
            status: self.status,
        }
    }
}

/// Why a registry operation was refused. A refused operation changes nothing.
#[derive(Clone, Copy, Debug, PartialEq, Eq, Structural)]
pub enum ContractError {
    /// The caller already has a profile.
    ProfileAlreadyExists,
    /// The caller has no profile.
    ProfileNotFound,
    /// No claim has the given id.
    ClaimNotFound,
    /// Only a claim's issuer may approve it.
    UnauthorizedApproval,
    /// The claim was approved already.
    ClaimAlreadyApproved,
    /// The identifier does not start with `did:kilt:`.
    InvalidDid,
}

/// A profile was registered.
#[derive(Clone, Debug, PartialEq, Eq)]
pub struct ProfileRegistered {
    pub owner: AccountId,
    pub metadata_uri: String,
}

/// A claim was added.
#[derive(Clone, Debug, PartialEq, Eq)]
pub struct ClaimAdded {
    pub claim_id: u64,
    pub issuer: AccountId,
    pub receiver: AccountId,
    pub claim_type: String,
}

/// A claim was approved.
#[derive(Clone, Copy, Debug, PartialEq, Eq)]
pub struct ClaimApproved {
    pub claim_id: u64,
}

/// An identifier was linked to a profile.
#[derive(Clone, Debug, PartialEq, Eq)]
pub struct DidLinked {
    pub owner: AccountId,
    pub did: String,
}

/// A registry notification, in the order the operations happened.
#[derive(Clone, Debug, PartialEq, Eq)]
pub enum RegistryEvent {
    ProfileRegistered(ProfileRegistered),
    ClaimAdded(ClaimAdded),
    ClaimApproved(ClaimApproved),
    DidLinked(DidLinked),
}

/// The profiles of `ps` by owner; a later entry wins over an earlier one.
pub open spec fn profile_map(ps: Seq<Profile>) -> Map<AccountId, Profile>
    decreases ps.len(),
{
    if ps.len() == 0 {
        Map::empty()
    } else {
        profile_map(ps.drop_last()).insert(ps.last().owner, ps.last())
    }
}

/// No two profiles of `ps` have the same owner.
pub open spec fn owners_unique(ps: Seq<Profile>) -> bool {
    forall|i: int, j: int|
        0 <= i < ps.len() && 0 <= j < ps.len() && i != j ==> #[trigger] ps[i].owner
            != #[trigger] ps[j].owner
}

/// The owners in `ps` are exactly the keys of its map, each with its own profile.
pub proof fn lemma_profile_map(ps: Seq<Profile>)
    requires
        owners_unique(ps),
    ensures
        forall|a: AccountId|
            profile_map(ps).contains_key(a) <==> exists|i: int| 0 <= i < ps.len() && #[trigger] ps[i].owner == a,
        forall|i: int| 0 <= i < ps.len() ==> profile_map(ps)[#[trigger] ps[i].owner] == ps[i],
    decreases ps.len(),
{
    if ps.len() > 0 {
        let q = ps.drop_last();
        assert(owners_unique(q));
        lemma_profile_map(q);
        assert forall|a: AccountId|
            profile_map(ps).contains_key(a) <==> exists|i: int| 0 <= i < ps.len() && #[trigger] ps[i].owner == a by {
            if profile_map(q).contains_key(a) {
                let i = choose|i: int| 0 <= i < q.len() && #[trigger] q[i].owner == a;
                assert(ps[i].owner == a);
            }
            if exists|i: int| 0 <= i < ps.len() && #[trigger] ps[i].owner == a {
                let i = choose|i: int| 0 <= i < ps.len() && #[trigger] ps[i].owner == a;
                if i < q.len() {
                    assert(q[i].owner == a);
                }
            }
        }
        assert forall|i: int| 0 <= i < ps.len() implies profile_map(ps)[#[trigger] ps[i].owner] == ps[i] by {
            if i < q.len() {
                assert(q[i] == ps[i]);
                assert(ps[i].owner != ps.last().owner);
            }
        }
    }
}

/// Replacing the profile at `k` by one with the same owner replaces it in the map.
pub proof fn lemma_profile_map_update(ps: Seq<Profile>, k: int, p: Profile)
    requires
        owners_unique(ps),
        0 <= k < ps.len(),
        p.owner == ps[k].owner,
    ensures
        profile_map(ps.update(k, p)) == profile_map(ps).insert(p.owner, p),
        owners_unique(ps.update(k, p)),
    decreases ps.len(),
{
    let qs = ps.update(k, p);
    assert(owners_unique(qs)) by {
        assert forall|i: int, j: int|
            0 <= i < qs.len() && 0 <= j < qs.len() && i != j implies #[trigger] qs[i].owner
                != #[trigger] qs[j].owner by {
            assert(qs[i].owner == ps[i].owner);
            assert(qs[j].owner == ps[j].owner);
        }
    }
    if k == ps.len() - 1 {
        assert(qs.drop_last() =~= ps.drop_last());
        assert(profile_map(qs) =~= profile_map(ps).insert(p.owner, p));
    } else {
        let q = ps.drop_last();
        assert(owners_unique(q));
        lemma_profile_map_update(q, k, p);
        assert(qs.drop_last() =~= q.update(k, p));
        assert(ps.last().owner != p.owner);
        assert(profile_map(qs) =~= profile_map(ps).insert(p.owner, p));
    }
}

/// The claims of `cs` about `a`, in creation order.
pub open spec fn claims_about(cs: Seq<Claim>, a: AccountId) -> Seq<Claim>
    decreases cs.len(),
{
    if cs.len() == 0 {
        seq![]
    } else if cs.last().receiver == a {
        claims_about(cs.drop_last(), a).push(cs.last())
    } else {
        claims_about(cs.drop_last(), a)
    }
}

/// The UTF-8 bytes of `did:kilt:`.
pub open spec fn kilt_prefix() -> Seq<u8> {
    seq![100u8, 105u8, 100u8, 58u8, 107u8, 105u8, 108u8, 116u8, 58u8]
}

/// Whether the bytes `b` start with those of `did:kilt:`.
pub open spec fn is_kilt_did(b: Seq<u8>) -> bool {
    b.len() >= 9 && b.take(9) == kilt_prefix()
}

/// Whether the UTF-8 bytes of `did` start with those of `did:kilt:`.
pub fn has_kilt_prefix(did: &str) -> (r: bool)
    ensures
        r == is_kilt_did(did.spec_bytes()),
{
    let b = did.as_bytes();
    let prefix: [u8; 9] = [100, 105, 100, 58, 107, 105, 108, 116, 58];
    assert(prefix@ =~= kilt_prefix());
    if b.len() < 9 {
        return false;
    }
    let mut i: usize = 0;
    while i < 9
        invariant
            0 <= i <= 9,
            b@ == did.spec_bytes(),
            b@.len() >= 9,
            prefix@ == kilt_prefix(),
            forall|j: int| 0 <= j < i ==> b@[j] == prefix@[j],
        decreases 9 - i,
    {
        if b[i] != prefix[i] {
            assert(b@.take(9)[i as int] != kilt_prefix()[i as int]);
            return false;
        }
        i = i + 1;
    }
    assert(b@.take(9) =~= kilt_prefix());
    true
}

impl Claim {
    /// This claim approved by `caller`, who must be its issuer; a claim is approved
    /// once.
    pub fn approve(&self, caller: AccountId) -> (r: Result<Claim, ContractError>)
        ensures
            self.issuer != caller ==> r == Err::<Claim, ContractError>(
                ContractError::UnauthorizedApproval,
            ),
            self.issuer == caller && self.status == ClaimStatus::Approved ==> r == Err::<
                Claim,
                ContractError,
            >(ContractError::ClaimAlreadyApproved),
            self.issuer == caller && self.status != ClaimStatus::Approved ==> r == Ok::<
                Claim,
                ContractError,
            >(Claim { status: ClaimStatus::Approved, ..*self }),
    {
        if self.issuer != caller {
            return Err(ContractError::UnauthorizedApproval);
        }
        if self.status == ClaimStatus::Approved {
            return Err(ContractError::ClaimAlreadyApproved);
        }
        let mut c = self.clone();
        c.status = ClaimStatus::Approved;
        Ok(c)
    }
}

impl Profile {
    /// This profile with `did` linked, replacing any earlier identifier; `did` must
    /// start with `did:kilt:`.
    pub fn with_did(&self, did: String) -> (r: Result<Profile, ContractError>)
        ensures
            !is_kilt_did(encode_utf8(did@)) ==> r == Err::<Profile, ContractError>(
                ContractError::InvalidDid,
            ),
            is_kilt_did(encode_utf8(did@)) ==> r == Ok::<Profile, ContractError>(
                Profile { did: Some(did), ..*self },
            ),
    {
        if !has_kilt_prefix(did.as_str()) {
            return Err(ContractError::InvalidDid);
        }
        let mut p = self.clone();
        p.did = Some(did);
        Ok(p)
    }
}

/// The profile and claims registry: at most one profile per account, claims stored by
/// id, and the log of registry events. Every operation takes the calling account from
/// the host.
pub struct SkillChainRegistry {
    /// One profile per owner.
    profiles: Vec<Profile>,
    /// Claim `i` is stored at position `i`; claims are never removed.
    claims: Vec<Claim>,
    /// Append-only log of registry events.
    events: Vec<RegistryEvent>,
}

impl SkillChainRegistry {
    /// The profiles, by owner.
    pub closed spec fn profiles(&self) -> Map<AccountId, Profile> {
        profile_map(self.profiles@)
    }

    /// The claims, by id.
    pub closed spec fn claims(&self) -> Seq<Claim> {
        self.claims@
    }

    /// The events emitted so far, oldest first.
    pub closed spec fn event_log(&self) -> Seq<RegistryEvent> {
        self.events@
    }

    /// The registry's invariant.
    pub closed spec fn wf(&self) -> bool {
        &&& owners_unique(self.profiles@)
        &&& self.claims@.len() <= u64::MAX
        &&& forall|i: int| 0 <= i < self.claims@.len() ==> #[trigger] self.claims@[i].id == i
    }

    /// A registry with no profile and no claim.
    pub fn new() -> (r: Self)
        ensures
            r.wf(),
            r.profiles() == Map::<AccountId, Profile>::empty(),
            r.claims().len() == 0,
            r.event_log().len() == 0,
    {
        SkillChainRegistry { profiles: Vec::new(), claims: Vec::new(), events: Vec::new() }
    }

    /// Position of the profile owned by `a`, if any.
    fn find_profile(&self, a: AccountId) -> (r: Option<usize>)
        requires
            self.wf(),
        ensures
            r matches Some(i) ==> i < self.profiles@.len() && self.profiles@[i as int].owner == a,
            r is None ==> !self.profiles().contains_key(a),
    {
        proof {
            lemma_profile_map(self.profiles@);
        }
        let mut i: usize = 0;
        while i < self.profiles.len()
            invariant
                0 <= i <= self.profiles@.len(),
                forall|j: int| 0 <= j < i ==> (#[trigger] self.profiles@[j]).owner != a,
            decreases self.profiles.len() - i,
        {
            if self.profiles[i].owner == a {
                return Some(i);
            }
            i = i + 1;
        }
        None
    }

    /// Register a profile for `caller` with `metadata_uri` and no identifier. An
    /// account has at most one profile.
    pub fn register_profile(&mut self, caller: AccountId, metadata_uri: String) -> (r: Result<
        (),
        ContractError,
    >)
        requires
            old(self).wf(),
        ensures
            final(self).wf(),
            old(self).profiles().contains_key(caller) ==> r == Err::<(), ContractError>(
                ContractError::ProfileAlreadyExists,
            ) && *final(self) == *old(self),
            !old(self).profiles().contains_key(caller) ==> {
                &&& r is Ok
                &&& final(self).profiles() == old(self).profiles().insert(
                    caller,
                    Profile { owner: caller, metadata_uri, did: None },
                )
                &&& final(self).claims() == old(self).claims()
                &&& final(self).event_log() == old(self).event_log().push(
                    RegistryEvent::ProfileRegistered(
                        ProfileRegistered { owner: caller, metadata_uri },
                    ),
                )
            },
    {
        match self.find_profile(caller) {
            Some(_) => {
                proof {
                    lemma_profile_map(self.profiles@);
                }
                return Err(ContractError::ProfileAlreadyExists);
            },
            None => {},
        }
        proof {
            lemma_profile_map(self.profiles@);
        }
        let profile = Profile { owner: caller, metadata_uri: metadata_uri.clone(), did: None };
        self.profiles.push(profile);
        self.events.push(
            RegistryEvent::ProfileRegistered(ProfileRegistered { owner: caller, metadata_uri }),
        );
        proof {
            let ps = self.profiles@;
            assert(ps.drop_last() =~= old(self).profiles@);
            assert forall|i: int, j: int|
                0 <= i < ps.len() && 0 <= j < ps.len() && i != j implies #[trigger] ps[i].owner
                    != #[trigger] ps[j].owner by {
                if i == ps.len() - 1 {
                    assert(old(self).profiles@[j].owner != caller);
                } else if j == ps.len() - 1 {
                    assert(old(self).profiles@[i].owner != caller);
                }
            }
        }
        Ok(())
    }

    /// Record a claim by `caller` about `receiver`. Returns the new claim's id.
    pub fn add_claim(
        &mut self,
        caller: AccountId,
        receiver: AccountId,
        claim_type: String,
        proof_hash: [u8; 32],
    ) -> (r: Result<u64, ContractError>)
        requires
            old(self).wf(),
            old(self).claims().len() < u64::MAX,
        ensures
            final(self).wf(),
            r == Ok::<u64, ContractError>(old(self).claims().len() as u64),
            final(self).claims() == old(self).claims().push(
                Claim {
                    id: old(self).claims().len() as u64,
                    issuer: caller,
                    receiver,
                    claim_type,
                    proof_hash,
                    status: ClaimStatus::Pending,
                },
            ),
            final(self).profiles() == old(self).profiles(),
            final(self).event_log() == old(self).event_log().push(
                RegistryEvent::ClaimAdded(
                    ClaimAdded {
                        claim_id: old(self).claims().len() as u64,
                        issuer: caller,
                        receiver,
                        claim_type,
                    },
                ),
            ),
    {
        let claim_id = self.claims.len() as u64;
        let claim = Claim {
            id: claim_id,
            issuer: caller,
            receiver,
            claim_type: claim_type.clone(),
            proof_hash,
            status: ClaimStatus::Pending,
        };
        self.claims.push(claim);
        self.events.push(
            RegistryEvent::ClaimAdded(ClaimAdded { claim_id, issuer: caller, receiver, claim_type }),
        );
        Ok(claim_id)
    }

    /// Approve claim `claim_id`. Only its issuer may, and only once.
    pub fn approve_claim(&mut self, caller: AccountId, claim_id: u64) -> (r: Result<
        (),
        ContractError,
    >)
        requires
            old(self).wf(),
        ensures
            final(self).wf(),
            r is Err ==> *final(self) == *old(self),
            claim_id >= old(self).claims().len() ==> r == Err::<(), ContractError>(
                ContractError::ClaimNotFound,
            ),
            claim_id < old(self).claims().len() ==> {
                let c = old(self).claims()[claim_id as int];
                if c.issuer != caller {
                    r == Err::<(), ContractError>(ContractError::UnauthorizedApproval)
                } else if c.status == ClaimStatus::Approved {
                    r == Err::<(), ContractError>(ContractError::ClaimAlreadyApproved)
                } else {
                    &&& r is Ok
                    &&& final(self).claims() == old(self).claims().update(
                        claim_id as int,
                        Claim { status: ClaimStatus::Approved, ..c },
                    )
                    &&& final(self).profiles() == old(self).profiles()
                    &&& final(self).event_log() == old(self).event_log().push(
                        RegistryEvent::ClaimApproved(ClaimApproved { claim_id }),
                    )
                }
            },
    {
        if claim_id >= self.claims.len() as u64 {
            return Err(ContractError::ClaimNotFound);
        }
        let idx = claim_id as usize;
        let c = self.claims[idx].approve(caller)?;
        self.claims.set(idx, c);
        self.events.push(RegistryEvent::ClaimApproved(ClaimApproved { claim_id }));
        Ok(())
    }

    /// The profile of `account`, if it has one.
    pub fn get_profile(&self, account: AccountId) -> (r: Option<Profile>)
        requires
            self.wf(),
        ensures
            self.profiles().contains_key(account) ==> r == Some(self.profiles()[account]),
            !self.profiles().contains_key(account) ==> r is None,
    {
        proof {
            lemma_profile_map(self.profiles@);
        }
        match self.find_profile(account) {
            Some(i) => Some(self.profiles[i].clone()),
            None => None,
        }
    }

    /// The claims about `account`, in creation order; empty if none.
    pub fn get_claims(&self, account: AccountId) -> (r: Vec<Claim>)
        ensures
            r@ == claims_about(self.claims(), account),
    {
        let mut r: Vec<Claim> = Vec::new();
        let mut i: usize = 0;
        while i < self.claims.len()
            invariant
                0 <= i <= self.claims@.len(),
                r@ == claims_about(self.claims@.take(i as int), account),
            decreases self.claims.len() - i,
        {
            proof {
                assert(self.claims@.take(i + 1).drop_last() =~= self.claims@.take(i as int));
            }
            if self.claims[i].receiver == account {
                r.push(self.claims[i].clone());
            }
            i = i + 1;
        }
        assert(self.claims@.take(i as int) =~= self.claims@);
        r
    }

    /// Number of claims recorded so far.
    pub fn get_total_claims(&self) -> (r: u64)
        requires
            self.wf(),
        ensures
            r == self.claims().len(),
    {
        self.claims.len() as u64
    }

    /// Link the identifier `did` to the caller's profile, replacing any earlier one.
    /// The caller needs a profile, and `did` must start with `did:kilt:`.
    pub fn link_did(&mut self, caller: AccountId, did: String) -> (r: Result<(), ContractError>)
        requires
            old(self).wf(),
        ensures
            final(self).wf(),
            r is Err ==> *final(self) == *old(self),
            !old(self).profiles().contains_key(caller) ==> r == Err::<(), ContractError>(
                ContractError::ProfileNotFound,
            ),
            old(self).profiles().contains_key(caller) && !is_kilt_did(encode_utf8(did@)) ==> r
                == Err::<(), ContractError>(ContractError::InvalidDid),
            old(self).profiles().contains_key(caller) && is_kilt_did(encode_utf8(did@)) ==> {
                &&& r is Ok
                &&& final(self).profiles() == old(self).profiles().insert(
                    caller,
                    Profile { did: Some(did), ..old(self).profiles()[caller] },
                )
                &&& final(self).claims() == old(self).claims()
                &&& final(self).event_log() == old(self).event_log().push(
                    RegistryEvent::DidLinked(DidLinked { owner: caller, did }),
                )
            },
    {
        proof {
            lemma_profile_map(self.profiles@);
        }
        let idx = match self.find_profile(caller) {
            Some(i) => i,
            None => {
                return Err(ContractError::ProfileNotFound);
            },
        };
        let p = self.profiles[idx].with_did(did.clone())?;
        proof {
            lemma_profile_map_update(self.profiles@, idx as int, p);
        }
        self.profiles.set(idx, p);
        self.events.push(RegistryEvent::DidLinked(DidLinked { owner: caller, did }));
        Ok(())
    }

    /// The events emitted so far, oldest first.
    pub fn events(&self) -> (r: &Vec<RegistryEvent>)
        ensures
            r@ == self.event_log(),
    {
        &self.events
    }

    /// The identifier linked to the profile of `account`, if any.
    pub fn get_did(&self, account: AccountId) -> (r: Option<String>)
        requires
            self.wf(),
        ensures
            self.profiles().contains_key(account) ==> r == self.profiles()[account].did,
            !self.profiles().contains_key(account) ==> r is None,
    {
        match self.get_profile(account) {
            Some(p) => p.did,
            None => None,
        }
    }
}

impl Default for SkillChainRegistry {
    fn default() -> (r: Self)
        ensures
            r.wf(),
            r.profiles() == Map::<AccountId, Profile>::empty(),
            r.claims().len() == 0,
            r.event_log().len() == 0,
    {
        SkillChainRegistry::new()
    }
}

} // verus!
