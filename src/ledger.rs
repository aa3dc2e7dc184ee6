//! The record store of the executing side: projects and referral accounts,
//! keyed by address. Each operation runs its instruction's checks first and
//! writes only when all of them pass, so a failed operation leaves the store
//! as it was.

use vstd::prelude::*;
use crate::address::Address;
use crate::events::{InitializeProjectEvent, InitializeReferralAccountEvent, UpdateProjectEvent, UpdateReferralAccountEvent};
use crate::program::{
    admin_violation, initialize_project, initialize_project_v2, initialize_project_v2_violation,
    initialize_project_violation, initialize_referral_account, initialize_referral_account_violation,
    initialize_referral_account_with_name, initialize_referral_account_with_name_violation, transfer_project,
    transfer_referral_account, update_project, update_project_violation, update_referral_account,
    update_referral_account_violation, updated_project, InitializeProject, InitializeProjectParams,
    InitializeProjectV2, InitializeReferralAccount, InitializeReferralAccountParams, InitializeReferralAccountWithName,
    InitializeReferralAccountWithNameParams, ProgramErrorCode, Project, ProjectV2, ReferralAccount, TransferProject,
    TransferProjectParams, TransferReferralAccount, TransferReferralAccountParams, UpdateProject, UpdateProjectParams,
    UpdateReferralAccount, UpdateReferralAccountParams,
};

verus! {

/// A stored record, tagged by kind.
#[derive(Clone, Debug)]
pub enum Record {
    Project(Project),
    ProjectV2(ProjectV2),
    Referral(ReferralAccount),
}

/// One address and its record.
#[derive(Clone, Debug)]
pub struct Entry {
    pub key: Address,
    pub record: Record,
}

/// The record stored under `k`; the last entry with that key counts.
pub open spec fn lookup(s: Seq<Entry>, k: Seq<u8>) -> Option<Record>
    decreases s.len(),
{
    if s.len() == 0 {
        None
    } else if s.last().key@ == k {
        Some(s.last().record)
    } else {
        lookup(s.drop_last(), k)
    }
}

pub open spec fn unique_keys(s: Seq<Entry>) -> bool {
    forall|i: int, j: int| 0 <= i < j < s.len() ==> s[i].key@ != s[j].key@
}

proof fn lemma_lookup_absent(s: Seq<Entry>, k: Seq<u8>)
    requires
        forall|j: int| 0 <= j < s.len() ==> s[j].key@ != k,
    ensures
        lookup(s, k) is None,
    decreases s.len(),
{
    if s.len() > 0 {
        lemma_lookup_absent(s.drop_last(), k);
    }
}

proof fn lemma_lookup_at(s: Seq<Entry>, i: int)
    requires
        unique_keys(s),
        0 <= i < s.len(),
    ensures
        lookup(s, s[i].key@) == Some(s[i].record),
    decreases s.len(),
{
    if i < s.len() - 1 {
        assert(s.drop_last()[i] == s[i]);
        lemma_lookup_at(s.drop_last(), i);
    }
}

proof fn lemma_lookup_update(s: Seq<Entry>, i: int, e: Entry, k: Seq<u8>)
    requires
        unique_keys(s),
        0 <= i < s.len(),
        e.key@ == s[i].key@,
    ensures
        lookup(s.update(i, e), k) == (if k == e.key@ { Some(e.record) } else { lookup(s, k) }),
        unique_keys(s.update(i, e)),
    decreases s.len(),
{
    let t = s.update(i, e);
    if i < s.len() - 1 {
        assert(t.drop_last() =~= s.drop_last().update(i, e));
        lemma_lookup_update(s.drop_last(), i, e, k);
        if k == e.key@ {
            assert(s.last().key@ != k);
        }
    } else {
        assert(t.drop_last() =~= s.drop_last());
    }
}

/// The store: entries with distinct addresses.
pub struct Ledger {
    entries: Vec<Entry>,
}

impl View for Ledger {
    type V = Map<Seq<u8>, Record>;

    closed spec fn view(&self) -> Map<Seq<u8>, Record> {
        Map::new(|k: Seq<u8>| lookup(self.entries@, k) is Some, |k: Seq<u8>| lookup(self.entries@, k)->Some_0)
    }
}

impl Ledger {
    pub closed spec fn wf(&self) -> bool {
        unique_keys(self.entries@)
    }

    proof fn lemma_view_get(&self, k: Seq<u8>)
        ensures
            self@.contains_key(k) <==> lookup(self.entries@, k) is Some,
            self@.contains_key(k) ==> Some(self@[k]) == lookup(self.entries@, k),
    {
    }

    /// An empty store.
    pub fn new() -> (r: Ledger)
        ensures
            r.wf(),
            r@ == Map::<Seq<u8>, Record>::empty(),
    {
        let r = Ledger { entries: Vec::new() };
        assert(r@ =~= Map::<Seq<u8>, Record>::empty());
        r
    }

    fn find(&self, key: &Address) -> (r: Option<usize>)
        requires
            self.wf(),
        ensures
            r matches Some(i) ==> i < self.entries@.len() && self.entries@[i as int].key@ == key@
                && self@.contains_key(key@) && self@[key@] == self.entries@[i as int].record,
            r is None ==> !self@.contains_key(key@),
    {
        let mut i: usize = 0;
        while i < self.entries.len()
            invariant
                unique_keys(self.entries@),
                0 <= i <= self.entries@.len(),
                forall|j: int| 0 <= j < i ==> self.entries@[j].key@ != key@,
            decreases self.entries@.len() - i,
        {
            if self.entries[i].key.same_as(key) {
                proof {
                    lemma_lookup_at(self.entries@, i as int);
                    self.lemma_view_get(key@);
                }
                return Some(i);
            }
            i = i + 1;
        }
        proof {
            lemma_lookup_absent(self.entries@, key@);
            self.lemma_view_get(key@);
        }
        None
    }

    /// The record stored under `key`.
    pub fn get(&self, key: &Address) -> (r: Option<&Record>)
        requires
            self.wf(),
        ensures
            r matches Some(rec) ==> self@.contains_key(key@) && self@[key@] == *rec,
            r is None ==> !self@.contains_key(key@),
    {
        match self.find(key) {
            Some(i) => Some(&self.entries[i].record),
            None => None,
        }
    }

    fn insert_new(&mut self, key: Address, record: Record)
        requires
            old(self).wf(),
            !old(self)@.contains_key(key@),
        ensures
            final(self).wf(),
            final(self)@ == old(self)@.insert(key@, record),
    {
        let ghost before = self.entries@;
        proof {
            assert(lookup(before, key@) is None);
            assert forall|j: int| 0 <= j < before.len() implies before[j].key@ != key@ by {
                lemma_lookup_at(before, j);
            }
        }
        self.entries.push(Entry { key, record });
        proof {
            assert(self.entries@.drop_last() =~= before);
            assert forall|k: Seq<u8>| true implies lookup(self.entries@, k) == (if k == key@ {
                Some(record)
            } else {
                lookup(before, k)
            }) by {}
        }
        assert(self@ =~= old(self)@.insert(key@, record));
    }

    fn put_at(&mut self, i: usize, record: Record)
        requires
            old(self).wf(),
            i < old(self).entries@.len(),
        ensures
            final(self).wf(),
            final(self)@ == old(self)@.insert(old(self).entries@[i as int].key@, record),
            final(self).entries@.len() == old(self).entries@.len(),
            forall|j: int| 0 <= j < final(self).entries@.len() ==> final(self).entries@[j].key@ == old(self).entries@[j].key@,
    {
        let ghost before = self.entries@;
        let key = self.entries[i].key;
        let e = Entry { key, record };
        self.entries.set(i, e);
        proof {
            assert(self.entries@ == before.update(i as int, e));
            assert forall|k: Seq<u8>| true implies lookup(self.entries@, k) == (if k == key@ {
                Some(record)
            } else {
                lookup(before, k)
            }) by {
                lemma_lookup_update(before, i as int, e, k);
            }
            lemma_lookup_update(before, i as int, e, key@);
        }
        assert(self@ =~= old(self)@.insert(key@, record));
    }
}

} // verus!

verus! {

/// A record holds a share of at most 10000 and a name within its bound.
pub open spec fn record_wf(r: Record) -> bool {
    match r {
        Record::Project(p) => p.wf(),
        Record::ProjectV2(p) => p.wf(),
        Record::Referral(a) => a.wf(),
    }
}

/// Every stored record is well formed.
pub open spec fn all_wf(m: Map<Seq<u8>, Record>) -> bool {
    forall|k: Seq<u8>| m.contains_key(k) ==> record_wf(#[trigger] m[k])
}

/// The project stored under `k`, or why there is none.
pub open spec fn stored_project(m: Map<Seq<u8>, Record>, k: Seq<u8>) -> Result<Project, ProgramErrorCode> {
    if !m.contains_key(k) {
        Err(ProgramErrorCode::AccountNotInitialized)
    } else {
        match m[k] {
            Record::Project(p) => Ok(p),
            _ => Err(ProgramErrorCode::AccountKindMismatch),
        }
    }
}

/// The referral account stored under `k`, or why there is none.
pub open spec fn stored_referral(m: Map<Seq<u8>, Record>, k: Seq<u8>) -> Result<ReferralAccount, ProgramErrorCode> {
    if !m.contains_key(k) {
        Err(ProgramErrorCode::AccountNotInitialized)
    } else {
        match m[k] {
            Record::Referral(a) => Ok(a),
            _ => Err(ProgramErrorCode::AccountKindMismatch),
        }
    }
}

fn copy_project(p: &Project) -> (r: Project)
    ensures
        r == *p,
{
    Project { base: p.base, admin: p.admin, name: p.name.clone(), default_share_bps: p.default_share_bps }
}

fn copy_referral(a: &ReferralAccount) -> (r: ReferralAccount)
    ensures
        r == *a,
{
    let name = match &a.name {
        Some(n) => Some(n.clone()),
        None => None,
    };
    ReferralAccount { partner: a.partner, project: a.project, share_bps: a.share_bps, name }
}

impl Ledger {
    fn project_at(&self, key: &Address) -> (r: Result<(usize, Project), ProgramErrorCode>)
        requires
            self.wf(),
        ensures
            match stored_project(self@, key@) {
                Err(e) => r == Err::<(usize, Project), ProgramErrorCode>(e),
                Ok(p) => r matches Ok((i, q)) && q == p && i < self.entries@.len()
                    && self.entries@[i as int].key@ == key@,
            },
    {
        let i = match self.find(key) {
            Some(i) => i,
            None => return Err(ProgramErrorCode::AccountNotInitialized),
        };
        match &self.entries[i].record {
            Record::Project(p) => Ok((i, copy_project(p))),
            _ => Err(ProgramErrorCode::AccountKindMismatch),
        }
    }

    fn referral_at(&self, key: &Address) -> (r: Result<(usize, ReferralAccount), ProgramErrorCode>)
        requires
            self.wf(),
        ensures
            match stored_referral(self@, key@) {
                Err(e) => r == Err::<(usize, ReferralAccount), ProgramErrorCode>(e),
                Ok(a) => r matches Ok((i, b)) && b == a && i < self.entries@.len()
                    && self.entries@[i as int].key@ == key@,
            },
    {
        let i = match self.find(key) {
            Some(i) => i,
            None => return Err(ProgramErrorCode::AccountNotInitialized),
        };
        match &self.entries[i].record {
            Record::Referral(a) => Ok((i, copy_referral(a))),
            _ => Err(ProgramErrorCode::AccountKindMismatch),
        }
    }

    /// Creates a project record; the address must hold none yet.
    pub fn initialize_project(
        &mut self,
        ctx: &InitializeProject,
        params: InitializeProjectParams,
        program_id: &Address,
    ) -> (r: Result<InitializeProjectEvent, ProgramErrorCode>)
        requires
            old(self).wf(),
        ensures
            final(self).wf(),
            all_wf(old(self)@) ==> all_wf(final(self)@),
            old(self)@.contains_key(ctx.project_key@) ==> r == Err::<InitializeProjectEvent, ProgramErrorCode>(
                ProgramErrorCode::AccountAlreadyInUse,
            ) && final(self)@ == old(self)@,
            !old(self)@.contains_key(ctx.project_key@) ==> match initialize_project_violation(*ctx, params, program_id@) {
                Some(e) => r == Err::<InitializeProjectEvent, ProgramErrorCode>(e) && final(self)@ == old(self)@,
                None => r is Ok && final(self)@ == old(self)@.insert(
                    ctx.project_key@,
                    Record::Project(Project {
                        base: ctx.base,
                        admin: ctx.admin,
                        name: params.name,
                        default_share_bps: params.default_share_bps,
                    }),
                ),
            },
    {
        if self.find(&ctx.project_key).is_some() {
            return Err(ProgramErrorCode::AccountAlreadyInUse);
        }
        match initialize_project(ctx, params, program_id) {
            Ok((project, event)) => {
                self.insert_new(ctx.project_key, Record::Project(project));
                Ok(event)
            },
            Err(e) => Err(e),
        }
    }

    /// Overwrites the given fields of a stored project.
    pub fn update_project(&mut self, ctx: &UpdateProject, params: UpdateProjectParams) -> (r: Result<
        UpdateProjectEvent,
        ProgramErrorCode,
    >)
        requires
            old(self).wf(),
        ensures
            final(self).wf(),
            all_wf(old(self)@) ==> all_wf(final(self)@),
            match stored_project(old(self)@, ctx.project_key@) {
                Err(e) => r == Err::<UpdateProjectEvent, ProgramErrorCode>(e) && final(self)@ == old(self)@,
                Ok(p) => match update_project_violation(*ctx, p, params) {
                    Some(e) => r == Err::<UpdateProjectEvent, ProgramErrorCode>(e) && final(self)@ == old(self)@,
                    None => r is Ok && final(self)@ == old(self)@.insert(
                        ctx.project_key@,
                        Record::Project(updated_project(p, params)),
                    ),
                },
            },
    {
        let (i, mut project) = match self.project_at(&ctx.project_key) {
            Ok(found) => found,
            Err(e) => return Err(e),
        };
        match update_project(ctx, &mut project, params) {
            Ok(event) => {
                self.put_at(i, Record::Project(project));
                Ok(event)
            },
            Err(e) => Err(e),
        }
    }

    /// Hands a stored project to a new admin.
    pub fn transfer_project(
        &mut self,
        ctx: &TransferProject,
        project_key: &Address,
        params: TransferProjectParams,
    ) -> (r: Result<(), ProgramErrorCode>)
        requires
            old(self).wf(),
        ensures
            final(self).wf(),
            all_wf(old(self)@) ==> all_wf(final(self)@),
            match stored_project(old(self)@, project_key@) {
                Err(e) => r == Err::<(), ProgramErrorCode>(e) && final(self)@ == old(self)@,
                Ok(p) => match admin_violation(ctx.admin_signed, p.admin, ctx.admin) {
                    Some(e) => r == Err::<(), ProgramErrorCode>(e) && final(self)@ == old(self)@,
                    None => r is Ok && final(self)@ == old(self)@.insert(
                        project_key@,
                        Record::Project(Project {
                            admin: ctx.new_admin,
                            base: p.base,
                            name: p.name,
                            default_share_bps: p.default_share_bps,
                        }),
                    ),
                },
            },
    {
        let (i, mut project) = match self.project_at(project_key) {
            Ok(found) => found,
            Err(e) => return Err(e),
        };
        match transfer_project(ctx, &mut project, params) {
            Ok(()) => {
                self.put_at(i, Record::Project(project));
                Ok(())
            },
            Err(e) => Err(e),
        }
    }

    /// Creates a named referral account under a stored project; the share is
    /// the project's default at this moment.
    pub fn initialize_referral_account_with_name(
        &mut self,
        payer_signed: bool,
        partner: Address,
        project_key: Address,
        referral_account_key: Address,
        params: InitializeReferralAccountWithNameParams,
        program_id: &Address,
    ) -> (r: Result<InitializeReferralAccountEvent, ProgramErrorCode>)
        requires
            old(self).wf(),
        ensures
            final(self).wf(),
            all_wf(old(self)@) ==> all_wf(final(self)@),
            match stored_project(old(self)@, project_key@) {
                Err(e) => r == Err::<InitializeReferralAccountEvent, ProgramErrorCode>(e) && final(self)@ == old(self)@,
                Ok(p) => if old(self)@.contains_key(referral_account_key@) {
                    r == Err::<InitializeReferralAccountEvent, ProgramErrorCode>(ProgramErrorCode::AccountAlreadyInUse)
                        && final(self)@ == old(self)@
                } else {
                    match initialize_referral_account_with_name_violation(
                        InitializeReferralAccountWithName { payer_signed, partner, project_key, project: p, referral_account_key },
                        params,
                        program_id@,
                    ) {
                        Some(e) => r == Err::<InitializeReferralAccountEvent, ProgramErrorCode>(e)
                            && final(self)@ == old(self)@,
                        None => r is Ok && final(self)@ == old(self)@.insert(
                            referral_account_key@,
                            Record::Referral(ReferralAccount {
                                partner,
                                project: project_key,
                                share_bps: p.default_share_bps,
                                name: Some(params.name),
                            }),
                        ),
                    }
                },
            },
    {
        let (_, project) = match self.project_at(&project_key) {
            Ok(found) => found,
            Err(e) => return Err(e),
        };
        if self.find(&referral_account_key).is_some() {
            return Err(ProgramErrorCode::AccountAlreadyInUse);
        }
        let ctx = InitializeReferralAccountWithName { payer_signed, partner, project_key, project, referral_account_key };
        match initialize_referral_account_with_name(&ctx, params, program_id) {
            Ok((account, event)) => {
                self.insert_new(referral_account_key, Record::Referral(account));
                Ok(event)
            },
            Err(e) => Err(e),
        }
    }

    /// Sets a stored referral account's share; the admin of its stored project
    /// must sign.
    pub fn update_referral_account(
        &mut self,
        admin: Address,
        admin_signed: bool,
        project_key: Address,
        referral_account_key: Address,
        params: UpdateReferralAccountParams,
    ) -> (r: Result<UpdateReferralAccountEvent, ProgramErrorCode>)
        requires
            old(self).wf(),
        ensures
            final(self).wf(),
            all_wf(old(self)@) ==> all_wf(final(self)@),
            match stored_project(old(self)@, project_key@) {
                Err(e) => r == Err::<UpdateReferralAccountEvent, ProgramErrorCode>(e) && final(self)@ == old(self)@,
                Ok(p) => match stored_referral(old(self)@, referral_account_key@) {
                    Err(e) => r == Err::<UpdateReferralAccountEvent, ProgramErrorCode>(e) && final(self)@ == old(self)@,
                    Ok(a) => match update_referral_account_violation(
                        UpdateReferralAccount { admin, admin_signed, project_key, project: p, referral_account_key },
                        a,
                        params,
                    ) {
                        Some(e) => r == Err::<UpdateReferralAccountEvent, ProgramErrorCode>(e)
                            && final(self)@ == old(self)@,
                        None => r is Ok && final(self)@ == old(self)@.insert(
                            referral_account_key@,
                            Record::Referral(ReferralAccount {
                                share_bps: params.share_bps,
                                partner: a.partner,
                                project: a.project,
                                name: a.name,
                            }),
                        ),
                    },
                },
            },
    {
        let (_, project) = match self.project_at(&project_key) {
            Ok(found) => found,
            Err(e) => return Err(e),
        };
        let (i, mut account) = match self.referral_at(&referral_account_key) {
            Ok(found) => found,
            Err(e) => return Err(e),
        };
        let ctx = UpdateReferralAccount { admin, admin_signed, project_key, project, referral_account_key };
        match update_referral_account(&ctx, &mut account, params) {
            Ok(event) => {
                self.put_at(i, Record::Referral(account));
                Ok(event)
            },
            Err(e) => Err(e),
        }
    }

    /// Hands a stored referral account to a new partner; its partner must sign.
    pub fn transfer_referral_account(
        &mut self,
        ctx: &TransferReferralAccount,
        referral_account_key: &Address,
        params: TransferReferralAccountParams,
    ) -> (r: Result<(), ProgramErrorCode>)
        requires
            old(self).wf(),
        ensures
            final(self).wf(),
            all_wf(old(self)@) ==> all_wf(final(self)@),
            match stored_referral(old(self)@, referral_account_key@) {
                Err(e) => r == Err::<(), ProgramErrorCode>(e) && final(self)@ == old(self)@,
                Ok(a) => match admin_violation(ctx.partner_signed, a.partner, ctx.partner) {
                    Some(e) => r == Err::<(), ProgramErrorCode>(e) && final(self)@ == old(self)@,
                    None => r is Ok && final(self)@ == old(self)@.insert(
                        referral_account_key@,
                        Record::Referral(ReferralAccount {
                            partner: ctx.new_partner,
                            project: a.project,
                            share_bps: a.share_bps,
                            name: a.name,
                        }),
                    ),
                },
            },
    {
        let (i, mut account) = match self.referral_at(referral_account_key) {
            Ok(found) => found,
            Err(e) => return Err(e),
        };
        match transfer_referral_account(ctx, &mut account, params) {
            Ok(()) => {
                self.put_at(i, Record::Referral(account));
                Ok(())
            },
            Err(e) => Err(e),
        }
    }

    /// Creates an admin-keyed project record; the address must hold none yet.
    pub fn initialize_project_v2(
        &mut self,
        ctx: &InitializeProjectV2,
        params: InitializeProjectParams,
        program_id: &Address,
    ) -> (r: Result<InitializeProjectEvent, ProgramErrorCode>)
        requires
            old(self).wf(),
        ensures
            final(self).wf(),
            all_wf(old(self)@) ==> all_wf(final(self)@),
            old(self)@.contains_key(ctx.project_key@) ==> r == Err::<InitializeProjectEvent, ProgramErrorCode>(
                ProgramErrorCode::AccountAlreadyInUse,
            ) && final(self)@ == old(self)@,
            !old(self)@.contains_key(ctx.project_key@) ==> match initialize_project_v2_violation(*ctx, params, program_id@) {
                Some(e) => r == Err::<InitializeProjectEvent, ProgramErrorCode>(e) && final(self)@ == old(self)@,
                None => r is Ok && final(self)@ == old(self)@.insert(
                    ctx.project_key@,
                    Record::ProjectV2(ProjectV2 {
                        admin: ctx.admin,
                        name: params.name,
                        default_share_bps: params.default_share_bps,
                    }),
                ),
            },
    {
        if self.find(&ctx.project_key).is_some() {
            return Err(ProgramErrorCode::AccountAlreadyInUse);
        }
        match initialize_project_v2(ctx, params, program_id) {
            Ok((project, event)) => {
                self.insert_new(ctx.project_key, Record::ProjectV2(project));
                Ok(event)
            },
            Err(e) => Err(e),
        }
    }

    /// Creates the unnamed (legacy) referral account of a stored project, at
    /// ["referral", project]; the share is the project's default at this moment.
    pub fn initialize_referral_account(
        &mut self,
        payer_signed: bool,
        partner: Address,
        project_key: Address,
        referral_account_key: Address,
        params: InitializeReferralAccountParams,
        program_id: &Address,
    ) -> (r: Result<InitializeReferralAccountEvent, ProgramErrorCode>)
        requires
            old(self).wf(),
        ensures
            final(self).wf(),
            all_wf(old(self)@) ==> all_wf(final(self)@),
            match stored_project(old(self)@, project_key@) {
                Err(e) => r == Err::<InitializeReferralAccountEvent, ProgramErrorCode>(e) && final(self)@ == old(self)@,
                Ok(p) => if old(self)@.contains_key(referral_account_key@) {
                    r == Err::<InitializeReferralAccountEvent, ProgramErrorCode>(ProgramErrorCode::AccountAlreadyInUse)
                        && final(self)@ == old(self)@
                } else {
                    match initialize_referral_account_violation(
                        InitializeReferralAccount {
                            payer_signed,
                            partner,
                            project_key,
                            project: p,
                            referral_account_key,
                        },
                        program_id@,
                    ) {
                        Some(e) => r == Err::<InitializeReferralAccountEvent, ProgramErrorCode>(e)
                            && final(self)@ == old(self)@,
                        None => r is Ok && final(self)@ == old(self)@.insert(
                            referral_account_key@,
                            Record::Referral(ReferralAccount {
                                partner,
                                project: project_key,
                                share_bps: p.default_share_bps,
                                name: None,
                            }),
                        ),
                    }
                },
            },
    {
        let (_, project) = match self.project_at(&project_key) {
            Ok(found) => found,
            Err(e) => return Err(e),
        };
        if self.find(&referral_account_key).is_some() {
            return Err(ProgramErrorCode::AccountAlreadyInUse);
        }
        let ctx = InitializeReferralAccount {
            payer_signed,
            partner,
            project_key,
            project,
            referral_account_key,
        };
        match initialize_referral_account(&ctx, params, program_id) {
            Ok((account, event)) => {
                self.insert_new(referral_account_key, Record::Referral(account));
                Ok(event)
            },
            Err(e) => Err(e),
        }
    }
}

} // verus!
