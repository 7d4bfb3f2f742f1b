//! The role registry, the vault allow-list and read-only queries.
use vstd::prelude::*;
use crate::error::Error;
use crate::ledger::StellarStreamContract;
use crate::types::{AccountId, Role, RoleGrant, Stream};

verus! {

impl StellarStreamContract {
    pub open spec fn has_role(&self, account: AccountId, role: Role) -> bool {
        self.roles@.contains(RoleGrant { account, role })
    }

    /// The one-time bootstrap: names `admin` and grants it every role. Once
    /// an admin is named, a further call is refused and changes nothing.
    pub fn initialize(&mut self, admin: AccountId) -> (r: Result<(), Error>)
        requires
            old(self).wf(),
        ensures
            final(self).wf(),
            old(self).admin is Some ==> r == Err::<(), Error>(Error::Unauthorized)
                && *final(self) == *old(self),
            old(self).admin is None ==> {
                &&& r is Ok
                &&& final(self).admin == Some(admin)
                &&& forall|a: AccountId, r: Role| #[trigger] final(self).has_role(a, r)
                    == (old(self).has_role(a, r) || a == admin)
                &&& final(self).streams@ == old(self).streams@
                &&& final(self).proposals@ == old(self).proposals@
                &&& final(self).approved_vaults@ == old(self).approved_vaults@
            },
    {
        if self.admin.is_some() {
            return Err(Error::Unauthorized);
        }
        self.admin = Some(admin);
        self.add_grant(admin, Role::Admin);
        self.add_grant(admin, Role::Pauser);
        self.add_grant(admin, Role::TreasuryManager);
        proof {
            assert forall|a: AccountId, r: Role| #[trigger] self.has_role(a, r)
                == (old(self).has_role(a, r) || a == admin) by {
                if a == admin {
                    match r {
                        Role::Admin => {},
                        Role::Pauser => {},
                        Role::TreasuryManager => {},
                    }
                }
            }
        }
        Ok(())
    }

    fn add_grant(&mut self, account: AccountId, role: Role)
        ensures
            forall|a: AccountId, r: Role| #[trigger] final(self).has_role(a, r)
                == (old(self).has_role(a, r) || (a == account && r == role)),
            final(self).admin == old(self).admin,
            final(self).streams@ == old(self).streams@,
            final(self).proposals@ == old(self).proposals@,
            final(self).approved_vaults@ == old(self).approved_vaults@,
    {
        let grant = RoleGrant { account, role };
        let ghost before = self.roles@;
        self.roles.push(grant);
        proof {
            assert forall|a: AccountId, r: Role| #[trigger] self.has_role(a, r)
                == (old(self).has_role(a, r) || (a == account && r == role)) by {
                let g = RoleGrant { account: a, role: r };
                if before.contains(g) {
                    let k = choose|k: int| 0 <= k < before.len() && before[k] == g;
                    assert(self.roles@[k] == g);
                }
                if a == account && r == role {
                    assert(self.roles@[before.len() as int] == g);
                }
                if self.roles@.contains(g) {
                    let k = choose|k: int| 0 <= k < self.roles@.len() && self.roles@[k] == g;
                    if k < before.len() {
                        assert(before[k] == g);
                    }
                }
            }
        }
    }

    /// Grants `role` to `target`. Only an account that holds the Admin role
    /// may do so; any other caller aborts the whole call.
    pub fn grant_role(&mut self, admin: AccountId, target: AccountId, role: Role)
        requires
            old(self).wf(),
            old(self).has_role(admin, Role::Admin),
        ensures
            final(self).wf(),
            forall|a: AccountId, r: Role| #[trigger] final(self).has_role(a, r)
                == (old(self).has_role(a, r) || (a == target && r == role)),
            final(self).admin == old(self).admin,
            final(self).streams@ == old(self).streams@,
            final(self).proposals@ == old(self).proposals@,
    {
        self.add_grant(target, role);
    }

    /// Withdraws `role` from `target`. Only an account that holds the Admin
    /// role may do so; any other caller aborts the whole call.
    pub fn revoke_role(&mut self, admin: AccountId, target: AccountId, role: Role)
        requires
            old(self).wf(),
            old(self).has_role(admin, Role::Admin),
        ensures
            final(self).wf(),
            forall|a: AccountId, r: Role| #[trigger] final(self).has_role(a, r)
                == (old(self).has_role(a, r) && !(a == target && r == role)),
            final(self).admin == old(self).admin,
            final(self).streams@ == old(self).streams@,
            final(self).proposals@ == old(self).proposals@,
    {
        let revoked = RoleGrant { account: target, role };
        let mut kept: Vec<RoleGrant> = Vec::new();
        let mut i: usize = 0;
        while i < self.roles.len()
            invariant
                i <= self.roles@.len(),
                revoked == (RoleGrant { account: target, role }),
                forall|g: RoleGrant| #[trigger] kept@.contains(g)
                    == (self.roles@.take(i as int).contains(g) && g != revoked),
            decreases self.roles@.len() - i,
        {
            let g = self.roles[i];
            let ghost prev = kept@;
            if !Self::same_grant(&g, &revoked) {
                kept.push(g);
            }
            proof {
                let next = self.roles@.take(i + 1);
                assert(next == self.roles@.take(i as int).push(g));
                assert forall|h: RoleGrant| #[trigger] kept@.contains(h)
                    == (next.contains(h) && h != revoked) by {
                    if next.contains(h) {
                        let k = choose|k: int| 0 <= k < next.len() && next[k] == h;
                        if k < i {
                            assert(self.roles@.take(i as int)[k] == h);
                        }
                    }
                    if self.roles@.take(i as int).contains(h) {
                        let k = choose|k: int| 0 <= k < i && self.roles@.take(i as int)[k] == h;
                        assert(next[k] == h);
                    }
                    if kept@.contains(h) && !prev.contains(h) {
                        assert(h == g);
                    }
                    if prev.contains(h) {
                        let k = choose|k: int| 0 <= k < prev.len() && prev[k] == h;
                        assert(kept@[k] == h);
                    }
                    if g != revoked && h == g {
                        assert(kept@[prev.len() as int] == h);
                        assert(next[i as int] == h);
                    }
                }
            }
            i += 1;
        }
        assert(self.roles@.take(self.roles@.len() as int) =~= self.roles@);
        self.roles = kept;
    }

    fn same_grant(a: &RoleGrant, b: &RoleGrant) -> (r: bool)
        ensures
            r == (*a == *b),
    {
        a.account == b.account && a.role == b.role
    }

    /// Whether `address` holds `role`.
    pub fn check_role(&self, address: AccountId, role: Role) -> (r: bool)
        ensures
            r == self.has_role(address, role),
    {
        let wanted = RoleGrant { account: address, role };
        let mut i: usize = 0;
        while i < self.roles.len()
            invariant
                i <= self.roles@.len(),
                wanted == (RoleGrant { account: address, role }),
                forall|j: int| 0 <= j < i ==> self.roles@[j] != wanted,
            decreases self.roles@.len() - i,
        {
            if Self::same_grant(&self.roles[i], &wanted) {
                assert(self.roles@[i as int] == wanted);
                assert(self.roles@.contains(wanted));
                return true;
            }
            i += 1;
        }
        false
    }

    /// The account named by `initialize`; asking before that aborts the call.
    pub fn get_admin(&self) -> (r: AccountId)
        requires
            self.admin is Some,
        ensures
            r == self.admin->0,
    {
        match self.admin {
            Some(a) => a,
            None => 0,
        }
    }

    /// Puts `vault` on the allow-list of vaults that streams may park their
    /// principal in. Only an Admin or TreasuryManager may do so.
    pub fn approve_vault(&mut self, caller: AccountId, vault: AccountId) -> (r: Result<(), Error>)
        requires
            old(self).wf(),
        ensures
            final(self).wf(),
            !old(self).has_role(caller, Role::Admin) && !old(self).has_role(caller, Role::TreasuryManager)
                ==> r == Err::<(), Error>(Error::Unauthorized) && *final(self) == *old(self),
            old(self).has_role(caller, Role::Admin) || old(self).has_role(caller, Role::TreasuryManager)
                ==> r is Ok && final(self).approved_vaults@ == old(self).approved_vaults@.push(vault)
                    && final(self).streams@ == old(self).streams@
                    && final(self).proposals@ == old(self).proposals@
                    && final(self).roles@ == old(self).roles@,
    {
        if !self.check_role(caller, Role::Admin) && !self.check_role(caller, Role::TreasuryManager) {
            return Err(Error::Unauthorized);
        }
        self.approved_vaults.push(vault);
        Ok(())
    }


    /// The stream stored under `stream_id`.
    pub fn get_stream(&self, stream_id: u64) -> (r: Result<&Stream, Error>)
        ensures
            self.has_stream(stream_id) ==> (r matches Ok(s) && *s == self.stream(stream_id)),
            !self.has_stream(stream_id) ==> r == Err::<&Stream, Error>(Error::StreamNotFound),
    {
        if stream_id >= self.streams.len() as u64 {
            return Err(Error::StreamNotFound);
        }
        Ok(&self.streams[stream_id as usize])
    }

    /// The ids of the soulbound streams, in order of creation.
    pub fn get_soulbound_streams(&self) -> (r: Vec<u64>)
        ensures
            r@ == self.soulbound_streams@,
    {
        let mut out: Vec<u64> = Vec::new();
        let mut i: usize = 0;
        while i < self.soulbound_streams.len()
            invariant
                i <= self.soulbound_streams@.len(),
                out@ == self.soulbound_streams@.take(i as int),
            decreases self.soulbound_streams@.len() - i,
        {
            out.push(self.soulbound_streams[i]);
            assert(self.soulbound_streams@.take(i + 1) =~= self.soulbound_streams@.take(i as int).push(self.soulbound_streams@[i as int]));
            i += 1;
        }
        assert(self.soulbound_streams@.take(i as int) =~= self.soulbound_streams@);
        out
    }
}

} // verus!
