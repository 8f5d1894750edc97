use crate::address::{find_address, le_bytes, program_address, seeds_view, timestamp_le_bytes};
use crate::identity::Identity;
use crate::ledger::Ledger;
use crate::text::{char_len, text_of, MAX_URL_LEN};
use vstd::prelude::*;

verus! {

/// Failures of the deployment registry.
#[derive(Clone, Copy, Debug, PartialEq, Eq, Structural)]
pub enum ErrorCode {
    /// A locator is longer than 200 characters.
    UrlTooLong,
    /// A locator is empty.
    EmptyUrl,
    /// The caller is not the record's owner.
    Unauthorized,
    /// A record already occupies the derived address.
    AccountInUse,
    /// No record is stored at the given address.
    AccountNotFound,
    /// No address can be derived from the record's seeds.
    NoViableAddress,
}

/// A deployment record: an owner's pair of locators.
#[derive(Debug)]
pub struct Deployment {
    pub owner: Identity,
    pub github_url: String,
    pub arweave_url: String,
    /// Time of the last create or update.
    pub deployed_at: i64,
    /// Time of creation; with `owner` it determines the record's address.
    pub created_at: i64,
    pub bump: u8,
}

pub struct DeploymentView {
    pub owner: Seq<u8>,
    pub github_url: Seq<char>,
    pub arweave_url: Seq<char>,
    pub deployed_at: i64,
    pub created_at: i64,
    pub bump: u8,
}

impl View for Deployment {
    type V = DeploymentView;

    open spec fn view(&self) -> DeploymentView {
        DeploymentView {
            owner: self.owner@,
            github_url: self.github_url@,
            arweave_url: self.arweave_url@,
            deployed_at: self.deployed_at,
            created_at: self.created_at,
            bump: self.bump,
        }
    }
}

impl Deployment {
    /// A copy of the record.
    pub fn duplicate(&self) -> (r: Deployment)
        ensures
            r@ == self@,
    {
        Deployment {
            owner: self.owner,
            github_url: self.github_url.clone(),
            arweave_url: self.arweave_url.clone(),
            deployed_at: self.deployed_at,
            created_at: self.created_at,
            bump: self.bump,
        }
    }
}

/// Notification of a new deployment record.
#[derive(Debug)]
pub struct DeploymentCreated {
    pub owner: Identity,
    pub github_url: String,
    pub arweave_url: String,
    pub deployed_at: i64,
}

/// Notification of a changed deployment record.
#[derive(Debug)]
pub struct DeploymentUpdated {
    pub owner: Identity,
    pub github_url: String,
    pub arweave_url: String,
    pub updated_at: i64,
}

/// The seed prefix `b"deployment"`.
pub open spec fn deployment_tag() -> Seq<u8> {
    seq![100u8, 101u8, 112u8, 108u8, 111u8, 121u8, 109u8, 101u8, 110u8, 116u8]
}

/// Seeds of the address of a record created by `owner` at time `t`.
pub open spec fn deployment_seeds(owner: Seq<u8>, t: i64) -> Seq<Seq<u8>> {
    seq![deployment_tag(), owner, le_bytes(t)]
}

/// Address and bump of a record created by `owner` at time `t`.
pub open spec fn deployment_address(program: Seq<u8>, owner: Seq<u8>, t: i64) -> Option<(Seq<u8>, u8)> {
    program_address(deployment_seeds(owner, t), program)
}

/// The error of a locator, if it is not 1 to 200 characters long.
pub open spec fn url_error(s: Seq<char>) -> Option<ErrorCode> {
    if s.len() > MAX_URL_LEN {
        Some(ErrorCode::UrlTooLong)
    } else if s.len() == 0 {
        Some(ErrorCode::EmptyUrl)
    } else {
        None
    }
}

/// The error of a pair of locators: length is checked on both before emptiness.
pub open spec fn urls_error(a: Seq<char>, b: Seq<char>) -> Option<ErrorCode> {
    if a.len() > MAX_URL_LEN || b.len() > MAX_URL_LEN {
        Some(ErrorCode::UrlTooLong)
    } else if a.len() == 0 || b.len() == 0 {
        Some(ErrorCode::EmptyUrl)
    } else {
        None
    }
}

/// The error of an optional replacement locator.
pub open spec fn new_url_error(o: Option<Seq<char>>) -> Option<ErrorCode> {
    match o {
        Some(s) => url_error(s),
        None => None,
    }
}

/// Records after `owner` creates one at time `now`, or the error.
pub open spec fn create_outcome(
    m: Map<Seq<u8>, DeploymentView>,
    program: Seq<u8>,
    owner: Seq<u8>,
    github_url: Seq<char>,
    arweave_url: Seq<char>,
    now: i64,
) -> Result<Map<Seq<u8>, DeploymentView>, ErrorCode> {
    match urls_error(github_url, arweave_url) {
        Some(e) => Err(e),
        None => match deployment_address(program, owner, now) {
            None => Err(ErrorCode::NoViableAddress),
            Some((a, bump)) => if m.contains_key(a) {
                Err(ErrorCode::AccountInUse)
            } else {
                Ok(
                    m.insert(
                        a,
                        DeploymentView {
                            owner,
                            github_url,
                            arweave_url,
                            deployed_at: now,
                            created_at: now,
                            bump,
                        },
                    ),
                )
            },
        },
    }
}

/// Records after `signer` updates the record at `addr` at time `now`, or the error.
pub open spec fn update_outcome(
    m: Map<Seq<u8>, DeploymentView>,
    signer: Seq<u8>,
    addr: Seq<u8>,
    new_github_url: Option<Seq<char>>,
    new_arweave_url: Option<Seq<char>>,
    now: i64,
) -> Result<Map<Seq<u8>, DeploymentView>, ErrorCode> {
    if !m.contains_key(addr) {
        Err(ErrorCode::AccountNotFound)
    } else if m[addr].owner != signer {
        Err(ErrorCode::Unauthorized)
    } else if new_url_error(new_github_url) is Some {
        Err(new_url_error(new_github_url).unwrap())
    } else if new_url_error(new_arweave_url) is Some {
        Err(new_url_error(new_arweave_url).unwrap())
    } else {
        let d = m[addr];
        Ok(
            m.insert(
                addr,
                DeploymentView {
                    github_url: match new_github_url {
                        Some(s) => s,
                        None => d.github_url,
                    },
                    arweave_url: match new_arweave_url {
                        Some(s) => s,
                        None => d.arweave_url,
                    },
                    deployed_at: now,
                    ..d
                },
            ),
        )
    }
}

/// Builds the seeds of `deployment_seeds(owner, t)`.
fn seeds_for(owner: &Identity, t: i64) -> (r: Vec<Vec<u8>>)
    ensures
        seeds_view(r@) == deployment_seeds(owner@, t),
{
    let tag: Vec<u8> = vec![100u8, 101u8, 112u8, 108u8, 111u8, 121u8, 109u8, 101u8, 110u8, 116u8];
    let mut key: Vec<u8> = Vec::new();
    let mut i: usize = 0;
    while i < 32
        invariant
            0 <= i <= 32,
            owner@.len() == 32,
            key@ =~= owner@.subrange(0, i as int),
        decreases 32 - i,
    {
        key.push(owner.bytes[i]);
        i = i + 1;
    }
    assert(key@ =~= owner@);
    let time = timestamp_le_bytes(t);
    let mut r: Vec<Vec<u8>> = Vec::new();
    r.push(tag);
    r.push(key);
    r.push(time);
    assert(tag@ =~= deployment_tag());
    assert(r@[0]@ == deployment_tag() && r@[1]@ == owner@ && r@[2]@ == le_bytes(t));
    assert(seeds_view(r@) =~= deployment_seeds(owner@, t));
    r
}

/// Deployment records of one program, keyed by their derived address.
#[derive(Debug)]
pub struct DeploymentRegistry {
    program_id: Identity,
    accounts: Ledger<Deployment>,
}

impl View for DeploymentRegistry {
    type V = Map<Seq<u8>, DeploymentView>;

    closed spec fn view(&self) -> Map<Seq<u8>, DeploymentView> {
        self.accounts@
    }
}

impl DeploymentRegistry {
    /// The id of the program that owns the records.
    pub closed spec fn program(&self) -> Seq<u8> {
        self.program_id@
    }

    pub fn program_id(&self) -> (r: Identity)
        ensures
            r@ == self.program(),
    {
        self.program_id
    }

    /// Every record sits at the address derived from its owner and creation time.
    pub closed spec fn wf(&self) -> bool {
        &&& self.accounts.wf()
        &&& forall|a: Seq<u8>| #[trigger]
            self@.contains_key(a) ==> deployment_address(
                self.program_id@,
                self@[a].owner,
                self@[a].created_at,
            ) == Some((a, self@[a].bump))
    }

    pub fn new(program_id: Identity) -> (r: DeploymentRegistry)
        ensures
            r.wf(),
            r.program() == program_id@,
            r@ == Map::<Seq<u8>, DeploymentView>::empty(),
    {
        DeploymentRegistry { program_id, accounts: Ledger::new() }
    }

    /// The record stored at `addr`, if any.
    pub fn get(&self, addr: &Identity) -> (r: Option<&Deployment>)
        requires
            self.wf(),
        ensures
            r is Some <==> self@.contains_key(addr@),
            r matches Some(d) ==> d@ == self@[addr@],
    {
        self.accounts.get(addr)
    }

    /// The address of a record created by `owner` at time `t`.
    pub fn address_of(&self, owner: &Identity, t: i64) -> (r: Option<Identity>)
        ensures
            match deployment_address(self.program(), owner@, t) {
                Some((a, _)) => r matches Some(x) && x@ == a,
                None => r is None,
            },
    {
        let seeds = seeds_for(owner, t);
        match find_address(&seeds, &self.program_id) {
            Some((a, _)) => Some(a),
            None => None,
        }
    }

    /// Creates a record for the authorized `owner` at time `now`, returning its
    /// address and the creation notification.
    pub fn create_deployment(
        &mut self,
        owner: Identity,
        github_url: String,
        arweave_url: String,
        now: i64,
    ) -> (r: Result<(Identity, DeploymentCreated), ErrorCode>)
        requires
            old(self).wf(),
        ensures
            final(self).wf(),
            final(self).program() == old(self).program(),
            match create_outcome(old(self)@, old(self).program(), owner@, github_url@, arweave_url@, now) {
                Ok(m) => final(self)@ == m && (r matches Ok((a, ev)) && Some((a@, final(self)@[a@].bump))
                    == deployment_address(old(self).program(), owner@, now) && ev.owner == owner
                    && ev.github_url@ == github_url@ && ev.arweave_url@ == arweave_url@
                    && ev.deployed_at == now),
                Err(e) => r == Err::<(Identity, DeploymentCreated), ErrorCode>(e) && final(self)@
                    == old(self)@,
            },
    {
        let n1 = char_len(github_url.as_str());
        let n2 = char_len(arweave_url.as_str());
        if n1 > MAX_URL_LEN || n2 > MAX_URL_LEN {
            return Err(ErrorCode::UrlTooLong);
        }
        if n1 == 0 || n2 == 0 {
            return Err(ErrorCode::EmptyUrl);
        }
        let seeds = seeds_for(&owner, now);
        let (a, bump) = match find_address(&seeds, &self.program_id) {
            Some(found) => found,
            None => return Err(ErrorCode::NoViableAddress),
        };
        if self.accounts.contains(&a) {
            return Err(ErrorCode::AccountInUse);
        }
        let ev = DeploymentCreated {
            owner,
            github_url: github_url.clone(),
            arweave_url: arweave_url.clone(),
            deployed_at: now,
        };
        let d = Deployment { owner, github_url, arweave_url, deployed_at: now, created_at: now, bump };
        self.accounts.insert(a, d);
        Ok((a, ev))
    }

    /// Replaces the given locators of the record at `addr` on behalf of the
    /// authorized `signer` and stamps it with `now`.
    pub fn update_deployment(
        &mut self,
        signer: &Identity,
        addr: &Identity,
        new_github_url: Option<String>,
        new_arweave_url: Option<String>,
        now: i64,
    ) -> (r: Result<DeploymentUpdated, ErrorCode>)
        requires
            old(self).wf(),
        ensures
            final(self).wf(),
            final(self).program() == old(self).program(),
            match update_outcome(
                old(self)@,
                signer@,
                addr@,
                text_of(new_github_url),
                text_of(new_arweave_url),
                now,
            ) {
                Ok(m) => final(self)@ == m && (r matches Ok(ev) && ev.owner@ == m[addr@].owner
                    && ev.github_url@ == m[addr@].github_url && ev.arweave_url@
                    == m[addr@].arweave_url && ev.updated_at == now),
                Err(e) => r == Err::<DeploymentUpdated, ErrorCode>(e) && final(self)@ == old(self)@,
            },
    {
        let current = match self.accounts.get(addr) {
            Some(d) => d,
            None => return Err(ErrorCode::AccountNotFound),
        };
        if !current.owner.same(signer) {
            return Err(ErrorCode::Unauthorized);
        }
        if let Some(u) = &new_github_url {
            let n = char_len(u.as_str());
            if n > MAX_URL_LEN {
                return Err(ErrorCode::UrlTooLong);
            }
            if n == 0 {
                return Err(ErrorCode::EmptyUrl);
            }
        }
        if let Some(u) = &new_arweave_url {
            let n = char_len(u.as_str());
            if n > MAX_URL_LEN {
                return Err(ErrorCode::UrlTooLong);
            }
            if n == 0 {
                return Err(ErrorCode::EmptyUrl);
            }
        }
        let mut d = current.duplicate();
        if let Some(u) = new_github_url {
            d.github_url = u;
        }
        if let Some(u) = new_arweave_url {
            d.arweave_url = u;
        }
        d.deployed_at = now;
        let ev = DeploymentUpdated {
            owner: d.owner,
            github_url: d.github_url.clone(),
            arweave_url: d.arweave_url.clone(),
            updated_at: now,
        };
        self.accounts.replace(addr, d);
        Ok(ev)
    }
}

/// A successful creation stores, at the address derived from the owner and the
/// creation time, a record holding exactly the given owner and locators.
pub proof fn lemma_create_then_read(
    m: Map<Seq<u8>, DeploymentView>,
    program: Seq<u8>,
    owner: Seq<u8>,
    github_url: Seq<char>,
    arweave_url: Seq<char>,
    now: i64,
)
    requires
        create_outcome(m, program, owner, github_url, arweave_url, now) is Ok,
    ensures
        deployment_address(program, owner, now) matches Some((a, bump)) && create_outcome(
            m,
            program,
            owner,
            github_url,
            arweave_url,
            now,
        ) matches Ok(m1) && m1.contains_key(a) && m1[a].owner == owner && m1[a].github_url
            == github_url && m1[a].arweave_url == arweave_url && m1[a].deployed_at == now
            && m1[a].created_at == now && m1[a].bump == bump,
{
}

} // verus!
