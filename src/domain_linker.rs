use crate::address::{find_address, program_address, seeds_view};
use crate::identity::Identity;
use crate::ledger::Ledger;
use crate::text::{
    char_len, fold_case, lower_of, name_chars_ok, text_of, valid_name_chars, MAX_DESCRIPTION_LEN,
    MAX_DOMAIN_LEN, MAX_URL_LEN,
};
use vstd::prelude::*;
use vstd::string::StrSliceExecFns;
use vstd::utf8::encode_utf8;

verus! {

/// Failures of the domain-link registry.
#[derive(Clone, Copy, Debug, PartialEq, Eq, Structural)]
pub enum ErrorCode {
    /// The domain name is longer than 100 characters.
    DomainTooLong,
    /// The locator is longer than 200 characters.
    UrlTooLong,
    /// The description is longer than 500 characters.
    DescriptionTooLong,
    /// The domain name is empty.
    EmptyDomain,
    /// The locator is empty.
    EmptyUrl,
    /// The domain name holds a character other than a letter, a digit, `.`, `-` or `_`.
    InvalidDomainFormat,
    /// The caller is not the record's owner.
    Unauthorized,
    /// A record already occupies the derived address.
    AccountInUse,
    /// No record is stored at the given address.
    AccountNotFound,
    /// No address can be derived from the record's seeds.
    NoViableAddress,
}

/// A domain-link record: a case-folded name pointing at a locator.
#[derive(Debug)]
pub struct DomainLink {
    pub owner: Identity,
    pub domain_name: String,
    pub arweave_url: String,
    pub description: String,
    pub created_at: i64,
    pub updated_at: i64,
    pub is_active: bool,
    pub bump: u8,
}

pub struct DomainLinkView {
    pub owner: Seq<u8>,
    pub domain_name: Seq<char>,
    pub arweave_url: Seq<char>,
    pub description: Seq<char>,
    pub created_at: i64,
    pub updated_at: i64,
    pub is_active: bool,
    pub bump: u8,
}

impl View for DomainLink {
    type V = DomainLinkView;

    open spec fn view(&self) -> DomainLinkView {
        DomainLinkView {
            owner: self.owner@,
            domain_name: self.domain_name@,
            arweave_url: self.arweave_url@,
            description: self.description@,
            created_at: self.created_at,
            updated_at: self.updated_at,
            is_active: self.is_active,
            bump: self.bump,
        }
    }
}

impl DomainLink {
    /// A copy of the record.
    pub fn duplicate(&self) -> (r: DomainLink)
        ensures
            r@ == self@,
    {
        DomainLink {
            owner: self.owner,
            domain_name: self.domain_name.clone(),
            arweave_url: self.arweave_url.clone(),
            description: self.description.clone(),
            created_at: self.created_at,
            updated_at: self.updated_at,
            is_active: self.is_active,
            bump: self.bump,
        }
    }
}

/// Notification of a new domain link.
#[derive(Debug)]
pub struct DomainLinked {
    pub owner: Identity,
    pub domain_name: String,
    pub arweave_url: String,
    pub linked_at: i64,
}

/// Notification of a changed domain link.
#[derive(Debug)]
pub struct DomainLinkUpdated {
    pub owner: Identity,
    pub domain_name: String,
    pub arweave_url: String,
    pub updated_at: i64,
}

/// Notification of a deactivated domain link.
#[derive(Debug)]
pub struct DomainLinkDeactivated {
    pub owner: Identity,
    pub domain_name: String,
    pub deactivated_at: i64,
}

/// Notification of a reactivated domain link.
#[derive(Debug)]
pub struct DomainLinkReactivated {
    pub owner: Identity,
    pub domain_name: String,
    pub reactivated_at: i64,
}

/// Notification of a change of owner.
#[derive(Debug)]
pub struct DomainOwnershipTransferred {
    pub old_owner: Identity,
    pub new_owner: Identity,
    pub domain_name: String,
    pub transferred_at: i64,
}

/// The seed prefix `b"domain_link"`.
pub open spec fn domain_tag() -> Seq<u8> {
    seq![100u8, 111u8, 109u8, 97u8, 105u8, 110u8, 95u8, 108u8, 105u8, 110u8, 107u8]
}

/// Seeds of the address of the link named `folded` (already lowercase).
pub open spec fn domain_seeds(folded: Seq<char>) -> Seq<Seq<u8>> {
    seq![domain_tag(), encode_utf8(folded)]
}

/// Address and bump of the link named `name`, in any letter case.
pub open spec fn domain_address(program: Seq<u8>, name: Seq<char>) -> Option<(Seq<u8>, u8)> {
    program_address(domain_seeds(lower_of(name)), program)
}

/// The validation error of a new link, checked in this order.
pub open spec fn link_error(name: Seq<char>, url: Seq<char>, description: Option<Seq<char>>) -> Option<
    ErrorCode,
> {
    if name.len() > MAX_DOMAIN_LEN {
        Some(ErrorCode::DomainTooLong)
    } else if url.len() > MAX_URL_LEN {
        Some(ErrorCode::UrlTooLong)
    } else if name.len() == 0 {
        Some(ErrorCode::EmptyDomain)
    } else if url.len() == 0 {
        Some(ErrorCode::EmptyUrl)
    } else if !name_chars_ok(name) {
        Some(ErrorCode::InvalidDomainFormat)
    } else if description matches Some(d) && d.len() > MAX_DESCRIPTION_LEN {
        Some(ErrorCode::DescriptionTooLong)
    } else {
        None
    }
}

/// The validation error of an update's optional fields.
pub open spec fn change_error(url: Option<Seq<char>>, description: Option<Seq<char>>) -> Option<
    ErrorCode,
> {
    if url matches Some(u) && u.len() > MAX_URL_LEN {
        Some(ErrorCode::UrlTooLong)
    } else if url matches Some(u) && u.len() == 0 {
        Some(ErrorCode::EmptyUrl)
    } else if description matches Some(d) && d.len() > MAX_DESCRIPTION_LEN {
        Some(ErrorCode::DescriptionTooLong)
    } else {
        None
    }
}

/// The record that `link_domain` stores.
pub open spec fn new_link(
    owner: Seq<u8>,
    name: Seq<char>,
    url: Seq<char>,
    description: Option<Seq<char>>,
    now: i64,
    bump: u8,
) -> DomainLinkView {
    DomainLinkView {
        owner,
        domain_name: lower_of(name),
        arweave_url: url,
        description: match description {
            Some(d) => d,
            None => Seq::empty(),
        },
        created_at: now,
        updated_at: now,
        is_active: true,
        bump,
    }
}

/// Links after `owner` links `name` at time `now`, or the error.
pub open spec fn link_outcome(
    m: Map<Seq<u8>, DomainLinkView>,
    program: Seq<u8>,
    owner: Seq<u8>,
    name: Seq<char>,
    url: Seq<char>,
    description: Option<Seq<char>>,
    now: i64,
) -> Result<Map<Seq<u8>, DomainLinkView>, ErrorCode> {
    match link_error(name, url, description) {
        Some(e) => Err(e),
        None => match domain_address(program, name) {
            None => Err(ErrorCode::NoViableAddress),
            Some((a, bump)) => if m.contains_key(a) {
                Err(ErrorCode::AccountInUse)
            } else {
                Ok(m.insert(a, new_link(owner, name, url, description, now, bump)))
            },
        },
    }
}

/// The error of a mutation of the link at `addr` by `signer`, before its fields are checked.
pub open spec fn access_error(m: Map<Seq<u8>, DomainLinkView>, signer: Seq<u8>, addr: Seq<u8>) -> Option<
    ErrorCode,
> {
    if !m.contains_key(addr) {
        Some(ErrorCode::AccountNotFound)
    } else if m[addr].owner != signer {
        Some(ErrorCode::Unauthorized)
    } else {
        None
    }
}

/// Links after `signer` changes the given fields of the link at `addr` at time `now`, or the error.
pub open spec fn update_outcome(
    m: Map<Seq<u8>, DomainLinkView>,
    signer: Seq<u8>,
    addr: Seq<u8>,
    url: Option<Seq<char>>,
    description: Option<Seq<char>>,
    now: i64,
) -> Result<Map<Seq<u8>, DomainLinkView>, ErrorCode> {
    if access_error(m, signer, addr) is Some {
        Err(access_error(m, signer, addr).unwrap())
    } else if change_error(url, description) is Some {
        Err(change_error(url, description).unwrap())
    } else {
        let d = m[addr];
        Ok(
            m.insert(
                addr,
                DomainLinkView {
                    arweave_url: match url {
                        Some(u) => u,
                        None => d.arweave_url,
                    },
                    description: match description {
                        Some(s) => s,
                        None => d.description,
                    },
                    updated_at: now,
                    ..d
                },
            ),
        )
    }
}

/// Links after `signer` sets the active flag of the link at `addr` to `active` at time `now`, or the error.
pub open spec fn activation_outcome(
    m: Map<Seq<u8>, DomainLinkView>,
    signer: Seq<u8>,
    addr: Seq<u8>,
    active: bool,
    now: i64,
) -> Result<Map<Seq<u8>, DomainLinkView>, ErrorCode> {
    if access_error(m, signer, addr) is Some {
        Err(access_error(m, signer, addr).unwrap())
    } else {
        Ok(m.insert(addr, DomainLinkView { is_active: active, updated_at: now, ..m[addr] }))
    }
}

/// Links after `signer` hands the link at `addr` to `new_owner` at time `now`, or the error.
pub open spec fn transfer_outcome(
    m: Map<Seq<u8>, DomainLinkView>,
    signer: Seq<u8>,
    addr: Seq<u8>,
    new_owner: Seq<u8>,
    now: i64,
) -> Result<Map<Seq<u8>, DomainLinkView>, ErrorCode> {
    if access_error(m, signer, addr) is Some {
        Err(access_error(m, signer, addr).unwrap())
    } else {
        Ok(m.insert(addr, DomainLinkView { owner: new_owner, updated_at: now, ..m[addr] }))
    }
}

/// Builds the seeds of `domain_seeds(folded@)`.
fn seeds_for(folded: &String) -> (r: Vec<Vec<u8>>)
    ensures
        seeds_view(r@) == domain_seeds(folded@),
{
    let tag: Vec<u8> = vec![100u8, 111u8, 109u8, 97u8, 105u8, 110u8, 95u8, 108u8, 105u8, 110u8, 107u8];
    let name = folded.as_str().as_bytes_vec();
    let mut r: Vec<Vec<u8>> = Vec::new();
    r.push(tag);
    r.push(name);
    assert(tag@ =~= domain_tag());
    assert(r@[0]@ == domain_tag() && r@[1]@ == encode_utf8(folded@));
    assert(seeds_view(r@) =~= domain_seeds(folded@));
    r
}

/// Domain links of one program, keyed by the address derived from their name.
#[derive(Debug)]
pub struct DomainRegistry {
    program_id: Identity,
    links: Ledger<DomainLink>,
}

impl View for DomainRegistry {
    type V = Map<Seq<u8>, DomainLinkView>;

    closed spec fn view(&self) -> Map<Seq<u8>, DomainLinkView> {
        self.links@
    }
}

impl DomainRegistry {
    /// The id of the program that owns the links.
    pub closed spec fn program(&self) -> Seq<u8> {
        self.program_id@
    }

    /// Every link sits at the address derived from its stored name.
    pub closed spec fn wf(&self) -> bool {
        &&& self.links.wf()
        &&& forall|a: Seq<u8>| #[trigger]
            self@.contains_key(a) ==> program_address(
                domain_seeds(self@[a].domain_name),
                self.program(),
            ) == Some((a, self@[a].bump))
    }

    pub fn new(program_id: Identity) -> (r: DomainRegistry)
        ensures
            r.wf(),
            r.program() == program_id@,
            r@ == Map::<Seq<u8>, DomainLinkView>::empty(),
    {
        DomainRegistry { program_id, links: Ledger::new() }
    }

    pub fn program_id(&self) -> (r: Identity)
        ensures
            r@ == self.program(),
    {
        self.program_id
    }

    /// The link stored at `addr`, if any.
    pub fn get(&self, addr: &Identity) -> (r: Option<&DomainLink>)
        requires
            self.wf(),
        ensures
            r is Some <==> self@.contains_key(addr@),
            r matches Some(d) ==> d@ == self@[addr@],
    {
        self.links.get(addr)
    }

    /// The address of the link named `name`, in any letter case.
    pub fn address_of(&self, name: &str) -> (r: Option<Identity>)
        ensures
            match domain_address(self.program(), name@) {
                Some((a, _)) => r matches Some(x) && x@ == a,
                None => r is None,
            },
    {
        let folded = fold_case(name);
        let seeds = seeds_for(&folded);
        match find_address(&seeds, &self.program_id) {
            Some((a, _)) => Some(a),
            None => None,
        }
    }

    /// Links `domain_name` (stored lowercase) to `arweave_url` for the authorized
    /// `owner` at time `now`, returning the link's address and the notification.
    pub fn link_domain(
        &mut self,
        owner: Identity,
        domain_name: String,
        arweave_url: String,
        description: Option<String>,
        now: i64,
    ) -> (r: Result<(Identity, DomainLinked), ErrorCode>)
        requires
            old(self).wf(),
        ensures
            final(self).wf(),
            final(self).program() == old(self).program(),
            match link_outcome(
                old(self)@,
                old(self).program(),
                owner@,
                domain_name@,
                arweave_url@,
                text_of(description),
                now,
            ) {
                Ok(m) => final(self)@ == m && (r matches Ok((a, ev)) && Some(
                    (a@, final(self)@[a@].bump),
                ) == domain_address(old(self).program(), domain_name@) && ev.owner == owner
                    && ev.domain_name@ == lower_of(domain_name@) && ev.arweave_url@ == arweave_url@
                    && ev.linked_at == now),
                Err(e) => r == Err::<(Identity, DomainLinked), ErrorCode>(e) && final(self)@
                    == old(self)@,
            },
    {
        let name_len = char_len(domain_name.as_str());
        let url_len = char_len(arweave_url.as_str());
        if name_len > MAX_DOMAIN_LEN {
            return Err(ErrorCode::DomainTooLong);
        }
        if url_len > MAX_URL_LEN {
            return Err(ErrorCode::UrlTooLong);
        }
        if name_len == 0 {
            return Err(ErrorCode::EmptyDomain);
        }
        if url_len == 0 {
            return Err(ErrorCode::EmptyUrl);
        }
        if !valid_name_chars(domain_name.as_str()) {
            return Err(ErrorCode::InvalidDomainFormat);
        }
        if let Some(d) = &description {
            if char_len(d.as_str()) > MAX_DESCRIPTION_LEN {
                return Err(ErrorCode::DescriptionTooLong);
            }
        }
        let folded = fold_case(domain_name.as_str());
        let seeds = seeds_for(&folded);
        let (a, bump) = match find_address(&seeds, &self.program_id) {
            Some(found) => found,
            None => return Err(ErrorCode::NoViableAddress),
        };
        if self.links.contains(&a) {
            return Err(ErrorCode::AccountInUse);
        }
        let text = match description {
            Some(d) => d,
            None => String::new(),
        };
        let ev = DomainLinked {
            owner,
            domain_name: folded.clone(),
            arweave_url: arweave_url.clone(),
            linked_at: now,
        };
        let link = DomainLink {
            owner,
            domain_name: folded,
            arweave_url,
            description: text,
            created_at: now,
            updated_at: now,
            is_active: true,
            bump,
        };
        self.links.insert(a, link);
        Ok((a, ev))
    }

    /// A copy of the link at `addr`, if `signer` may change it.
    fn authorized_copy(&self, signer: &Identity, addr: &Identity) -> (r: Result<DomainLink, ErrorCode>)
        requires
            self.wf(),
        ensures
            match access_error(self@, signer@, addr@) {
                Some(e) => r == Err::<DomainLink, ErrorCode>(e),
                None => r matches Ok(d) && d@ == self@[addr@],
            },
    {
        let current = match self.links.get(addr) {
            Some(d) => d,
            None => return Err(ErrorCode::AccountNotFound),
        };
        if !current.owner.same(signer) {
            return Err(ErrorCode::Unauthorized);
        }
        Ok(current.duplicate())
    }

    /// Stores `d` in place of the link at `addr`, which keeps its name and bump.
    fn store(&mut self, addr: &Identity, d: DomainLink)
        requires
            old(self).wf(),
            old(self)@.contains_key(addr@),
            d@.domain_name == old(self)@[addr@].domain_name,
            d@.bump == old(self)@[addr@].bump,
        ensures
            final(self).wf(),
            final(self).program() == old(self).program(),
            final(self)@ == old(self)@.insert(addr@, d@),
    {
        self.links.replace(addr, d);
        assert forall|a: Seq<u8>| #[trigger] self@.contains_key(a) implies program_address(
            domain_seeds(self@[a].domain_name),
            self.program(),
        ) == Some((a, self@[a].bump)) by {
            assert(old(self)@.contains_key(a));
        }
    }

    /// Replaces the given fields of the link at `addr` on behalf of the
    /// authorized `signer` and stamps it with `now`; the active flag is kept.
    pub fn update_domain_link(
        &mut self,
        signer: &Identity,
        addr: &Identity,
        new_arweave_url: Option<String>,
        new_description: Option<String>,
        now: i64,
    ) -> (r: Result<DomainLinkUpdated, ErrorCode>)
        requires
            old(self).wf(),
        ensures
            final(self).wf(),
            final(self).program() == old(self).program(),
            match update_outcome(
                old(self)@,
                signer@,
                addr@,
                text_of(new_arweave_url),
                text_of(new_description),
                now,
            ) {
                Ok(m) => final(self)@ == m && (r matches Ok(ev) && ev.owner@ == m[addr@].owner
                    && ev.domain_name@ == m[addr@].domain_name && ev.arweave_url@
                    == m[addr@].arweave_url && ev.updated_at == now),
                Err(e) => r == Err::<DomainLinkUpdated, ErrorCode>(e) && final(self)@ == old(self)@,
            },
    {
        let mut d = self.authorized_copy(signer, addr)?;
        if let Some(u) = &new_arweave_url {
            let n = char_len(u.as_str());
            if n > MAX_URL_LEN {
                return Err(ErrorCode::UrlTooLong);
            }
            if n == 0 {
                return Err(ErrorCode::EmptyUrl);
            }
        }
        if let Some(t) = &new_description {
            if char_len(t.as_str()) > MAX_DESCRIPTION_LEN {
                return Err(ErrorCode::DescriptionTooLong);
            }
        }
        if let Some(u) = new_arweave_url {
            d.arweave_url = u;
        }
        if let Some(t) = new_description {
            d.description = t;
        }
        d.updated_at = now;
        let ev = DomainLinkUpdated {
            owner: d.owner,
            domain_name: d.domain_name.clone(),
            arweave_url: d.arweave_url.clone(),
            updated_at: now,
        };
        self.store(addr, d);
        Ok(ev)
    }

    /// Marks the link at `addr` inactive on behalf of the authorized `signer`
    /// and stamps it with `now`; an inactive link stays inactive.
    pub fn deactivate_domain_link(&mut self, signer: &Identity, addr: &Identity, now: i64) -> (r:
        Result<DomainLinkDeactivated, ErrorCode>)
        requires
            old(self).wf(),
        ensures
            final(self).wf(),
            final(self).program() == old(self).program(),
            match activation_outcome(old(self)@, signer@, addr@, false, now) {
                Ok(m) => final(self)@ == m && (r matches Ok(ev) && ev.owner@ == m[addr@].owner
                    && ev.domain_name@ == m[addr@].domain_name && ev.deactivated_at == now),
                Err(e) => r == Err::<DomainLinkDeactivated, ErrorCode>(e) && final(self)@
                    == old(self)@,
            },
    {
        let mut d = self.authorized_copy(signer, addr)?;
        d.is_active = false;
        d.updated_at = now;
        let ev = DomainLinkDeactivated {
            owner: d.owner,
            domain_name: d.domain_name.clone(),
            deactivated_at: now,
        };
        self.store(addr, d);
        Ok(ev)
    }

    /// Marks the link at `addr` active on behalf of the authorized `signer`
    /// and stamps it with `now`; an active link stays active.
    pub fn reactivate_domain_link(&mut self, signer: &Identity, addr: &Identity, now: i64) -> (r:
        Result<DomainLinkReactivated, ErrorCode>)
        requires
            old(self).wf(),
        ensures
            final(self).wf(),
            final(self).program() == old(self).program(),
            match activation_outcome(old(self)@, signer@, addr@, true, now) {
                Ok(m) => final(self)@ == m && (r matches Ok(ev) && ev.owner@ == m[addr@].owner
                    && ev.domain_name@ == m[addr@].domain_name && ev.reactivated_at == now),
                Err(e) => r == Err::<DomainLinkReactivated, ErrorCode>(e) && final(self)@
                    == old(self)@,
            },
    {
        let mut d = self.authorized_copy(signer, addr)?;
        d.is_active = true;
        d.updated_at = now;
        let ev = DomainLinkReactivated {
            owner: d.owner,
            domain_name: d.domain_name.clone(),
            reactivated_at: now,
        };
        self.store(addr, d);
        Ok(ev)
    }

    /// Hands the link at `addr` to `new_owner` on behalf of its authorized
    /// current owner `signer`, stamping it with `now`.
    pub fn transfer_domain_ownership(
        &mut self,
        signer: &Identity,
        addr: &Identity,
        new_owner: Identity,
        now: i64,
    ) -> (r: Result<DomainOwnershipTransferred, ErrorCode>)
        requires
            old(self).wf(),
        ensures
            final(self).wf(),
            final(self).program() == old(self).program(),
            match transfer_outcome(old(self)@, signer@, addr@, new_owner@, now) {
                Ok(m) => final(self)@ == m && (r matches Ok(ev) && ev.old_owner@ == old(self)@[addr@].owner
                    && ev.new_owner == new_owner && ev.domain_name@ == m[addr@].domain_name
                    && ev.transferred_at == now),
                Err(e) => r == Err::<DomainOwnershipTransferred, ErrorCode>(e) && final(self)@
                    == old(self)@,
            },
    {
        let mut d = self.authorized_copy(signer, addr)?;
        let old_owner = d.owner;
        d.owner = new_owner;
        d.updated_at = now;
        let ev = DomainOwnershipTransferred {
            old_owner,
            new_owner,
            domain_name: d.domain_name.clone(),
            transferred_at: now,
        };
        self.store(addr, d);
        Ok(ev)
    }
}

/// Names that fold to the same lowercase form share one address: once the first
/// is linked, linking the second fails because the address is occupied.
pub proof fn lemma_case_variants_collide(
    m: Map<Seq<u8>, DomainLinkView>,
    program: Seq<u8>,
    first_owner: Seq<u8>,
    second_owner: Seq<u8>,
    first: Seq<char>,
    second: Seq<char>,
    first_url: Seq<char>,
    second_url: Seq<char>,
    first_description: Option<Seq<char>>,
    second_description: Option<Seq<char>>,
    first_time: i64,
    second_time: i64,
)
    requires
        lower_of(first) == lower_of(second),
        link_outcome(m, program, first_owner, first, first_url, first_description, first_time) is Ok,
        link_error(second, second_url, second_description) is None,
    ensures
        domain_address(program, first) == domain_address(program, second),
        link_outcome(
            link_outcome(m, program, first_owner, first, first_url, first_description, first_time)->Ok_0,
            program,
            second_owner,
            second,
            second_url,
            second_description,
            second_time,
        ) == Err::<Map<Seq<u8>, DomainLinkView>, ErrorCode>(ErrorCode::AccountInUse),
{
}

/// Deactivating twice in a row succeeds both times; the link is inactive and
/// carries the time of each call after it.
pub proof fn lemma_deactivate_twice(
    m: Map<Seq<u8>, DomainLinkView>,
    signer: Seq<u8>,
    addr: Seq<u8>,
    first_time: i64,
    second_time: i64,
)
    requires
        access_error(m, signer, addr) is None,
    ensures
        activation_outcome(m, signer, addr, false, first_time) is Ok,
        ({
            let m1 = activation_outcome(m, signer, addr, false, first_time)->Ok_0;
            &&& !m1[addr].is_active
            &&& m1[addr].updated_at == first_time
            &&& activation_outcome(m1, signer, addr, false, second_time) is Ok
            &&& !activation_outcome(m1, signer, addr, false, second_time)->Ok_0[addr].is_active
            &&& activation_outcome(m1, signer, addr, false, second_time)->Ok_0[addr].updated_at
                == second_time
            &&& activation_outcome(m1, signer, addr, false, second_time)->Ok_0.dom() == m.dom()
        }),
{
    let m1 = activation_outcome(m, signer, addr, false, first_time)->Ok_0;
    assert(m1.dom() =~= m.dom());
    let m2 = activation_outcome(m1, signer, addr, false, second_time)->Ok_0;
    assert(m2.dom() =~= m.dom());
}

/// After a transfer from `previous` to `next`, every mutation authorized by
/// `previous` alone fails with `Unauthorized`, and those authorized by `next`
/// succeed (an update when its fields are valid).
pub proof fn lemma_transfer_moves_authority(
    m: Map<Seq<u8>, DomainLinkView>,
    previous: Seq<u8>,
    next: Seq<u8>,
    addr: Seq<u8>,
    now: i64,
    later: i64,
    url: Option<Seq<char>>,
    description: Option<Seq<char>>,
    active: bool,
    third: Seq<u8>,
)
    requires
        transfer_outcome(m, previous, addr, next, now) is Ok,
        previous != next,
    ensures
        ({
            let t = transfer_outcome(m, previous, addr, next, now)->Ok_0;
            let denied = Err::<Map<Seq<u8>, DomainLinkView>, ErrorCode>(ErrorCode::Unauthorized);
            &&& update_outcome(t, previous, addr, url, description, later) == denied
            &&& activation_outcome(t, previous, addr, active, later) == denied
            &&& transfer_outcome(t, previous, addr, third, later) == denied
            &&& (change_error(url, description) is None ==> update_outcome(
                t,
                next,
                addr,
                url,
                description,
                later,
            ) is Ok)
            &&& activation_outcome(t, next, addr, active, later) is Ok
            &&& transfer_outcome(t, next, addr, third, later) is Ok
        }),
{
}

/// An update that supplies only a description changes the description and the
/// update time, and nothing else.
pub proof fn lemma_description_only_update(
    m: Map<Seq<u8>, DomainLinkView>,
    signer: Seq<u8>,
    addr: Seq<u8>,
    description: Seq<char>,
    now: i64,
)
    requires
        access_error(m, signer, addr) is None,
        description.len() <= MAX_DESCRIPTION_LEN,
    ensures
        update_outcome(m, signer, addr, None, Some(description), now) == Ok::<
            Map<Seq<u8>, DomainLinkView>,
            ErrorCode,
        >(m.insert(addr, DomainLinkView { description, updated_at: now, ..m[addr] })),
        update_outcome(m, signer, addr, None, Some(description), now) matches Ok(m1) && m1[addr].arweave_url
            == m[addr].arweave_url && m1[addr].owner == m[addr].owner && m1[addr].is_active
            == m[addr].is_active,
{
}

} // verus!
