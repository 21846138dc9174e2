use vstd::prelude::*;

use crate::error::CustomError;
use crate::pubkey::Pubkey;

verus! {

/// Capacity of each signer list of the registry.
pub const MAX_SIGNERS: usize = 10;

/// The role registry: one per deployment.
#[derive(Clone, Debug)]
pub struct Config {
    pub admin: Pubkey,
    pub treasury: Pubkey,
    /// Chain identifier, fixed at creation.
    pub chain_id: [u8; 16],
    pub api_signers: Vec<Pubkey>,
    pub moderator_signers: Vec<Pubkey>,
}

/// What the caller supplies when the registry is created.
#[derive(Clone, Copy, Debug)]
pub struct InitConfigParams {
    pub chain_id: [u8; 16],
    pub treasury: Pubkey,
}

/// A signer list: unique entries, at most `MAX_SIGNERS` of them.
pub open spec fn signer_list_wf(s: Seq<Pubkey>) -> bool {
    s.len() <= MAX_SIGNERS && s.no_duplicates()
}

/// The list after `signer` was added: unchanged when it is present already.
pub open spec fn with_signer(s: Seq<Pubkey>, signer: Pubkey) -> Seq<Pubkey> {
    if s.contains(signer) {
        s
    } else {
        s.push(signer)
    }
}

/// The list with every occurrence of `signer` taken out, order kept.
pub open spec fn without_signer(s: Seq<Pubkey>, signer: Pubkey) -> Seq<Pubkey> {
    s.filter(other_than(signer))
}

/// Holds of every identity but `signer`.
pub open spec fn other_than(signer: Pubkey) -> spec_fn(Pubkey) -> bool {
    |x: Pubkey| x != signer
}

/// Outcome of adding `signer` to a list, as the registry's rules decide it.
pub open spec fn add_signer_result(s: Seq<Pubkey>, signer: Pubkey) -> Result<
    Seq<Pubkey>,
    CustomError,
> {
    if !s.contains(signer) && s.len() >= MAX_SIGNERS {
        Err(CustomError::TooManySigners)
    } else {
        Ok(with_signer(s, signer))
    }
}

impl Config {
    pub open spec fn wf(&self) -> bool {
        signer_list_wf(self.api_signers@) && signer_list_wf(self.moderator_signers@)
    }

    /// Checks the invariant of a registry read back from storage.
    pub fn is_well_formed(&self) -> (r: bool)
        ensures
            r == self.wf(),
    {
        self.api_signers.len() <= MAX_SIGNERS && self.moderator_signers.len() <= MAX_SIGNERS
            && has_unique_keys(&self.api_signers) && has_unique_keys(&self.moderator_signers)
    }

    /// The registry as the admin left it after creation.
    pub open spec fn created(&self, admin: Pubkey, params: InitConfigParams) -> bool {
        &&& self.admin == admin
        &&& self.treasury == params.treasury
        &&& self.chain_id == params.chain_id
        &&& self.api_signers@ == Seq::<Pubkey>::empty()
        &&& self.moderator_signers@ == Seq::<Pubkey>::empty()
    }
}

/// Whether no identity occurs twice in `list`.
pub fn has_unique_keys(list: &Vec<Pubkey>) -> (r: bool)
    ensures
        r == list@.no_duplicates(),
{
    let mut i: usize = 0;
    while i < list.len()
        invariant
            0 <= i <= list@.len(),
            forall|a: int, b: int| 0 <= a < i && 0 <= b < i && a != b ==> list@[a] != list@[b],
        decreases list@.len() - i,
    {
        let mut j: usize = 0;
        while j < i
            invariant
                0 <= j <= i < list@.len(),
                forall|a: int, b: int|
                    0 <= a < i && 0 <= b < i && a != b ==> list@[a] != list@[b],
                forall|b: int| 0 <= b < j ==> list@[b] != list@[i as int],
            decreases i - j,
        {
            if list[j].key_eq(&list[i]) {
                assert(list@[j as int] == list@[i as int]);
                return false;
            }
            j = j + 1;
        }
        i = i + 1;
    }
    true
}

/// Whether `key` occurs in `list`.
pub fn contains_key(list: &Vec<Pubkey>, key: &Pubkey) -> (r: bool)
    ensures
        r == list@.contains(*key),
{
    let mut i: usize = 0;
    while i < list.len()
        invariant
            0 <= i <= list@.len(),
            forall|j: int| 0 <= j < i ==> list@[j] != *key,
        decreases list@.len() - i,
    {
        if list[i].key_eq(key) {
            return true;
        }
        i = i + 1;
    }
    false
}

fn remove_key(list: &mut Vec<Pubkey>, key: &Pubkey)
    ensures
        final(list)@ == without_signer(old(list)@, *key),
{
    let mut kept: Vec<Pubkey> = Vec::new();
    let mut i: usize = 0;
    while i < list.len()
        invariant
            0 <= i <= list@.len(),
            kept@ == without_signer(list@.subrange(0, i as int), *key),
        decreases list@.len() - i,
    {
        let item = list[i];
        proof {
            let s = list@.subrange(0, i + 1);
            assert(s.drop_last() =~= list@.subrange(0, i as int));
            reveal(Seq::filter);
        }
        if !item.key_eq(key) {
            kept.push(item);
        }
        i = i + 1;
    }
    proof {
        assert(list@.subrange(0, list@.len() as int) =~= list@);
    }
    *list = kept;
}

proof fn lemma_without_signer_wf(s: Seq<Pubkey>, signer: Pubkey)
    requires
        signer_list_wf(s),
    ensures
        signer_list_wf(without_signer(s, signer)),
    decreases s.len(),
{
    broadcast use vstd::seq_lib::group_filter_ensures;

    reveal(Seq::filter);
    let pred = other_than(signer);
    if s.len() > 0 {
        let d = s.drop_last();
        assert(d.no_duplicates());
        lemma_without_signer_wf(d, signer);
        let f = d.filter(pred);
        assert(f.len() <= d.len());
        if pred(s.last()) {
            assert(!d.contains(s.last()));
            if f.contains(s.last()) {
                d.lemma_filter_contains_rev(pred, s.last());
            }
            let g = f.push(s.last());
            assert(s.filter(pred) == g);
            assert forall|i: int, j: int| 0 <= i < g.len() && 0 <= j < g.len() && i != j implies g[i] != g[j] by {
                if i == f.len() {
                    assert(g[j] == f[j]);
                    assert(f.contains(g[j]));
                } else if j == f.len() {
                    assert(g[i] == f[i]);
                    assert(f.contains(g[i]));
                } else {
                    assert(g[i] == f[i] && g[j] == f[j]);
                }
            }
        } else {
            assert(s.filter(pred) == f);
        }
    }
}

fn add_signer(list: &mut Vec<Pubkey>, signer: Pubkey) -> (r: Result<(), CustomError>)
    requires
        signer_list_wf(old(list)@),
    ensures
        signer_list_wf(final(list)@),
        match add_signer_result(old(list)@, signer) {
            Ok(s) => r == Ok::<(), CustomError>(()) && final(list)@ == s,
            Err(e) => r == Err::<(), CustomError>(e) && final(list)@ == old(list)@,
        },
{
    if contains_key(list, &signer) {
        return Ok(());
    }
    if list.len() >= MAX_SIGNERS {
        return Err(CustomError::TooManySigners);
    }
    list.push(signer);
    Ok(())
}

/// Creates the registry. It can be created once: a second attempt fails with
/// `AlreadyInitialized` and leaves the first one as it was.
pub fn initialize_config(
    registry: &mut Option<Config>,
    admin: Pubkey,
    params: InitConfigParams,
) -> (r: Result<(), CustomError>)
    ensures
        old(registry).is_some() <==> r == Err::<(), CustomError>(CustomError::AlreadyInitialized),
        old(registry).is_some() ==> *final(registry) == *old(registry),
        old(registry).is_none() ==> {
            &&& r is Ok
            &&& final(registry).is_some()
            &&& final(registry).unwrap().created(admin, params)
            &&& final(registry).unwrap().wf()
        },
{
    if registry.is_some() {
        return Err(CustomError::AlreadyInitialized);
    }
    *registry = Some(
        Config {
            admin,
            treasury: params.treasury,
            chain_id: params.chain_id,
            api_signers: Vec::new(),
            moderator_signers: Vec::new(),
        },
    );
    Ok(())
}

/// Adds a trusted API signer. Only the admin may; adding one that is present
/// changes nothing; a new one is refused once the list is full.
pub fn add_api_signer(config: &mut Config, caller: Pubkey, signer: Pubkey) -> (r: Result<
    (),
    CustomError,
>)
    requires
        old(config).wf(),
    ensures
        final(config).wf(),
        final(config).admin == old(config).admin,
        final(config).treasury == old(config).treasury,
        final(config).chain_id == old(config).chain_id,
        final(config).moderator_signers@ == old(config).moderator_signers@,
        caller != old(config).admin ==> r == Err::<(), CustomError>(CustomError::Unauthorized)
            && final(config).api_signers@ == old(config).api_signers@,
        caller == old(config).admin ==> match add_signer_result(
            old(config).api_signers@,
            signer,
        ) {
            Ok(s) => r == Ok::<(), CustomError>(()) && final(config).api_signers@ == s,
            Err(e) => r == Err::<(), CustomError>(e) && final(config).api_signers@ == old(
                config,
            ).api_signers@,
        },
{
    if !caller.key_eq(&config.admin) {
        return Err(CustomError::Unauthorized);
    }
    add_signer(&mut config.api_signers, signer)
}

/// Removes an API signer. Only the admin may; removing an absent one changes nothing.
pub fn remove_api_signer(config: &mut Config, caller: Pubkey, signer: Pubkey) -> (r: Result<
    (),
    CustomError,
>)
    requires
        old(config).wf(),
    ensures
        final(config).wf(),
        final(config).admin == old(config).admin,
        final(config).treasury == old(config).treasury,
        final(config).chain_id == old(config).chain_id,
        final(config).moderator_signers@ == old(config).moderator_signers@,
        caller != old(config).admin ==> r == Err::<(), CustomError>(CustomError::Unauthorized)
            && final(config).api_signers@ == old(config).api_signers@,
        caller == old(config).admin ==> r == Ok::<(), CustomError>(())
            && final(config).api_signers@ == without_signer(old(config).api_signers@, signer),
{
    if !caller.key_eq(&config.admin) {
        return Err(CustomError::Unauthorized);
    }
    proof {
        lemma_without_signer_wf(config.api_signers@, signer);
    }
    remove_key(&mut config.api_signers, &signer);
    Ok(())
}

/// Adds a trusted moderator. Only the admin may; adding one that is present
/// changes nothing; a new one is refused once the list is full.
pub fn add_moderator_signer(config: &mut Config, caller: Pubkey, signer: Pubkey) -> (r: Result<
    (),
    CustomError,
>)
    requires
        old(config).wf(),
    ensures
        final(config).wf(),
        final(config).admin == old(config).admin,
        final(config).treasury == old(config).treasury,
        final(config).chain_id == old(config).chain_id,
        final(config).api_signers@ == old(config).api_signers@,
        caller != old(config).admin ==> r == Err::<(), CustomError>(CustomError::Unauthorized)
            && final(config).moderator_signers@ == old(config).moderator_signers@,
        caller == old(config).admin ==> match add_signer_result(
            old(config).moderator_signers@,
            signer,
        ) {
            Ok(s) => r == Ok::<(), CustomError>(()) && final(config).moderator_signers@ == s,
            Err(e) => r == Err::<(), CustomError>(e) && final(config).moderator_signers@ == old(
                config,
            ).moderator_signers@,
        },
{
    if !caller.key_eq(&config.admin) {
        return Err(CustomError::Unauthorized);
    }
    add_signer(&mut config.moderator_signers, signer)
}

/// Removes a moderator. Only the admin may; removing an absent one changes nothing.
pub fn remove_moderator_signer(config: &mut Config, caller: Pubkey, signer: Pubkey) -> (r:
    Result<(), CustomError>)
    requires
        old(config).wf(),
    ensures
        final(config).wf(),
        final(config).admin == old(config).admin,
        final(config).treasury == old(config).treasury,
        final(config).chain_id == old(config).chain_id,
        final(config).api_signers@ == old(config).api_signers@,
        caller != old(config).admin ==> r == Err::<(), CustomError>(CustomError::Unauthorized)
            && final(config).moderator_signers@ == old(config).moderator_signers@,
        caller == old(config).admin ==> r == Ok::<(), CustomError>(())
            && final(config).moderator_signers@ == without_signer(
            old(config).moderator_signers@,
            signer,
        ),
{
    if !caller.key_eq(&config.admin) {
        return Err(CustomError::Unauthorized);
    }
    proof {
        lemma_without_signer_wf(config.moderator_signers@, signer);
    }
    remove_key(&mut config.moderator_signers, &signer);
    Ok(())
}

/// Points fee collection at a new treasury. Only the admin may.
pub fn update_treasury(config: &mut Config, caller: Pubkey, new_treasury: Pubkey) -> (r: Result<
    (),
    CustomError,
>)
    requires
        old(config).wf(),
    ensures
        final(config).wf(),
        final(config).admin == old(config).admin,
        final(config).chain_id == old(config).chain_id,
        final(config).api_signers@ == old(config).api_signers@,
        final(config).moderator_signers@ == old(config).moderator_signers@,
        caller != old(config).admin ==> r == Err::<(), CustomError>(CustomError::Unauthorized)
            && final(config).treasury == old(config).treasury,
        caller == old(config).admin ==> r == Ok::<(), CustomError>(()) && final(config).treasury
            == new_treasury,
{
    if !caller.key_eq(&config.admin) {
        return Err(CustomError::Unauthorized);
    }
    config.treasury = new_treasury;
    Ok(())
}

} // verus!
