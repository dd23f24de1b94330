//! The profile store: one profile per owner, linking the owner to an asset.
use crate::key::{authorize, authorized, derive_address, program_address_of, zero_key, Pubkey};
use crate::layout::USER_LEN;
use crate::slots::{
    find_slot, lemma_push, lemma_slot_in_map, lemma_update, slots_map, unique_addresses, Slot,
};
use crate::ErrorCode;
use vstd::prelude::*;

verus! {

/// A profile: the asset it displays and its owner.
#[derive(Clone, Copy, Debug, PartialEq, Eq)]
pub struct User {
    pub pfp: Pubkey,
    pub owner: Pubkey,
}

/// A profile as plain values.
pub struct UserView {
    pub pfp: Seq<u8>,
    pub owner: Seq<u8>,
}

impl View for User {
    type V = UserView;

    open spec fn view(&self) -> UserView {
        UserView { pfp: self.pfp@, owner: self.owner@ }
    }
}

impl User {
    /// The bytes allocated for every profile.
    pub const LEN: usize = USER_LEN;
}

/// What the asset-ownership collaborator shows of a token account: the asset
/// it holds and the identity that owns it.
#[derive(Clone, Copy, Debug, PartialEq, Eq)]
pub struct TokenAccount {
    pub mint: Pubkey,
    pub owner: Pubkey,
}

/// What creating a profile takes: the signing owner and the proof of the
/// asset to display.
pub struct Initialize {
    pub owner: Pubkey,
    pub token_account: TokenAccount,
}

/// What updating a profile takes: the profile's address, the signing caller
/// and the proof of the asset to display.
pub struct UpdateUser {
    pub user: Pubkey,
    pub owner: Pubkey,
    pub token_account: TokenAccount,
}

/// The first seed of every profile address: the bytes of "user".
pub open spec fn user_seed() -> Seq<u8> {
    seq![117u8, 115u8, 101u8, 114u8]
}

/// The address of the profile of `owner`.
pub open spec fn profile_address(program: Seq<u8>, owner: Seq<u8>) -> Option<Seq<u8>> {
    program_address_of(user_seed(), owner, program)
}

/// The profiles of one program, by address.
pub struct ProfileStore {
    program_id: Pubkey,
    slots: Vec<Slot<User>>,
}

impl View for ProfileStore {
    type V = Map<Seq<u8>, UserView>;

    closed spec fn view(&self) -> Map<Seq<u8>, UserView> {
        slots_map(self.slots@)
    }
}

impl ProfileStore {
    /// No two profiles share an address.
    pub closed spec fn wf(&self) -> bool {
        unique_addresses(self.slots@)
    }

    /// The id of the program that the profiles belong to.
    pub closed spec fn program_key(&self) -> Seq<u8> {
        self.program_id@
    }

    /// The id of the program that the profiles belong to.
    pub fn program_id(&self) -> (r: Pubkey)
        ensures
            r@ == self.program_key(),
    {
        self.program_id
    }

    /// An empty store for the program `program_id`.
    pub fn new(program_id: Pubkey) -> (r: ProfileStore)
        ensures
            r.wf(),
            r.program_key() == program_id@,
            r@ == Map::<Seq<u8>, UserView>::empty(),
    {
        let r = ProfileStore { program_id, slots: Vec::new() };
        assert(r@ =~= Map::<Seq<u8>, UserView>::empty());
        r
    }

    /// The profile at `address`, if there is one.
    pub fn get(&self, address: &Pubkey) -> (r: Option<User>)
        requires
            self.wf(),
        ensures
            match r {
                Some(u) => self@.contains_key(address@) && self@[address@] == u@,
                None => !self@.contains_key(address@),
            },
    {
        match find_slot(&self.slots, address) {
            Some(i) => {
                proof {
                    lemma_slot_in_map(self.slots@, i as int);
                }
                Some(self.slots[i].record)
            },
            None => None,
        }
    }
}

/// Creating the profile of `owner` at `address` (none if no address could be
/// derived), showing the asset of `proof`: its address and the profiles
/// afterwards, or the error.
pub open spec fn initialize_result(
    users: Map<Seq<u8>, UserView>,
    address: Option<Seq<u8>>,
    owner: Seq<u8>,
    proof: TokenAccount,
) -> Result<(Seq<u8>, Map<Seq<u8>, UserView>), ErrorCode> {
    match address {
        None => Err(ErrorCode::InvalidSeeds),
        Some(a) => if users.contains_key(a) {
            Err(ErrorCode::AlreadyExists)
        } else if proof.mint@ == zero_key() {
            Err(ErrorCode::AssetUnchanged)
        } else if proof.owner@ != owner {
            Err(ErrorCode::AssetNotOwned)
        } else {
            Ok((a, users.insert(a, UserView { pfp: proof.mint@, owner })))
        },
    }
}

/// Pointing the profile at `address` to the asset of `proof` on behalf of
/// `caller`: the profiles afterwards, or the error.
pub open spec fn update_user_result(
    users: Map<Seq<u8>, UserView>,
    address: Seq<u8>,
    caller: Seq<u8>,
    proof: TokenAccount,
) -> Result<Map<Seq<u8>, UserView>, ErrorCode> {
    if !users.contains_key(address) {
        Err(ErrorCode::NotFound)
    } else if authorized(caller, users[address].owner) is Err {
        Err(ErrorCode::Forbidden)
    } else {
        Ok(users.insert(address, UserView { pfp: proof.mint@, ..users[address] }))
    }
}

/// Creates a profile at `address`, the address derived for it (none if no
/// address could be derived); nothing changes on an error.
pub fn create_user(store: &mut ProfileStore, address: Option<Pubkey>, ctx: &Initialize) -> (r:
    Result<Pubkey, ErrorCode>)
    requires
        old(store).wf(),
    ensures
        final(store).wf(),
        final(store).program_key() == old(store).program_key(),
        match r {
            Ok(a) => initialize_result(
                old(store)@,
                match address { Some(k) => Some(k@), None => None },
                ctx.owner@,
                ctx.token_account,
            ) == Ok::<_, ErrorCode>((a@, final(store)@)),
            Err(e) => initialize_result(
                old(store)@,
                match address { Some(k) => Some(k@), None => None },
                ctx.owner@,
                ctx.token_account,
            ) == Err::<(Seq<u8>, Map<Seq<u8>, UserView>), _>(e) && final(store)@ == old(store)@,
        },
{
    let a = match address {
        Some(a) => a,
        None => return Err(ErrorCode::InvalidSeeds),
    };
    if find_slot(&store.slots, &a).is_some() {
        return Err(ErrorCode::AlreadyExists);
    }
    if ctx.token_account.mint.same_as(&Pubkey::zeroed()) {
        return Err(ErrorCode::AssetUnchanged);
    }
    if !ctx.token_account.owner.same_as(&ctx.owner) {
        return Err(ErrorCode::AssetNotOwned);
    }
    let slot = Slot { address: a, record: User { pfp: ctx.token_account.mint, owner: ctx.owner } };
    proof {
        lemma_push(store.slots@, slot);
    }
    store.slots.push(slot);
    Ok(a)
}

/// Creates the profile of the signing owner at the address derived from it;
/// nothing changes on an error.
pub fn initialize(store: &mut ProfileStore, ctx: &Initialize) -> (r: Result<Pubkey, ErrorCode>)
    requires
        old(store).wf(),
    ensures
        final(store).wf(),
        final(store).program_key() == old(store).program_key(),
        match r {
            Ok(a) => initialize_result(
                old(store)@,
                profile_address(old(store).program_key(), ctx.owner@),
                ctx.owner@,
                ctx.token_account,
            ) == Ok::<_, ErrorCode>((a@, final(store)@)),
            Err(e) => initialize_result(
                old(store)@,
                profile_address(old(store).program_key(), ctx.owner@),
                ctx.owner@,
                ctx.token_account,
            ) == Err::<(Seq<u8>, Map<Seq<u8>, UserView>), _>(e) && final(store)@ == old(store)@,
        },
{
    let seed: Vec<u8> = vec![117u8, 115u8, 101u8, 114u8];
    assert(seed@ == user_seed());
    let owner = ctx.owner.to_vec();
    let address = derive_address(seed.as_slice(), owner.as_slice(), &store.program_id);
    create_user(store, address, ctx)
}

/// Points a profile to another asset, after checking that the profile exists
/// and that the caller is its owner; nothing changes on an error.
pub fn update(store: &mut ProfileStore, ctx: &UpdateUser) -> (r: Result<(), ErrorCode>)
    requires
        old(store).wf(),
    ensures
        final(store).wf(),
        final(store).program_key() == old(store).program_key(),
        match r {
            Ok(()) => update_user_result(old(store)@, ctx.user@, ctx.owner@, ctx.token_account)
                == Ok::<_, ErrorCode>(final(store)@),
            Err(e) => update_user_result(old(store)@, ctx.user@, ctx.owner@, ctx.token_account)
                == Err::<Map<Seq<u8>, UserView>, _>(e) && final(store)@ == old(store)@,
        },
{
    let i = match find_slot(&store.slots, &ctx.user) {
        Some(i) => i,
        None => return Err(ErrorCode::NotFound),
    };
    proof {
        lemma_slot_in_map(store.slots@, i as int);
    }
    if let Err(e) = authorize(&ctx.owner, &store.slots[i].record.owner) {
        return Err(e);
    }
    let slot = Slot {
        address: ctx.user,
        record: User { pfp: ctx.token_account.mint, owner: store.slots[i].record.owner },
    };
    proof {
        lemma_update(store.slots@, i as int, slot);
    }
    store.slots.set(i, slot);
    assert(final(store)@ == old(store)@.insert(
        ctx.user@,
        UserView { pfp: ctx.token_account.mint@, ..old(store)@[ctx.user@] },
    ));
    Ok(())
}

} // verus!
