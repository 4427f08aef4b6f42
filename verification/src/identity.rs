use vstd::prelude::*;

verus! {

/// A 32-byte ledger identity: a wallet, a token account, a token mint, a
/// program, or a derived signing authority.
#[derive(Clone, Copy, Debug)]
pub struct AccountId {
    pub bytes: [u8; 32],
}

impl PartialEq for AccountId {
    fn eq(&self, other: &AccountId) -> (r: bool) {
        let mut i: usize = 0;
        while i < 32
            invariant
                i <= 32,
                forall|j: int| 0 <= j < i ==> self.bytes@[j] == other.bytes@[j],
            decreases 32 - i,
        {
            if self.bytes[i] != other.bytes[i] {
                return false;
            }
            i = i + 1;
        }
        proof {
            assert(self.bytes@ =~= other.bytes@);
        }
        true
    }
}

impl vstd::std_specs::cmp::PartialEqSpecImpl for AccountId {
    open spec fn obeys_eq_spec() -> bool {
        true
    }

    open spec fn eq_spec(&self, other: &AccountId) -> bool {
        self.bytes@ == other.bytes@
    }
}

/// The fixed domain tag under which every campaign authority is derived:
/// the bytes of the string "PLOUTOS_ROOT".
pub open spec fn ploutos_root_tag() -> Seq<u8> {
    seq![80u8, 76u8, 79u8, 85u8, 84u8, 79u8, 83u8, 95u8, 82u8, 79u8, 79u8, 84u8]
}

/// Builds the domain tag as a byte vector.
pub fn root_tag() -> (v: Vec<u8>)
    ensures
        v@ == ploutos_root_tag(),
{
    let mut v: Vec<u8> = Vec::new();
    v.push(80);
    v.push(76);
    v.push(79);
    v.push(85);
    v.push(84);
    v.push(79);
    v.push(83);
    v.push(95);
    v.push(82);
    v.push(79);
    v.push(79);
    v.push(84);
    proof {
        assert(v@ =~= ploutos_root_tag());
    }
    v
}

/// The program-derived address and bump seed found for the seed list
/// `[tag, owner]` under `program`: a deterministic function of those bytes
/// alone, or `None` when the seeds admit no viable address.
pub uninterp spec fn derived_authority(tag: Seq<u8>, owner: Seq<u8>, program: Seq<u8>) -> Option<(Seq<u8>, u8)>;

/// Relies on `anchor_lang::prelude::Pubkey::try_find_program_address`
/// (anchor-lang re-exports solana-pubkey, implemented by solana-address):
/// the derived address and bump seed depend only on the seed bytes and the
/// program id, and the call returns `None` rather than panicking when no
/// viable address exists.
#[verifier::external_body]
fn find_authority(tag: &Vec<u8>, owner: &AccountId, program: &AccountId) -> (r: Option<(AccountId, u8)>)
    ensures
        r matches Some(p) ==> derived_authority(tag@, owner.bytes@, program.bytes@)
            == Some((p.0.bytes@, p.1)),
        r is None ==> derived_authority(tag@, owner.bytes@, program.bytes@) is None,
{
    let program_key = anchor_lang::prelude::Pubkey::new_from_array(program.bytes);
    let derived = anchor_lang::prelude::Pubkey::try_find_program_address(
        &[tag.as_slice(), owner.bytes.as_slice()],
        &program_key,
    );
    match derived {
        Some((key, bump)) => Some((AccountId { bytes: key.to_bytes() }, bump)),
        None => None,
    }
}

/// The signing authority derived for an admin identity under a program, with
/// the fixed domain tag as the leading seed.
pub open spec fn campaign_authority(admin: AccountId, program: AccountId) -> Option<(Seq<u8>, u8)> {
    derived_authority(ploutos_root_tag(), admin.bytes@, program.bytes@)
}

/// Whether `key` is exactly the authority derived for `admin` under `program`.
pub open spec fn authority_matches(admin: AccountId, program: AccountId, key: AccountId) -> bool {
    campaign_authority(admin, program) matches Some(p) && p.0 == key.bytes@
}

/// Derives the campaign signing authority for an admin identity: the address
/// every token-moving operation compares caller-supplied accounts against.
pub fn derive_campaign_authority(admin: &AccountId, program: &AccountId) -> (r: Option<(AccountId, u8)>)
    ensures
        r matches Some(p) ==> campaign_authority(*admin, *program) == Some((p.0.bytes@, p.1)),
        r is None ==> campaign_authority(*admin, *program) is None,
{
    let tag = root_tag();
    find_authority(&tag, admin, program)
}

} // verus!
