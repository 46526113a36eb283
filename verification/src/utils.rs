use vstd::prelude::*;

use crate::errors::TradestarsArenaError;
use crate::external::{
    find_program_address, keccak256, keccak_hashv, non_transferable_mint_len, program_address,
    token_2022_program_id, token_2022_program_id_bytes,
};
use crate::keys::{bytes_le, key_eq, key_le, Key};
use crate::state::{
    ArenaAccount, ArenaPosition, ArenaStatus, PlatformConfig, UserAccount,
    DISPUTE_MIN_PARTICIPANTS, DISPUTE_THRESHOLD_BPS,
};

verus! {

broadcast use vstd::array::group_array_axioms;

/// Seed of the platform configuration address: `b"config"`.
pub const CONFIG_SEED: [u8; 6] = [99, 111, 110, 102, 105, 103];

/// Seed of user account addresses: `b"user"`.
pub const USER_SEED: [u8; 4] = [117, 115, 101, 114];

/// Seed of arena addresses: `b"arena"`.
pub const ARENA_SEED: [u8; 5] = [97, 114, 101, 110, 97];

/// Seed of position addresses: `b"position"`.
pub const POSITION_SEED: [u8; 8] = [112, 111, 115, 105, 116, 105, 111, 110];

/// Seed of deposit replay markers: `b"deposit"`.
pub const DEPOSIT_SEED: [u8; 7] = [100, 101, 112, 111, 115, 105, 116];

/// Seed of the mirrored-token mint address: `b"tusdc_mint"`.
pub const TUSDC_MINT_SEED: [u8; 10] = [116, 117, 115, 100, 99, 95, 109, 105, 110, 116];

/// Decimals of the mirrored token.
pub const TUSDC_DECIMALS: u8 = 6;

/// The signer must be the platform authority.
pub fn require_authority(config: &PlatformConfig, signer: &Key) -> (r: Result<(), TradestarsArenaError>)
    ensures
        r == (if *signer == config.authority {
            Ok(())
        } else {
            Err(TradestarsArenaError::Unauthorized)
        }),
{
    if key_eq(signer, &config.authority) {
        Ok(())
    } else {
        Err(TradestarsArenaError::Unauthorized)
    }
}

/// The signer must be the arena operator.
pub fn require_arena_operator(config: &PlatformConfig, signer: &Key) -> (r: Result<
    (),
    TradestarsArenaError,
>)
    ensures
        r == (if *signer == config.arena_operator {
            Ok(())
        } else {
            Err(TradestarsArenaError::InvalidArenaOperator)
        }),
{
    if key_eq(signer, &config.arena_operator) {
        Ok(())
    } else {
        Err(TradestarsArenaError::InvalidArenaOperator)
    }
}

/// The signer must be the minting authority.
pub fn require_minting_authority(config: &PlatformConfig, signer: &Key) -> (r: Result<
    (),
    TradestarsArenaError,
>)
    ensures
        r == (if *signer == config.minting_authority {
            Ok(())
        } else {
            Err(TradestarsArenaError::InvalidMintingAuthority)
        }),
{
    if key_eq(signer, &config.minting_authority) {
        Ok(())
    } else {
        Err(TradestarsArenaError::InvalidMintingAuthority)
    }
}

/// Whether a key is the Token-2022 program id.
pub open spec fn is_token_2022(program: Key) -> bool {
    program@ == token_2022_program_id_bytes()
}

/// The token program handed to an instruction must be Token-2022.
pub fn require_token_2022(token_program: &Key) -> (r: Result<(), TradestarsArenaError>)
    ensures
        r == (if is_token_2022(*token_program) {
            Ok(())
        } else {
            Err(TradestarsArenaError::InvalidTokenProgram)
        }),
{
    let id = token_2022_program_id();
    if key_eq(token_program, &id) {
        Ok(())
    } else {
        proof {
            if is_token_2022(*token_program) {
                assert(*token_program =~= id);
            }
        }
        Err(TradestarsArenaError::InvalidTokenProgram)
    }
}

/// Size of the mirrored-token mint account, which carries the
/// non-transferable extension.
pub fn tusdc_mint_space() -> (r: Result<usize, TradestarsArenaError>)
    ensures
        r == Ok::<usize, TradestarsArenaError>(170),
{
    match non_transferable_mint_len() {
        Ok(len) => Ok(len),
        Err(_) => Err(TradestarsArenaError::InvalidMintLayout),
    }
}

/// Appends the bytes of a slice to a byte vector.
pub fn append_bytes(out: &mut Vec<u8>, bytes: &[u8])
    ensures
        final(out)@ == old(out)@ + bytes@,
{
    let ghost start = out@;
    let mut i: usize = 0;
    while i < bytes.len()
        invariant
            0 <= i <= bytes@.len(),
            out@ == start + bytes@.take(i as int),
        decreases bytes@.len() - i,
    {
        out.push(bytes[i]);
        assert(bytes@.take(i + 1) =~= bytes@.take(i as int).push(bytes@[i as int]));
        i += 1;
    }
    assert(bytes@.take(bytes@.len() as int) =~= bytes@);
}

/// Appends the 32 bytes of a key to a byte vector.
pub fn append_key(out: &mut Vec<u8>, k: &Key)
    ensures
        final(out)@ == old(out)@ + k@,
{
    let ghost start = out@;
    let mut i: usize = 0;
    while i < 32
        invariant
            0 <= i <= 32,
            k@.len() == 32,
            out@ == start + k@.take(i as int),
        decreases 32 - i,
    {
        out.push(k[i]);
        assert(k@.take(i + 1) =~= k@.take(i as int).push(k@[i as int]));
        i += 1;
    }
    assert(k@.take(32) =~= k@);
}

/// A byte vector holding the bytes of a fixed-size array.
pub fn bytes_of<const N: usize>(bytes: &[u8; N]) -> (r: Vec<u8>)
    ensures
        r@ == bytes@,
{
    let mut out: Vec<u8> = Vec::new();
    append_bytes(&mut out, bytes.as_slice());
    out
}

/// Address of a user's account: derived from `[USER_SEED, user]`.
pub open spec fn spec_user_account_address(user: Key, program_id: Key) -> Seq<u8> {
    program_address(seq![USER_SEED@, user@], program_id@)
}

/// Address of a user's position in an arena: derived from `[POSITION_SEED, arena, user]`.
pub open spec fn spec_position_address(arena: Key, user: Key, program_id: Key) -> Seq<u8> {
    program_address(seq![POSITION_SEED@, arena@, user@], program_id@)
}

/// The canonical address of a user's account.
pub fn user_account_address(user: &Key, program_id: &Key) -> (r: Key)
    ensures
        r@ == spec_user_account_address(*user, *program_id),
{
    let seed = bytes_of(&USER_SEED);
    let who = bytes_of(user);
    let mut seeds: Vec<Vec<u8>> = Vec::new();
    seeds.push(seed);
    seeds.push(who);
    assert(seeds.deep_view() =~= seq![USER_SEED@, user@]) by {
        assert(seeds@[0].deep_view() =~= USER_SEED@);
        assert(seeds@[1].deep_view() =~= user@);
    }
    find_program_address(&seeds, program_id)
}

/// The canonical address of a user's position in an arena.
pub fn position_address(arena: &Key, user: &Key, program_id: &Key) -> (r: Key)
    ensures
        r@ == spec_position_address(*arena, *user, *program_id),
{
    let seed = bytes_of(&POSITION_SEED);
    let which = bytes_of(arena);
    let who = bytes_of(user);
    let mut seeds: Vec<Vec<u8>> = Vec::new();
    seeds.push(seed);
    seeds.push(which);
    seeds.push(who);
    assert(seeds.deep_view() =~= seq![POSITION_SEED@, arena@, user@]) by {
        assert(seeds@[0].deep_view() =~= POSITION_SEED@);
        assert(seeds@[1].deep_view() =~= arena@);
        assert(seeds@[2].deep_view() =~= user@);
    }
    find_program_address(&seeds, program_id)
}

/// The parent of two nodes in the settlement tree: the digest of the smaller
/// node followed by the larger one, in byte order.
pub open spec fn merkle_parent(a: Seq<u8>, b: Seq<u8>) -> Seq<u8> {
    if bytes_le(a, b) {
        keccak256(a + b)
    } else {
        keccak256(b + a)
    }
}

/// The root reached from a leaf by folding in the proof's nodes in order.
pub open spec fn merkle_fold(leaf: Seq<u8>, proof: Seq<Key>) -> Seq<u8>
    decreases proof.len(),
{
    if proof.len() == 0 {
        leaf
    } else {
        merkle_parent(merkle_fold(leaf, proof.drop_last()), proof.last()@)
    }
}

/// Whether the proof leads from the leaf to the root.
pub fn verify_merkle_proof(leaf: Key, proof: &[Key], root: Key) -> (r: bool)
    ensures
        r == (merkle_fold(leaf@, proof@) == root@),
{
    let mut computed = leaf;
    let mut i: usize = 0;
    while i < proof.len()
        invariant
            0 <= i <= proof@.len(),
            computed@ == merkle_fold(leaf@, proof@.take(i as int)),
        decreases proof@.len() - i,
    {
        let node = proof[i];
        let mut joined: Vec<u8> = Vec::new();
        if key_le(&computed, &node) {
            append_key(&mut joined, &computed);
            append_key(&mut joined, &node);
        } else {
            append_key(&mut joined, &node);
            append_key(&mut joined, &computed);
        }
        let next = keccak_hashv(joined.as_slice());
        proof {
            let p = proof@.take(i + 1);
            assert(p.drop_last() =~= proof@.take(i as int));
            assert(p.last() == node);
        }
        computed = next;
        i += 1;
    }
    assert(proof@.take(proof@.len() as int) =~= proof@);
    proof {
        if computed@ == root@ {
            assert(computed =~= root);
        }
    }
    key_eq(&computed, &root)
}

/// The bytes a settlement leaf commits to: arena id, settlement version, user,
/// locked amount and payout, integers in little-endian order.
pub open spec fn merkle_leaf_preimage(
    arena_id: Seq<u8>,
    settlement_version: u32,
    user: Seq<u8>,
    locked_amount: u64,
    payout_amount: u64,
) -> Seq<u8> {
    arena_id + vstd::bytes::spec_u32_to_le_bytes(settlement_version) + user
        + vstd::bytes::spec_u64_to_le_bytes(locked_amount) + vstd::bytes::spec_u64_to_le_bytes(
        payout_amount,
    )
}

/// The settlement leaf of one user's outcome.
pub fn merkle_leaf(
    arena_id: &Key,
    settlement_version: u32,
    user: &Key,
    locked_amount: u64,
    payout_amount: u64,
) -> (r: Key)
    ensures
        r@ == keccak256(
            merkle_leaf_preimage(arena_id@, settlement_version, user@, locked_amount, payout_amount),
        ),
{
    let mut bytes: Vec<u8> = Vec::new();
    append_key(&mut bytes, arena_id);
    let v = vstd::bytes::u32_to_le_bytes(settlement_version);
    append_bytes(&mut bytes, v.as_slice());
    append_key(&mut bytes, user);
    let l = vstd::bytes::u64_to_le_bytes(locked_amount);
    append_bytes(&mut bytes, l.as_slice());
    let p = vstd::bytes::u64_to_le_bytes(payout_amount);
    append_bytes(&mut bytes, p.as_slice());
    keccak_hashv(bytes.as_slice())
}

/// The fee taken from one entry: `floor(entry_fee * fee_bps / 10_000)`.
pub open spec fn spec_fee_amount(entry_fee: u64, fee_bps: u16) -> int {
    (entry_fee * fee_bps) / 10_000
}

/// The fee taken from one entry, or `MathOverflow` when `entry_fee * fee_bps`
/// does not fit in 64 bits.
pub fn fee_amount(entry_fee: u64, fee_bps: u16) -> (r: Result<u64, TradestarsArenaError>)
    ensures
        entry_fee * fee_bps <= u64::MAX ==> r == Ok::<u64, TradestarsArenaError>(
            spec_fee_amount(entry_fee, fee_bps) as u64,
        ),
        entry_fee * fee_bps > u64::MAX ==> r == Err::<u64, TradestarsArenaError>(
            TradestarsArenaError::MathOverflow,
        ),
{
    match entry_fee.checked_mul(fee_bps as u64) {
        Some(product) => Ok(product / 10_000),
        None => Err(TradestarsArenaError::MathOverflow),
    }
}

/// How many disputes an arena with this many participants needs:
/// `ceil(participants * 20%)`, and at least `min(participants, 3)`.
pub open spec fn required_disputes(participant_count: u32) -> int {
    let percentage = (participant_count * DISPUTE_THRESHOLD_BPS + 9_999) / 10_000;
    let floor = if participant_count <= DISPUTE_MIN_PARTICIPANTS {
        participant_count as int
    } else {
        DISPUTE_MIN_PARTICIPANTS as int
    };
    if percentage >= floor {
        percentage
    } else {
        floor
    }
}

/// Whether enough participants disputed the settlement; never for an arena
/// without participants.
pub open spec fn spec_dispute_threshold_reached(dispute_count: u32, participant_count: u32) -> bool {
    participant_count != 0 && dispute_count >= required_disputes(participant_count)
}

/// Whether the disputes reach the threshold.
pub fn dispute_threshold_reached(dispute_count: u32, participant_count: u32) -> (r: Result<
    bool,
    TradestarsArenaError,
>)
    ensures
        r == Ok::<bool, TradestarsArenaError>(
            spec_dispute_threshold_reached(dispute_count, participant_count),
        ),
{
    if participant_count == 0 {
        return Ok(false);
    }
    let p = participant_count as u128;
    assert(p * 2_000 + 9_999 <= u32::MAX * 2_000 + 9_999) by (nonlinear_arith)
        requires
            p <= u32::MAX,
    ;
    let scaled = p * 2_000 + 9_999;
    let percentage_wide = scaled / 10_000;
    assert(percentage_wide <= p) by (nonlinear_arith)
        requires
            percentage_wide == (p * 2_000 + 9_999) / 10_000,
            p >= 1,
    ;
    let percentage_threshold = percentage_wide as u32;
    let floor = if participant_count <= DISPUTE_MIN_PARTICIPANTS {
        participant_count
    } else {
        DISPUTE_MIN_PARTICIPANTS
    };
    let required = if percentage_threshold >= floor {
        percentage_threshold
    } else {
        floor
    };
    Ok(dispute_count >= required)
}

/// Entry fees left in the pool after fees: `total_entry_fees_locked - fee_accrued`.
pub fn net_entry_pool(arena: &ArenaAccount) -> (r: Result<u64, TradestarsArenaError>)
    ensures
        arena.fee_accrued <= arena.total_entry_fees_locked ==> r == Ok::<u64, TradestarsArenaError>(
            arena.spec_net_entry_pool() as u64,
        ),
        arena.fee_accrued > arena.total_entry_fees_locked ==> r == Err::<u64, TradestarsArenaError>(
            TradestarsArenaError::MathOverflow,
        ),
{
    match arena.total_entry_fees_locked.checked_sub(arena.fee_accrued) {
        Some(v) => Ok(v),
        None => Err(TradestarsArenaError::MathOverflow),
    }
}

/// The part of the payouts that the entry pool did not cover and the creator's
/// guarantee did: `max(total_claimed_payout - net_entry_pool, 0)`.
pub open spec fn spec_guaranteed_prize_used(arena: ArenaAccount) -> int {
    if arena.total_claimed_payout >= arena.spec_net_entry_pool() {
        arena.total_claimed_payout - arena.spec_net_entry_pool()
    } else {
        0
    }
}

/// How much of the creator's guarantee the payouts used.
pub fn guaranteed_prize_used(arena: &ArenaAccount) -> (r: Result<u64, TradestarsArenaError>)
    ensures
        arena.fee_accrued <= arena.total_entry_fees_locked ==> r == Ok::<u64, TradestarsArenaError>(
            spec_guaranteed_prize_used(*arena) as u64,
        ),
        arena.fee_accrued > arena.total_entry_fees_locked ==> r == Err::<u64, TradestarsArenaError>(
            TradestarsArenaError::MathOverflow,
        ),
{
    match net_entry_pool(arena) {
        Ok(entry_pool) => Ok(arena.total_claimed_payout.saturating_sub(entry_pool)),
        Err(e) => Err(e),
    }
}

/// The part of the creator's guarantee that the payouts did not use.
pub open spec fn spec_unused_guarantee(arena: ArenaAccount) -> int {
    arena.guaranteed_prize_reserved - spec_guaranteed_prize_used(arena)
}

/// How much of the creator's guarantee is left once payouts are made:
/// `guaranteed_prize_reserved - guaranteed_prize_used`, or `MathOverflow`.
pub fn unused_guarantee(arena: &ArenaAccount) -> (r: Result<u64, TradestarsArenaError>)
    ensures
        arena.fee_accrued <= arena.total_entry_fees_locked && spec_unused_guarantee(*arena) >= 0
            ==> r == Ok::<u64, TradestarsArenaError>(spec_unused_guarantee(*arena) as u64),
        !(arena.fee_accrued <= arena.total_entry_fees_locked && spec_unused_guarantee(*arena) >= 0)
            ==> r == Err::<u64, TradestarsArenaError>(TradestarsArenaError::MathOverflow),
{
    match guaranteed_prize_used(arena) {
        Ok(used) => match arena.guaranteed_prize_reserved.checked_sub(used) {
            Some(v) => Ok(v),
            None => Err(TradestarsArenaError::MathOverflow),
        },
        Err(e) => Err(e),
    }
}

/// The most that settlement may pay out in total:
/// `max(guaranteed_prize_reserved, net_entry_pool)`.
pub fn settlement_payout_cap(arena: &ArenaAccount) -> (r: Result<u64, TradestarsArenaError>)
    ensures
        arena.fee_accrued <= arena.total_entry_fees_locked ==> r == Ok::<u64, TradestarsArenaError>(
            arena.spec_payout_cap() as u64,
        ),
        arena.fee_accrued > arena.total_entry_fees_locked ==> r == Err::<u64, TradestarsArenaError>(
            TradestarsArenaError::MathOverflow,
        ),
{
    match net_entry_pool(arena) {
        Ok(entry_pool) => if arena.guaranteed_prize_reserved >= entry_pool {
            Ok(arena.guaranteed_prize_reserved)
        } else {
            Ok(entry_pool)
        },
        Err(e) => Err(e),
    }
}

/// Why an arena cannot pay out settlements at time `now`, if it cannot.
pub open spec fn settlement_claimable_error(arena: ArenaAccount, now: i64) -> Option<TradestarsArenaError> {
    if arena.status != ArenaStatus::SettledPendingClaim {
        Some(TradestarsArenaError::ArenaNotSettled)
    } else if now < arena.claimable_at {
        Some(TradestarsArenaError::ClaimCooldownActive)
    } else {
        None
    }
}

/// Settlements are paid only from a settled arena once its dispute window closed.
pub fn ensure_settlement_claimable(arena: &ArenaAccount, now: i64) -> (r: Result<(), TradestarsArenaError>)
    ensures
        r == (match settlement_claimable_error(*arena, now) {
            Some(e) => Err(e),
            None => Ok(()),
        }),
{
    if arena.status != ArenaStatus::SettledPendingClaim {
        return Err(TradestarsArenaError::ArenaNotSettled);
    }
    if now < arena.claimable_at {
        return Err(TradestarsArenaError::ClaimCooldownActive);
    }
    Ok(())
}

/// Why one user's settlement cannot be applied, if it cannot: the checks in
/// order, each with the error it answers.
pub open spec fn settlement_error(
    arena: ArenaAccount,
    user_account: UserAccount,
    position: ArenaPosition,
    user: Key,
    locked_amount: u64,
    payout_amount: u64,
) -> Option<TradestarsArenaError> {
    if user_account.owner != user {
        Some(TradestarsArenaError::InvalidUserAccount)
    } else if position.user != user {
        Some(TradestarsArenaError::InvalidArenaPosition)
    } else if position.resolved {
        Some(TradestarsArenaError::PositionAlreadyResolved)
    } else if position.locked_amount != locked_amount {
        Some(TradestarsArenaError::LockedAmountMismatch)
    } else if arena.total_claimed_payout + payout_amount > u64::MAX
        || arena.fee_accrued > arena.total_entry_fees_locked {
        Some(TradestarsArenaError::MathOverflow)
    } else if arena.total_claimed_payout + payout_amount > arena.spec_payout_cap() {
        Some(TradestarsArenaError::ArenaPoolExceeded)
    } else if user_account.in_play_debt < locked_amount || user_account.total_balance
        < locked_amount || user_account.total_balance - locked_amount + payout_amount > u64::MAX
        || arena.resolved_count + 1 > u32::MAX {
        Some(TradestarsArenaError::MathOverflow)
    } else {
        None
    }
}

/// The arena after a user's settlement is applied.
pub open spec fn settled_arena(arena: ArenaAccount, payout_amount: u64) -> ArenaAccount {
    ArenaAccount {
        total_claimed_payout: (arena.total_claimed_payout + payout_amount) as u64,
        resolved_count: (arena.resolved_count + 1) as u32,
        ..arena
    }
}

/// The user's account after a settlement: the locked stake leaves both the
/// debt and the balance, and the payout joins the balance.
pub open spec fn settled_user(user_account: UserAccount, locked_amount: u64, payout_amount: u64) -> UserAccount {
    UserAccount {
        in_play_debt: (user_account.in_play_debt - locked_amount) as u64,
        total_balance: (user_account.total_balance - locked_amount + payout_amount) as u64,
        ..user_account
    }
}

/// A position once resolved.
pub open spec fn resolved_position(position: ArenaPosition) -> ArenaPosition {
    ArenaPosition { resolved: true, ..position }
}

/// Applies one user's settled outcome: releases the stake, credits the payout,
/// marks the position resolved and counts the payout against the arena.
/// On an error nothing changes.
pub fn apply_settlement(
    arena: &mut ArenaAccount,
    user_account: &mut UserAccount,
    position: &mut ArenaPosition,
    user: &Key,
    locked_amount: u64,
    payout_amount: u64,
) -> (r: Result<(), TradestarsArenaError>)
    ensures
        match settlement_error(
            *old(arena),
            *old(user_account),
            *old(position),
            *user,
            locked_amount,
            payout_amount,
        ) {
            Some(e) => {
                &&& r == Err::<(), TradestarsArenaError>(e)
                &&& *final(arena) == *old(arena)
                &&& *final(user_account) == *old(user_account)
                &&& *final(position) == *old(position)
            },
            None => {
                &&& r == Ok::<(), TradestarsArenaError>(())
                &&& *final(arena) == settled_arena(*old(arena), payout_amount)
                &&& *final(user_account) == settled_user(
                    *old(user_account),
                    locked_amount,
                    payout_amount,
                )
                &&& *final(position) == resolved_position(*old(position))
            },
        },
{
    if !key_eq(&user_account.owner, user) {
        return Err(TradestarsArenaError::InvalidUserAccount);
    }
    if !key_eq(&position.user, user) {
        return Err(TradestarsArenaError::InvalidArenaPosition);
    }
    if position.resolved {
        return Err(TradestarsArenaError::PositionAlreadyResolved);
    }
    if position.locked_amount != locked_amount {
        return Err(TradestarsArenaError::LockedAmountMismatch);
    }
    let next_total_claimed = match arena.total_claimed_payout.checked_add(payout_amount) {
        Some(v) => v,
        None => return Err(TradestarsArenaError::MathOverflow),
    };
    let cap = match settlement_payout_cap(arena) {
        Ok(v) => v,
        Err(e) => return Err(e),
    };
    if next_total_claimed > cap {
        return Err(TradestarsArenaError::ArenaPoolExceeded);
    }
    let in_play_debt = match user_account.in_play_debt.checked_sub(locked_amount) {
        Some(v) => v,
        None => return Err(TradestarsArenaError::MathOverflow),
    };
    let unlocked_balance = match user_account.total_balance.checked_sub(locked_amount) {
        Some(v) => v,
        None => return Err(TradestarsArenaError::MathOverflow),
    };
    let total_balance = match unlocked_balance.checked_add(payout_amount) {
        Some(v) => v,
        None => return Err(TradestarsArenaError::MathOverflow),
    };
    let resolved_count = match arena.resolved_count.checked_add(1) {
        Some(v) => v,
        None => return Err(TradestarsArenaError::MathOverflow),
    };
    user_account.in_play_debt = in_play_debt;
    user_account.total_balance = total_balance;
    position.resolved = true;
    arena.total_claimed_payout = next_total_claimed;
    arena.resolved_count = resolved_count;
    Ok(())
}

/// Why a position of a cancelled arena cannot be refunded, if it cannot.
pub open spec fn refund_error(
    arena: ArenaAccount,
    user_account: UserAccount,
    position: ArenaPosition,
    user: Key,
) -> Option<TradestarsArenaError> {
    if user_account.owner != user {
        Some(TradestarsArenaError::InvalidUserAccount)
    } else if position.user != user {
        Some(TradestarsArenaError::InvalidArenaPosition)
    } else if position.resolved {
        Some(TradestarsArenaError::PositionAlreadyResolved)
    } else if user_account.in_play_debt < position.locked_amount || arena.resolved_count + 1
        > u32::MAX {
        Some(TradestarsArenaError::MathOverflow)
    } else {
        None
    }
}

/// The arena with one more position resolved.
pub open spec fn arena_with_resolved(arena: ArenaAccount) -> ArenaAccount {
    ArenaAccount { resolved_count: (arena.resolved_count + 1) as u32, ..arena }
}

/// The user's account with a stake released from its debt.
pub open spec fn released_user(user_account: UserAccount, amount: u64) -> UserAccount {
    UserAccount { in_play_debt: (user_account.in_play_debt - amount) as u64, ..user_account }
}

/// Refunds one position of a cancelled arena: the whole locked stake leaves
/// the user's debt, the position is resolved, and the stake is returned as
/// the amount to mint back. On an error nothing changes.
pub fn apply_refund(
    arena: &mut ArenaAccount,
    user_account: &mut UserAccount,
    position: &mut ArenaPosition,
    user: &Key,
) -> (r: Result<u64, TradestarsArenaError>)
    ensures
        match refund_error(*old(arena), *old(user_account), *old(position), *user) {
            Some(e) => {
                &&& r == Err::<u64, TradestarsArenaError>(e)
                &&& *final(arena) == *old(arena)
                &&& *final(user_account) == *old(user_account)
                &&& *final(position) == *old(position)
            },
            None => {
                &&& r == Ok::<u64, TradestarsArenaError>(old(position).locked_amount)
                &&& *final(arena) == arena_with_resolved(*old(arena))
                &&& *final(user_account) == released_user(
                    *old(user_account),
                    old(position).locked_amount,
                )
                &&& *final(position) == resolved_position(*old(position))
            },
        },
{
    if !key_eq(&user_account.owner, user) {
        return Err(TradestarsArenaError::InvalidUserAccount);
    }
    if !key_eq(&position.user, user) {
        return Err(TradestarsArenaError::InvalidArenaPosition);
    }
    if position.resolved {
        return Err(TradestarsArenaError::PositionAlreadyResolved);
    }
    let locked_amount = position.locked_amount;
    let in_play_debt = match user_account.in_play_debt.checked_sub(locked_amount) {
        Some(v) => v,
        None => return Err(TradestarsArenaError::MathOverflow),
    };
    let resolved_count = match arena.resolved_count.checked_add(1) {
        Some(v) => v,
        None => return Err(TradestarsArenaError::MathOverflow),
    };
    user_account.in_play_debt = in_play_debt;
    position.resolved = true;
    arena.resolved_count = resolved_count;
    Ok(locked_amount)
}

} // verus!
