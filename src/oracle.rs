//! The oracle record and its three operations: create it once, announce a
//! winner as its authority, and read it.
use vstd::prelude::*;
use crate::address::{
    created_program_address, found_program_address, option_view, oracle_address,
    oracle_address_with_bump, oracle_seed, pair_view,
};
use crate::identity::Identity;

verus! {

/// The canonical oracle record.
#[derive(Clone, Copy, Debug)]
pub struct OracleData {
    /// The one identity allowed to announce; fixed at creation.
    pub authority: Identity,
    /// The league of the latest announcement; 0 before any.
    pub last_winner_announced: u64,
    /// How many announcements have succeeded.
    pub total_announcements: u64,
    /// The bump that, with the oracle seed and the program id, derives the
    /// record's address.
    pub bump: u8,
}

/// A read-only snapshot of the record.
#[derive(Clone, Copy, Debug)]
pub struct OracleStateData {
    pub authority: Identity,
    pub last_winner_announced: u64,
    pub total_announcements: u64,
}

/// The event that each successful announcement yields, for the audit log.
#[derive(Clone, Copy, Debug)]
pub struct WinnerAnnounced {
    pub league_id: u64,
    pub winner: Identity,
    pub final_score: u32,
    pub timestamp: i64,
}

/// Why an operation was rejected. A rejected operation changes nothing.
#[derive(Clone, Copy, Debug, PartialEq, Eq, Structural)]
pub enum OracleError {
    /// The caller is not the record's authority.
    Unauthorized,
    /// Reserved: a malformed league id.
    InvalidLeagueId,
    /// Reserved: a malformed winner identity.
    InvalidWinnerAddress,
    /// A record already exists at the canonical address.
    AlreadyInitialized,
    /// No record exists yet.
    NotInitialized,
    /// The announcement counter is at its largest value.
    CounterOverflow,
    /// The account presented is not at the record's canonical address.
    InvalidOracleAddress,
}

/// The accounts of a creation: the program, the account presented for the
/// record with what it holds, and the signer who becomes the authority.
#[derive(Clone, Copy, Debug)]
pub struct InitializeOracle {
    pub program_id: Identity,
    pub oracle_key: Identity,
    pub oracle_data: Option<OracleData>,
    pub authority: Identity,
}

/// The accounts of an announcement: the program, the record's account and
/// what it holds, and the signer.
#[derive(Clone, Copy, Debug)]
pub struct AnnounceWinner {
    pub program_id: Identity,
    pub oracle_key: Identity,
    pub oracle_data: Option<OracleData>,
    pub authority: Identity,
}

/// The accounts of a read: the program, and the record's account and what
/// it holds.
#[derive(Clone, Copy, Debug)]
pub struct GetOracleState {
    pub program_id: Identity,
    pub oracle_key: Identity,
    pub oracle_data: Option<OracleData>,
}

/// The record that a creation makes, or why it is rejected, given the
/// canonical address and bump found for the program.
pub open spec fn init_outcome(ctx: InitializeOracle, canonical: Option<(Seq<u8>, u8)>) -> Result<OracleData, OracleError> {
    if ctx.oracle_data is Some {
        Err(OracleError::AlreadyInitialized)
    } else {
        match canonical {
            Some((address, bump)) => if address == ctx.oracle_key@ {
                Ok(OracleData { authority: ctx.authority, last_winner_announced: 0, total_announcements: 0, bump })
            } else {
                Err(OracleError::InvalidOracleAddress)
            },
            None => Err(OracleError::InvalidOracleAddress),
        }
    }
}

/// What the record's account holds after a creation.
pub open spec fn after_init(ctx: InitializeOracle, canonical: Option<(Seq<u8>, u8)>) -> Option<OracleData> {
    match init_outcome(ctx, canonical) {
        Ok(d) => Some(d),
        Err(_) => ctx.oracle_data,
    }
}

/// What a creation returns.
pub open spec fn init_result(ctx: InitializeOracle, canonical: Option<(Seq<u8>, u8)>) -> Result<(), OracleError> {
    match init_outcome(ctx, canonical) {
        Ok(_) => Ok(()),
        Err(e) => Err(e),
    }
}

/// The canonical address and bump of the oracle record of `program_id`.
pub open spec fn canonical_of(program_id: Identity) -> Option<(Seq<u8>, u8)> {
    found_program_address(oracle_seed(), program_id@)
}

/// The address that the stored bump derives for the program, where a record
/// is present.
pub open spec fn rederived_of(ctx: AnnounceWinner) -> Option<Seq<u8>> {
    match ctx.oracle_data {
        Some(d) => created_program_address(oracle_seed(), d.bump, ctx.program_id@),
        None => None,
    }
}

/// The record after an announcement of `league_id`, or why it is rejected,
/// given the address that the stored bump derives.
pub open spec fn announce_outcome(ctx: AnnounceWinner, rederived: Option<Seq<u8>>, league_id: u64) -> Result<OracleData, OracleError> {
    match ctx.oracle_data {
        None => Err(OracleError::NotInitialized),
        Some(d) => if rederived != Some(ctx.oracle_key@) {
            Err(OracleError::InvalidOracleAddress)
        } else if ctx.authority@ != d.authority@ {
            Err(OracleError::Unauthorized)
        } else if d.total_announcements == u64::MAX {
            Err(OracleError::CounterOverflow)
        } else {
            Ok(OracleData {
                last_winner_announced: league_id,
                total_announcements: (d.total_announcements + 1) as u64,
                ..d
            })
        },
    }
}

/// What the record's account holds after an announcement.
pub open spec fn after_announce(ctx: AnnounceWinner, rederived: Option<Seq<u8>>, league_id: u64) -> Option<OracleData> {
    match announce_outcome(ctx, rederived, league_id) {
        Ok(d) => Some(d),
        Err(_) => ctx.oracle_data,
    }
}

/// What an announcement returns: the event it yields, or why it is rejected.
pub open spec fn announce_result(
    ctx: AnnounceWinner,
    rederived: Option<Seq<u8>>,
    league_id: u64,
    winner_address: Identity,
    final_score: u32,
    timestamp: i64,
) -> Result<WinnerAnnounced, OracleError> {
    match announce_outcome(ctx, rederived, league_id) {
        Ok(_) => Ok(WinnerAnnounced { league_id, winner: winner_address, final_score, timestamp }),
        Err(e) => Err(e),
    }
}

/// The snapshot of a record's fields.
pub open spec fn snapshot_of(d: OracleData) -> OracleStateData {
    OracleStateData {
        authority: d.authority,
        last_winner_announced: d.last_winner_announced,
        total_announcements: d.total_announcements,
    }
}

/// The address that the stored bump derives for the program, where a record
/// is present, as a read re-derives it.
pub open spec fn read_rederived_of(ctx: GetOracleState) -> Option<Seq<u8>> {
    match ctx.oracle_data {
        Some(d) => created_program_address(oracle_seed(), d.bump, ctx.program_id@),
        None => None,
    }
}

/// What a read returns given the address that the stored bump derives: the
/// snapshot, `NotInitialized`, or `InvalidOracleAddress` where the account
/// presented is not at that address.
pub open spec fn read_result(ctx: GetOracleState, rederived: Option<Seq<u8>>) -> Result<OracleStateData, OracleError> {
    match ctx.oracle_data {
        None => Err(OracleError::NotInitialized),
        Some(d) => if rederived != Some(ctx.oracle_key@) {
            Err(OracleError::InvalidOracleAddress)
        } else {
            Ok(snapshot_of(d))
        },
    }
}

/// Creates the record given the canonical address and bump found for the
/// program: fails if a record exists, or if the account presented is not at
/// that address.
pub fn initialize_oracle_at(ctx: &mut InitializeOracle, canonical: Option<(Identity, u8)>) -> (r: Result<(), OracleError>)
    ensures
        r == init_result(*old(ctx), pair_view(canonical)),
        *final(ctx) == (InitializeOracle { oracle_data: after_init(*old(ctx), pair_view(canonical)), ..*old(ctx) }),
{
    if ctx.oracle_data.is_some() {
        return Err(OracleError::AlreadyInitialized);
    }
    match canonical {
        Some((address, bump)) => {
            if !address.same_as(&ctx.oracle_key) {
                return Err(OracleError::InvalidOracleAddress);
            }
            ctx.oracle_data = Some(OracleData {
                authority: ctx.authority,
                last_winner_announced: 0,
                total_announcements: 0,
                bump,
            });
            Ok(())
        },
        None => Err(OracleError::InvalidOracleAddress),
    }
}

/// Creates the record at the program's canonical address, with the signer as
/// its authority, no announcement yet, and the bump that derives the address;
/// that bump re-derives the record's address on every later access.
pub fn initialize_oracle(ctx: &mut InitializeOracle) -> (r: Result<(), OracleError>)
    ensures
        r == init_result(*old(ctx), canonical_of(old(ctx).program_id)),
        *final(ctx) == (InitializeOracle { oracle_data: after_init(*old(ctx), canonical_of(old(ctx).program_id)), ..*old(ctx) }),
        r is Ok ==> created_program_address(oracle_seed(), final(ctx).oracle_data->Some_0.bump, old(ctx).program_id@)
            == Some(old(ctx).oracle_key@),
{
    if ctx.oracle_data.is_some() {
        return Err(OracleError::AlreadyInitialized);
    }
    let canonical = oracle_address(&ctx.program_id);
    initialize_oracle_at(ctx, canonical)
}

/// Announces a winner given the address that the stored bump derives: checks
/// the record's address, the signer and the counter, then records `league_id`
/// as the latest league, counts the announcement, and returns its event.
pub fn announce_winner_at(
    ctx: &mut AnnounceWinner,
    rederived: Option<Identity>,
    league_id: u64,
    winner_address: Identity,
    final_score: u32,
    timestamp: i64,
) -> (r: Result<WinnerAnnounced, OracleError>)
    ensures
        r == announce_result(*old(ctx), option_view(rederived), league_id, winner_address, final_score, timestamp),
        *final(ctx) == (AnnounceWinner { oracle_data: after_announce(*old(ctx), option_view(rederived), league_id), ..*old(ctx) }),
{
    let d = match ctx.oracle_data {
        Some(d) => d,
        None => return Err(OracleError::NotInitialized),
    };
    match rederived {
        Some(address) => {
            if !address.same_as(&ctx.oracle_key) {
                return Err(OracleError::InvalidOracleAddress);
            }
        },
        None => return Err(OracleError::InvalidOracleAddress),
    }
    if !ctx.authority.same_as(&d.authority) {
        return Err(OracleError::Unauthorized);
    }
    let total = match d.total_announcements.checked_add(1) {
        Some(n) => n,
        None => return Err(OracleError::CounterOverflow),
    };
    ctx.oracle_data = Some(OracleData {
        authority: d.authority,
        last_winner_announced: league_id,
        total_announcements: total,
        bump: d.bump,
    });
    Ok(WinnerAnnounced { league_id, winner: winner_address, final_score, timestamp })
}

/// Announces a winner as the record's authority, at `timestamp` by the host's
/// clock; see `announce_winner_at` for the checks and the effect.
pub fn announce_winner(
    ctx: &mut AnnounceWinner,
    league_id: u64,
    winner_address: Identity,
    final_score: u32,
    timestamp: i64,
) -> (r: Result<WinnerAnnounced, OracleError>)
    ensures
        r == announce_result(*old(ctx), rederived_of(*old(ctx)), league_id, winner_address, final_score, timestamp),
        *final(ctx) == (AnnounceWinner { oracle_data: after_announce(*old(ctx), rederived_of(*old(ctx)), league_id), ..*old(ctx) }),
{
    let rederived = match ctx.oracle_data {
        Some(d) => oracle_address_with_bump(&ctx.program_id, d.bump),
        None => None,
    };
    announce_winner_at(ctx, rederived, league_id, winner_address, final_score, timestamp)
}

/// Reads the record given the address that the stored bump derives: checks
/// the record's address, then returns its authority, latest league and
/// announcement count. It changes nothing.
pub fn get_oracle_state_at(ctx: &GetOracleState, rederived: Option<Identity>) -> (r: Result<OracleStateData, OracleError>)
    ensures
        r == read_result(*ctx, option_view(rederived)),
{
    let d = match ctx.oracle_data {
        Some(d) => d,
        None => return Err(OracleError::NotInitialized),
    };
    match rederived {
        Some(address) => {
            if !address.same_as(&ctx.oracle_key) {
                return Err(OracleError::InvalidOracleAddress);
            }
        },
        None => return Err(OracleError::InvalidOracleAddress),
    }
    Ok(OracleStateData {
        authority: d.authority,
        last_winner_announced: d.last_winner_announced,
        total_announcements: d.total_announcements,
    })
}

/// Reads the record at the program's canonical address, re-derived from the
/// stored bump; see `get_oracle_state_at`.
pub fn get_oracle_state(ctx: &GetOracleState) -> (r: Result<OracleStateData, OracleError>)
    ensures
        r == read_result(*ctx, read_rederived_of(*ctx)),
{
    let rederived = match ctx.oracle_data {
        Some(d) => oracle_address_with_bump(&ctx.program_id, d.bump),
        None => None,
    };
    get_oracle_state_at(ctx, rederived)
}

} // verus!
