//! Laws of the oracle record, over the outcomes that the operations' contracts
//! name.
use vstd::prelude::*;
use crate::identity::Identity;
use crate::oracle::{
    after_announce, after_init, announce_outcome, announce_result, init_outcome, init_result,
    read_rederived_of, read_result, rederived_of, snapshot_of, AnnounceWinner, GetOracleState,
    InitializeOracle, OracleData, OracleError, OracleStateData, WinnerAnnounced,
};

verus! {

/// Once a record exists, every creation fails with `AlreadyInitialized`,
/// whoever signs it and whatever address is found, and changes nothing.
pub proof fn lemma_single_creation(ctx: InitializeOracle, canonical: Option<(Seq<u8>, u8)>)
    requires
        ctx.oracle_data is Some,
    ensures
        init_result(ctx, canonical) == Err::<(), OracleError>(OracleError::AlreadyInitialized),
        after_init(ctx, canonical) == ctx.oracle_data,
{
}

/// An announcement, accepted or not, never removes the record, and never
/// changes its authority or its bump.
pub proof fn lemma_record_persists(ctx: AnnounceWinner, rederived: Option<Seq<u8>>, league_id: u64)
    requires
        ctx.oracle_data is Some,
    ensures
        after_announce(ctx, rederived, league_id) is Some,
        after_announce(ctx, rederived, league_id)->Some_0.authority == ctx.oracle_data->Some_0.authority,
        after_announce(ctx, rederived, league_id)->Some_0.bump == ctx.oracle_data->Some_0.bump,
{
}

/// One step of the record's life: a creation or an announcement, with the
/// canonical address (or the re-derived one) that the step is given.
pub enum OracleStep {
    Initialize { ctx: InitializeOracle, canonical: Option<(Seq<u8>, u8)> },
    Announce { ctx: AnnounceWinner, rederived: Option<Seq<u8>>, league_id: u64 },
}

/// What the record's account holds after `step`, run on the account holding
/// `data`.
pub open spec fn step_record(data: Option<OracleData>, step: OracleStep) -> Option<OracleData> {
    match step {
        OracleStep::Initialize { ctx, canonical } => after_init(
            InitializeOracle { oracle_data: data, ..ctx },
            canonical,
        ),
        OracleStep::Announce { ctx, rederived, league_id } => after_announce(
            AnnounceWinner { oracle_data: data, ..ctx },
            rederived,
            league_id,
        ),
    }
}

/// What the record's account holds after `steps`, in order.
pub open spec fn run_steps(data: Option<OracleData>, steps: Seq<OracleStep>) -> Option<OracleData>
    decreases steps.len(),
{
    if steps.len() == 0 {
        data
    } else {
        run_steps(step_record(data, steps[0]), steps.drop_first())
    }
}

/// After a record exists, whatever sequence of operations follows, a further
/// creation fails with `AlreadyInitialized`; the authority stays the same.
pub proof fn lemma_created_once(
    data: Option<OracleData>,
    steps: Seq<OracleStep>,
    ctx: InitializeOracle,
    canonical: Option<(Seq<u8>, u8)>,
)
    requires
        data is Some,
        ctx.oracle_data == run_steps(data, steps),
    ensures
        run_steps(data, steps) is Some,
        run_steps(data, steps)->Some_0.authority == data->Some_0.authority,
        init_result(ctx, canonical) == Err::<(), OracleError>(OracleError::AlreadyInitialized),
    decreases steps.len(),
{
    if steps.len() > 0 {
        let next = step_record(data, steps[0]);
        lemma_created_once(next, steps.drop_first(), InitializeOracle { oracle_data: run_steps(next, steps.drop_first()), ..ctx }, canonical);
    }
}

/// A signer other than the stored authority is always rejected and changes
/// nothing; at the canonical address the rejection is `Unauthorized`.
pub proof fn lemma_unauthorized_rejected(
    ctx: AnnounceWinner,
    rederived: Option<Seq<u8>>,
    league_id: u64,
    winner_address: Identity,
    final_score: u32,
    timestamp: i64,
)
    requires
        ctx.oracle_data is Some,
        ctx.authority@ != ctx.oracle_data->Some_0.authority@,
    ensures
        announce_result(ctx, rederived, league_id, winner_address, final_score, timestamp) is Err,
        after_announce(ctx, rederived, league_id) == ctx.oracle_data,
        rederived == Some(ctx.oracle_key@) ==> announce_result(
            ctx,
            rederived,
            league_id,
            winner_address,
            final_score,
            timestamp,
        ) == Err::<WinnerAnnounced, OracleError>(OracleError::Unauthorized),
{
}

/// Every accepted announcement adds exactly one to the count.
pub proof fn lemma_counter_increments(ctx: AnnounceWinner, rederived: Option<Seq<u8>>, league_id: u64)
    requires
        announce_outcome(ctx, rederived, league_id) is Ok,
    ensures
        ctx.oracle_data is Some,
        after_announce(ctx, rederived, league_id) is Some,
        after_announce(ctx, rederived, league_id)->Some_0.total_announcements
            == ctx.oracle_data->Some_0.total_announcements + 1,
{
}

/// With the count at its largest value an announcement is rejected and changes
/// nothing; from the authority at the canonical address the rejection is
/// `CounterOverflow`.
pub proof fn lemma_counter_overflow(
    ctx: AnnounceWinner,
    rederived: Option<Seq<u8>>,
    league_id: u64,
    winner_address: Identity,
    final_score: u32,
    timestamp: i64,
)
    requires
        ctx.oracle_data is Some,
        ctx.oracle_data->Some_0.total_announcements == u64::MAX,
    ensures
        announce_result(ctx, rederived, league_id, winner_address, final_score, timestamp) is Err,
        after_announce(ctx, rederived, league_id) == ctx.oracle_data,
        rederived == Some(ctx.oracle_key@) && ctx.authority@ == ctx.oracle_data->Some_0.authority@
            ==> announce_result(ctx, rederived, league_id, winner_address, final_score, timestamp)
            == Err::<WinnerAnnounced, OracleError>(OracleError::CounterOverflow),
{
}

/// After an accepted announcement of `first`, the same signer's announcement
/// of `second` is accepted too (unless it would overflow the count), and the
/// record then holds `second` as the latest league.
pub proof fn lemma_last_write_wins(ctx: AnnounceWinner, first: u64, second: u64)
    requires
        announce_outcome(ctx, rederived_of(ctx), first) is Ok,
        ctx.oracle_data->Some_0.total_announcements < u64::MAX - 1,
    ensures
        ({
            let next = AnnounceWinner { oracle_data: after_announce(ctx, rederived_of(ctx), first), ..ctx };
            &&& announce_outcome(next, rederived_of(next), second) is Ok
            &&& after_announce(next, rederived_of(next), second)->Some_0.last_winner_announced == second
        }),
{
}

/// Reading an existing record at its address never fails, and returns what
/// the record holds.
pub proof fn lemma_read_isolation(ctx: GetOracleState, rederived: Option<Seq<u8>>)
    requires
        ctx.oracle_data is Some,
        rederived == Some(ctx.oracle_key@),
    ensures
        read_result(ctx, rederived) == Ok::<OracleStateData, OracleError>(snapshot_of(ctx.oracle_data->Some_0)),
{
}

/// After any announcement attempt on the record at its address, accepted or
/// not, a read of that account still succeeds: it sees the new record if the
/// announcement was accepted and the old one otherwise.
pub proof fn lemma_read_after_announce(ctx: AnnounceWinner, league_id: u64)
    requires
        ctx.oracle_data is Some,
        rederived_of(ctx) == Some(ctx.oracle_key@),
    ensures
        ({
            let after = after_announce(ctx, rederived_of(ctx), league_id);
            let read = GetOracleState { program_id: ctx.program_id, oracle_key: ctx.oracle_key, oracle_data: after };
            &&& after is Some
            &&& read_result(read, read_rederived_of(read)) == Ok::<OracleStateData, OracleError>(snapshot_of(after->Some_0))
        }),
{
}

/// Whether `step`, run on the account holding `data`, is accepted.
pub open spec fn step_accepted(data: Option<OracleData>, step: OracleStep) -> bool {
    match step {
        OracleStep::Initialize { ctx, canonical } => init_outcome(
            InitializeOracle { oracle_data: data, ..ctx },
            canonical,
        ) is Ok,
        OracleStep::Announce { ctx, rederived, league_id } => announce_outcome(
            AnnounceWinner { oracle_data: data, ..ctx },
            rederived,
            league_id,
        ) is Ok,
    }
}

/// How many of `steps`, run in order from `data`, are accepted.
pub open spec fn accepted_count(data: Option<OracleData>, steps: Seq<OracleStep>) -> nat
    decreases steps.len(),
{
    if steps.len() == 0 {
        0
    } else {
        (if step_accepted(data, steps[0]) { 1nat } else { 0nat })
            + accepted_count(step_record(data, steps[0]), steps.drop_first())
    }
}

/// Over any sequence of operations on an existing record, the count grows by
/// exactly the number of accepted operations (all of them announcements), and
/// never decreases.
pub proof fn lemma_count_tracks_successes(data: Option<OracleData>, steps: Seq<OracleStep>)
    requires
        data is Some,
    ensures
        run_steps(data, steps) is Some,
        run_steps(data, steps)->Some_0.total_announcements
            == data->Some_0.total_announcements + accepted_count(data, steps),
        run_steps(data, steps)->Some_0.total_announcements >= data->Some_0.total_announcements,
    decreases steps.len(),
{
    if steps.len() > 0 {
        lemma_count_tracks_successes(step_record(data, steps[0]), steps.drop_first());
    }
}

} // verus!
