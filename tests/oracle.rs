use anchor_lang::prelude::Pubkey;
use courtvision_oracle::address::{oracle_address, oracle_address_with_bump};
use courtvision_oracle::identity::Identity;
use courtvision_oracle::oracle::{
    announce_winner, announce_winner_at, get_oracle_state, get_oracle_state_at, initialize_oracle,
    initialize_oracle_at,
    AnnounceWinner, GetOracleState, InitializeOracle, OracleData, OracleError, OracleStateData,
};

fn id(b: u8) -> Identity {
    Identity::new([b; 32])
}

fn program() -> Identity {
    id(7)
}

fn canonical() -> (Identity, u8) {
    oracle_address(&program()).expect("a canonical address exists")
}

fn read(data: Option<OracleData>) -> Result<OracleStateData, OracleError> {
    let (key, _) = canonical();
    get_oracle_state(&GetOracleState { program_id: program(), oracle_key: key, oracle_data: data })
}

fn read_at_five(data: Option<OracleData>) -> Result<OracleStateData, OracleError> {
    let ctx = GetOracleState { program_id: program(), oracle_key: id(5), oracle_data: data };
    get_oracle_state_at(&ctx, Some(id(5)))
}

fn created_by(authority: Identity) -> Option<OracleData> {
    let (key, _) = canonical();
    let mut ctx = InitializeOracle { program_id: program(), oracle_key: key, oracle_data: None, authority };
    assert_eq!(initialize_oracle(&mut ctx), Ok(()));
    ctx.oracle_data
}

fn announce(
    data: Option<OracleData>,
    signer: Identity,
    league_id: u64,
) -> (Result<courtvision_oracle::oracle::WinnerAnnounced, OracleError>, Option<OracleData>) {
    let (key, _) = canonical();
    let mut ctx = AnnounceWinner { program_id: program(), oracle_key: key, oracle_data: data, authority: signer };
    let r = announce_winner(&mut ctx, league_id, id(2), 10, 1_700_000_000);
    (r, ctx.oracle_data)
}

fn assert_state(s: Result<OracleStateData, OracleError>, authority: Identity, last: u64, total: u64) {
    let s = s.expect("the record exists");
    assert_eq!(s.authority, authority);
    assert_eq!(s.last_winner_announced, last);
    assert_eq!(s.total_announcements, total);
}

#[test]
fn scenario_create_announce_reject() {
    let a = id(1);
    let b = id(2);
    let c = id(3);
    let (key, _) = canonical();
    let data = created_by(a);
    assert_state(read(data), a, 0, 0);

    let mut ctx = AnnounceWinner { program_id: program(), oracle_key: key, oracle_data: data, authority: a };
    let ev = announce_winner(&mut ctx, 42, b, 99, 1_234).expect("the authority may announce");
    assert_eq!(ev.league_id, 42);
    assert_eq!(ev.winner, b);
    assert_eq!(ev.final_score, 99);
    assert_eq!(ev.timestamp, 1_234);
    let data = ctx.oracle_data;
    assert_state(read(data), a, 42, 1);

    let mut ctx = AnnounceWinner { program_id: program(), oracle_key: key, oracle_data: data, authority: c };
    let r = announce_winner(&mut ctx, 43, b, 50, 1_235);
    assert_eq!(r.err(), Some(OracleError::Unauthorized));
    assert_state(read(ctx.oracle_data), a, 42, 1);
}

#[test]
fn initialize_sets_authority_and_bump() {
    let (_, bump) = canonical();
    let d = created_by(id(1)).expect("created");
    assert_eq!(d.authority, id(1));
    assert_eq!(d.last_winner_announced, 0);
    assert_eq!(d.total_announcements, 0);
    assert_eq!(d.bump, bump);
}

#[test]
fn second_initialize_fails_for_anyone() {
    let (key, _) = canonical();
    let data = created_by(id(1));
    for signer in [id(1), id(9)] {
        let mut ctx = InitializeOracle { program_id: program(), oracle_key: key, oracle_data: data, authority: signer };
        assert_eq!(initialize_oracle(&mut ctx), Err(OracleError::AlreadyInitialized));
        assert_state(read(ctx.oracle_data), id(1), 0, 0);
    }
}

#[test]
fn initialize_at_wrong_address_fails() {
    let mut ctx = InitializeOracle { program_id: program(), oracle_key: id(5), oracle_data: None, authority: id(1) };
    assert_eq!(initialize_oracle(&mut ctx), Err(OracleError::InvalidOracleAddress));
    assert!(ctx.oracle_data.is_none());
}

#[test]
fn initialize_at_given_address() {
    let mut ctx = InitializeOracle { program_id: program(), oracle_key: id(5), oracle_data: None, authority: id(1) };
    assert_eq!(initialize_oracle_at(&mut ctx, None), Err(OracleError::InvalidOracleAddress));
    assert_eq!(initialize_oracle_at(&mut ctx, Some((id(6), 200))), Err(OracleError::InvalidOracleAddress));
    assert!(ctx.oracle_data.is_none());
    assert_eq!(initialize_oracle_at(&mut ctx, Some((id(5), 200))), Ok(()));
    assert_eq!(ctx.oracle_data.expect("created").bump, 200);
}

#[test]
fn unauthorized_leaves_state_unchanged() {
    let data = created_by(id(1));
    let (_, data) = announce(data, id(1), 5);
    let (r, after) = announce(data, id(4), 6);
    assert_eq!(r.err(), Some(OracleError::Unauthorized));
    assert_state(read(after), id(1), 5, 1);
}

#[test]
fn counter_counts_each_announcement() {
    let mut data = created_by(id(1));
    for n in 1..=5u64 {
        let (r, after) = announce(data, id(1), 100 + n);
        assert!(r.is_ok());
        assert_state(read(after), id(1), 100 + n, n);
        data = after;
    }
}

#[test]
fn counter_overflow_is_rejected() {
    let (_, bump) = canonical();
    let full = OracleData { authority: id(1), last_winner_announced: 8, total_announcements: u64::MAX, bump };
    let (r, after) = announce(Some(full), id(1), 9);
    assert_eq!(r.err(), Some(OracleError::CounterOverflow));
    assert_state(read(after), id(1), 8, u64::MAX);
}

#[test]
fn counter_one_below_max_still_counts() {
    let (_, bump) = canonical();
    let d = OracleData { authority: id(1), last_winner_announced: 8, total_announcements: u64::MAX - 1, bump };
    let (r, after) = announce(Some(d), id(1), 9);
    assert!(r.is_ok());
    assert_state(read(after), id(1), 9, u64::MAX);
}

#[test]
fn last_write_wins() {
    let data = created_by(id(1));
    let (r5, data) = announce(data, id(1), 5);
    assert!(r5.is_ok());
    let (r7, data) = announce(data, id(1), 7);
    assert!(r7.is_ok());
    assert_state(read(data), id(1), 7, 2);
}

#[test]
fn same_league_may_be_announced_again() {
    let data = created_by(id(1));
    let (_, data) = announce(data, id(1), 5);
    let (r, data) = announce(data, id(1), 5);
    assert!(r.is_ok());
    assert_state(read(data), id(1), 5, 2);
}

#[test]
fn read_before_creation_fails() {
    assert_eq!(read(None).err(), Some(OracleError::NotInitialized));
}

#[test]
fn read_is_repeatable_after_failed_attempts() {
    let data = created_by(id(1));
    let first = read(data);
    let (_, data) = announce(data, id(3), 11);
    assert_state(first, id(1), 0, 0);
    assert_state(read(data), id(1), 0, 0);
    assert_state(read(data), id(1), 0, 0);
}

#[test]
fn announce_before_creation_fails() {
    let (r, after) = announce(None, id(1), 1);
    assert_eq!(r.err(), Some(OracleError::NotInitialized));
    assert!(after.is_none());
}

#[test]
fn announce_at_wrong_address_fails() {
    let data = created_by(id(1));
    let mut ctx = AnnounceWinner { program_id: program(), oracle_key: id(5), oracle_data: data, authority: id(1) };
    let r = announce_winner(&mut ctx, 3, id(2), 1, 0);
    assert_eq!(r.err(), Some(OracleError::InvalidOracleAddress));
    assert_state(read(ctx.oracle_data), id(1), 0, 0);
}

#[test]
fn announce_at_given_address() {
    let d = OracleData { authority: id(1), last_winner_announced: 0, total_announcements: 3, bump: 250 };
    let mut ctx = AnnounceWinner { program_id: program(), oracle_key: id(5), oracle_data: Some(d), authority: id(1) };
    assert_eq!(announce_winner_at(&mut ctx, None, 4, id(2), 1, 0).err(), Some(OracleError::InvalidOracleAddress));
    assert_eq!(announce_winner_at(&mut ctx, Some(id(6)), 4, id(2), 1, 0).err(), Some(OracleError::InvalidOracleAddress));
    assert_state(read_at_five(ctx.oracle_data), id(1), 0, 3);
    let ev = announce_winner_at(&mut ctx, Some(id(5)), 4, id(2), 1, 0).expect("accepted");
    assert_eq!(ev.league_id, 4);
    assert_state(read_at_five(ctx.oracle_data), id(1), 4, 4);
    assert_eq!(ctx.oracle_data.expect("kept").bump, 250);
}

#[test]
fn canonical_address_matches_solana_derivation() {
    let (key, bump) = canonical();
    let (expected, expected_bump) =
        Pubkey::find_program_address(&[b"oracle"], &Pubkey::new_from_array(program().to_bytes()));
    assert_eq!(key.to_bytes(), expected.to_bytes());
    assert_eq!(bump, expected_bump);
    assert_ne!(key, program());
}

#[test]
fn stored_bump_rederives_the_address() {
    let (key, bump) = canonical();
    assert_eq!(oracle_address_with_bump(&program(), bump), Some(key));
    assert_ne!(oracle_address_with_bump(&program(), bump), Some(program()));
}

#[test]
fn address_depends_on_program() {
    let (a, _) = oracle_address(&id(7)).expect("found");
    let (a2, _) = oracle_address(&id(7)).expect("found");
    let (b, _) = oracle_address(&id(8)).expect("found");
    assert_eq!(a, a2);
    assert_ne!(a, b);
}

#[test]
fn identity_equality() {
    let mut bytes = [1u8; 32];
    assert_eq!(Identity::new(bytes), id(1));
    bytes[31] = 2;
    assert_ne!(Identity::new(bytes), id(1));
    assert!(Identity::new(bytes).same_as(&Identity::new(bytes)));
    assert_eq!(Identity::new(bytes).to_bytes(), bytes);
}

#[test]
fn read_at_wrong_address_fails() {
    let data = created_by(id(1));
    let ctx = GetOracleState { program_id: program(), oracle_key: id(5), oracle_data: data };
    assert_eq!(get_oracle_state(&ctx).err(), Some(OracleError::InvalidOracleAddress));
    let other = GetOracleState { program_id: id(8), oracle_key: canonical().0, oracle_data: data };
    assert_eq!(get_oracle_state(&other).err(), Some(OracleError::InvalidOracleAddress));
}

#[test]
fn read_at_given_address() {
    let d = OracleData { authority: id(1), last_winner_announced: 9, total_announcements: 3, bump: 250 };
    let ctx = GetOracleState { program_id: program(), oracle_key: id(5), oracle_data: Some(d) };
    assert_eq!(get_oracle_state_at(&ctx, None).err(), Some(OracleError::InvalidOracleAddress));
    assert_eq!(get_oracle_state_at(&ctx, Some(id(6))).err(), Some(OracleError::InvalidOracleAddress));
    assert_state(get_oracle_state_at(&ctx, Some(id(5))), id(1), 9, 3);
    let empty = GetOracleState { program_id: program(), oracle_key: id(5), oracle_data: None };
    assert_eq!(get_oracle_state_at(&empty, Some(id(5))).err(), Some(OracleError::NotInitialized));
}

#[test]
fn count_tracks_accepted_announcements() {
    let mut data = created_by(id(1));
    let signers = [id(1), id(3), id(1), id(4), id(1)];
    let mut accepted: u64 = 0;
    for (i, signer) in signers.iter().enumerate() {
        let (r, after) = announce(data, *signer, i as u64);
        if r.is_ok() {
            accepted += 1;
        }
        assert_state(read(after), id(1), if r.is_ok() { i as u64 } else { read(data).unwrap().last_winner_announced }, accepted);
        data = after;
    }
    assert_eq!(accepted, 3);
}
