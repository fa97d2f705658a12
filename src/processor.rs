use vstd::prelude::*;
use crate::error::AuctionError;
use crate::key::Key;
use crate::machine::{
    bid, bid_outcome, cancel, cancel_outcome, close, close_outcome, exhibit, exhibit_outcome,
    outcome_of, Outcome, Transition,
};
use crate::record::{AuctionRecord, BidAccounts, CancelAccounts, CloseAccounts, ExhibitAccounts};

verus! {

/// The seed from which the derived authority is computed: "escrow" in ASCII.
pub const AUTHORITY_SEED: [u8; 6] = [101, 115, 99, 114, 111, 119];

/// The program address derived from a seed and a program identity, with its
/// bump, if one exists.
pub uninterp spec fn program_address_of(seed: Seq<u8>, program_id: [u8; 32]) -> Option<([u8; 32], u8)>;

/// The amount held by a token account, read from its stored bytes, if they
/// hold an initialized token account.
pub uninterp spec fn token_amount_of(data: Seq<u8>) -> Option<u64>;

/// Relies on solana_program's Pubkey::try_find_program_address: the derived
/// address and bump depend on the seed and the program identity alone.
#[verifier::external_body]
fn find_authority(seed: &[u8], program_id: &Key) -> (r: Option<(Key, u8)>)
    ensures
        match r {
            Some((k, b)) => program_address_of(seed@, program_id.bytes) == Some((k.bytes, b)),
            None => program_address_of(seed@, program_id.bytes).is_none(),
        },
{
    let program = solana_program::pubkey::Pubkey::new_from_array(program_id.bytes);
    solana_program::pubkey::Pubkey::try_find_program_address(&[seed], &program)
        .map(|(k, b)| (Key { bytes: k.to_bytes() }, b))
}

/// Relies on spl_token's Account::unpack (through the Pack trait): it reads
/// an initialized token account of exactly 165 bytes, or fails.
#[verifier::external_body]
fn read_token_amount(data: &[u8]) -> (r: Option<u64>)
    ensures
        r == token_amount_of(data@),
        r.is_some() ==> data@.len() == 165,
{
    <spl_token::state::Account as solana_program::program_pack::Pack>::unpack(data)
        .ok()
        .map(|a| a.amount)
}

/// The derived authority: the identity that controls every custody account
/// of the auction, and the bump that proves it.
#[derive(Clone, Copy, Debug)]
pub struct Authority {
    pub key: Key,
    pub bump: u8,
}

/// A request, with the accounts it names and what was read of them.
#[allow(inconsistent_fields)]
pub enum Request {
    Exhibit { accounts: ExhibitAccounts, initial_price: u64, duration: u64 },
    Bid { accounts: BidAccounts, price: u64 },
    /// `item_data` is the stored content of the item's custody account.
    Cancel { accounts: CancelAccounts, item_data: Vec<u8> },
    /// `item_data` and `funds_data` are the stored content of the item's
    /// and of the leader's custody accounts.
    Close { accounts: CloseAccounts, item_data: Vec<u8>, funds_data: Vec<u8> },
}

/// The outcome of a request against a record at time `now`.
pub open spec fn request_outcome(program_id: Key, rec: AuctionRecord, req: Request, now: i64) -> Outcome {
    match program_address_of(AUTHORITY_SEED@, program_id.bytes) {
        None => Err(AuctionError::CustodyFailure),
        Some((a, _)) => {
            let authority = Key { bytes: a };
            match req {
                Request::Exhibit { accounts, initial_price, duration } =>
                    exhibit_outcome(rec, accounts, initial_price, duration, now, authority),
                Request::Bid { accounts, price } => bid_outcome(rec, accounts, price, now, authority),
                Request::Cancel { accounts, item_data } => match token_amount_of(item_data@) {
                    None => Err(AuctionError::CustodyFailure),
                    Some(n) => cancel_outcome(rec, accounts, n, authority),
                },
                Request::Close { accounts, item_data, funds_data } => match (
                    token_amount_of(item_data@),
                    token_amount_of(funds_data@),
                ) {
                    (Some(n), Some(m)) => close_outcome(rec, accounts, now, n, m, authority),
                    _ => Err(AuctionError::CustodyFailure),
                },
            }
        },
    }
}

/// Runs the auction's transitions for one deployed program.
pub struct Processor;

impl Processor {
    /// The derived authority of `program_id`.
    pub fn authority(program_id: &Key) -> (r: Option<Authority>)
        ensures
            match program_address_of(AUTHORITY_SEED@, program_id.bytes) {
                None => r.is_none(),
                Some((a, b)) => r == Some(Authority { key: Key { bytes: a }, bump: b }),
            },
    {
        let seed: [u8; 6] = AUTHORITY_SEED;
        match find_authority(seed.as_slice(), program_id) {
            Some((key, bump)) => Some(Authority { key, bump }),
            None => None,
        }
    }

    /// Decides `req` against `rec` at time `now`: the next record and the
    /// custody operations to issue, or the first condition that fails.
    pub fn process(program_id: &Key, rec: &AuctionRecord, req: &Request, now: i64) -> (r: Result<
        Transition,
        AuctionError,
    >)
        ensures
            outcome_of(r) == request_outcome(*program_id, *rec, *req, now),
    {
        let authority = match Self::authority(program_id) {
            Some(a) => a.key,
            None => return Err(AuctionError::CustodyFailure),
        };
        match req {
            Request::Exhibit { accounts, initial_price, duration } =>
                exhibit(rec, accounts, *initial_price, *duration, now, &authority),
            Request::Bid { accounts, price } => bid(rec, accounts, *price, now, &authority),
            Request::Cancel { accounts, item_data } => match read_token_amount(item_data.as_slice()) {
                None => Err(AuctionError::CustodyFailure),
                Some(n) => cancel(rec, accounts, n, &authority),
            },
            Request::Close { accounts, item_data, funds_data } => {
                let n = match read_token_amount(item_data.as_slice()) {
                    None => return Err(AuctionError::CustodyFailure),
                    Some(n) => n,
                };
                match read_token_amount(funds_data.as_slice()) {
                    None => Err(AuctionError::CustodyFailure),
                    Some(m) => close(rec, accounts, now, n, m, &authority),
                }
            },
        }
    }
}

} // verus!
