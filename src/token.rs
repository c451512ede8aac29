use crate::error::ContractError;
use vstd::arithmetic::div_mod::lemma_fundamental_div_mod_converse;
use vstd::prelude::*;

verus! {

/// Largest royalty share, in basis points (100%).
pub const MAX_ROYALTY_BPS: u32 = 10000;

/// An account identity, as the ledger compares it.
#[derive(Clone, Copy, Debug, PartialEq, Eq, Structural, Hash)]
pub struct Address {
    pub id: u64,
}

impl Address {
    pub fn new(id: u64) -> (r: Address)
        ensures
            r.id == id,
    {
        Address { id }
    }
}

/// One trait/value pair of a token's on-chain attributes.
#[derive(Clone, Debug)]
pub struct TokenAttribute {
    pub trait_type: String,
    pub value: String,
    /// "number", "date", "boost_percentage", or nothing.
    pub display_type: Option<String>,
}

/// The record of one live token.
#[derive(Debug)]
pub struct TokenData {
    pub id: u64,
    pub owner: Address,
    /// The single spender allowed to move this token; cleared whenever the owner changes.
    pub approved: Option<Address>,
    pub metadata_uri: String,
    pub created_at: u64,
    pub creator: Address,
    /// The token's own royalty share, overriding the collection default; `None` means the
    /// default in force at the time of a sale applies.
    pub royalty: Option<RoyaltyInfo>,
    pub attributes: Vec<TokenAttribute>,
    /// `(edition_number, total_editions)`: both or neither.
    pub edition_info: Option<(u32, u32)>,
}

/// A royalty share: who is paid, and how many basis points of the sale price.
#[derive(Clone, Copy, Debug, PartialEq, Eq, Structural)]
pub struct RoyaltyInfo {
    pub recipient: Address,
    pub percentage: u32,
}

/// `floor(sale_price * bps / 10000)`.
pub open spec fn royalty_amount(sale_price: int, bps: int) -> int {
    (sale_price * bps) / 10000
}

impl TokenData {
    /// A fresh, unapproved token record.
    pub fn new(
        id: u64,
        owner: Address,
        metadata_uri: String,
        creator: Address,
        royalty: Option<RoyaltyInfo>,
        attributes: Vec<TokenAttribute>,
        edition_info: Option<(u32, u32)>,
    ) -> (r: TokenData)
        ensures
            r == (TokenData {
                id,
                owner,
                approved: None,
                metadata_uri,
                created_at: 0,
                creator,
                royalty,
                attributes,
                edition_info,
            }),
    {
        TokenData {
            id,
            owner,
            approved: None,
            metadata_uri,
            created_at: 0,
            creator,
            royalty,
            attributes,
            edition_info,
        }
    }

    /// A token's own share, if it has one, is at most 100%.
    pub fn validate(&self) -> (r: bool)
        ensures
            r == (self.royalty matches Some(ro) ==> ro.percentage <= 10000),
    {
        match self.royalty {
            Some(ro) => ro.percentage <= MAX_ROYALTY_BPS,
            None => true,
        }
    }

    pub fn is_edition(&self) -> (r: bool)
        ensures
            r == self.edition_info.is_some(),
    {
        self.edition_info.is_some()
    }
}

impl RoyaltyInfo {
    pub fn new(recipient: Address, percentage: u32) -> (r: RoyaltyInfo)
        ensures
            r == (RoyaltyInfo { recipient, percentage }),
    {
        RoyaltyInfo { recipient, percentage }
    }

    /// The share is at most 100%.
    pub fn validate(&self) -> (r: bool)
        ensures
            r == (self.percentage <= 10000),
    {
        self.percentage <= MAX_ROYALTY_BPS
    }

    /// The royalty owed on `sale_price`, rounded down; no price overflows it.
    pub fn calculate_royalty(&self, sale_price: i128) -> (r: Result<i128, ContractError>)
        ensures
            r is Ok <==> self.percentage <= 10000,
            r matches Ok(a) ==> a == royalty_amount(sale_price as int, self.percentage as int),
            r matches Err(e) ==> e == ContractError::InvalidRoyalty,
    {
        if !self.validate() {
            return Err(ContractError::InvalidRoyalty);
        }
        if self.percentage == 0 {
            assert(royalty_amount(sale_price as int, 0) == 0);
            return Ok(0);
        }
        Ok(scaled_floor(sale_price, self.percentage))
    }
}

/// `floor(sale_price * bps / 10000)` for every `i128` price, with no wider type:
/// the price is split as `q * 10000 + rem` so that no intermediate product overflows.
fn scaled_floor(sale_price: i128, bps: u32) -> (a: i128)
    requires
        bps <= 10000,
    ensures
        a == royalty_amount(sale_price as int, bps as int),
{
    let neg = sale_price < 0;
    let mag: u128 = if neg {
        ((-(sale_price + 1)) as u128) + 1
    } else {
        sale_price as u128
    };
    assert(mag as int == if neg { -(sale_price as int) } else { sale_price as int });
    let b = bps as u128;
    let q = mag / 10000;
    let rem = mag % 10000;
    assert(q * b <= q * 10000) by (nonlinear_arith)
        requires
            b <= 10000,
    ;
    assert(q * 10000 <= mag) by (nonlinear_arith)
        requires
            q == mag / 10000,
    ;
    assert(rem * b < 100000000) by (nonlinear_arith)
        requires
            rem < 10000,
            b <= 10000,
    ;
    let rb = rem * b;
    let d = rb / 10000;
    let m = rb % 10000;
    let t = q * b + d;
    proof {
        let p = mag as int * b as int;
        assert(mag as int == q * 10000 + rem) by (nonlinear_arith)
            requires
                q == mag / 10000,
                rem == mag % 10000,
        ;
        assert(rb as int == d * 10000 + m) by (nonlinear_arith)
            requires
                d == rb / 10000,
                m == rb % 10000,
        ;
        assert(p == (q * b + d) * 10000 + m) by (nonlinear_arith)
            requires
                p == mag as int * b as int,
                mag as int == q * 10000 + rem,
                rb == rem * b,
                rb as int == d * 10000 + m,
        ;
        lemma_fundamental_div_mod_converse(p, 10000, t as int, m as int);
        assert(t <= mag) by (nonlinear_arith)
            requires
                t as int * 10000 <= p,
                p == mag as int * b as int,
                b <= 10000,
                mag >= 0,
        ;
        if neg {
            assert(sale_price as int * bps as int == -p) by (nonlinear_arith)
                requires
                    mag as int == -(sale_price as int),
                    p == mag as int * b as int,
                    b == bps,
            ;
            if m == 0 {
                lemma_fundamental_div_mod_converse(-p, 10000, -(t as int), 0);
            } else {
                lemma_fundamental_div_mod_converse(-p, 10000, -(t as int) - 1, 10000 - m);
                assert(t < mag) by (nonlinear_arith)
                    requires
                        t as int * 10000 + m == p,
                        m > 0,
                        p == mag as int * b as int,
                        b <= 10000,
                        mag >= 0,
                ;
            }
        } else {
            assert(sale_price as int * bps as int == p);
        }
    }
    if !neg {
        t as i128
    } else {
        let u: u128 = if m == 0 {
            t
        } else {
            t + 1
        };
        if u == 0 {
            0
        } else {
            -((u - 1) as i128) - 1
        }
    }
}

} // verus!
