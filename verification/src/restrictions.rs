//! Restrictions on which addresses of a wallet a spend may draw from.
use vstd::prelude::*;

verus! {

/// The number of accounts that a wallet can have, which is also the number of child indexes
/// below an account.
pub const INDEX_LIMIT: u32 = 0x8000_0000;

/// A ZIP 32 account.
#[derive(Debug, Clone, Copy, PartialEq, Eq, Structural)]
pub struct AccountId {
    pub index: u32,
}

/// The scope of a shielded key.
#[derive(Debug, Clone, Copy, PartialEq, Eq, Structural)]
pub enum Scope {
    External,
    Internal,
}

/// The scope of a transparent key.
#[derive(Debug, Clone, Copy, PartialEq, Eq, Structural)]
pub enum TransparentScope {
    External,
    Internal,
    Refund,
}

/// `zip32::AccountId::try_from`: an account for every index below 2^31, and none above.
#[verifier::external_body]
fn outside_account(index: u32) -> (account: Option<u32>)
    ensures
        account == (if index < INDEX_LIMIT {
            Some(index)
        } else {
            None
        }),
{
    zip32::AccountId::try_from(index).ok().map(u32::from)
}

/// `NonHardenedChildIndex::from_index`: a child index for every number below 2^31, and none
/// above.
#[verifier::external_body]
fn outside_child_index(index: u32) -> (child: Option<u32>)
    ensures
        child == (if index < INDEX_LIMIT {
            Some(index)
        } else {
            None
        }),
{
    zcash_transparent::keys::NonHardenedChildIndex::from_index(index).map(|child| child.index())
}

impl AccountId {
    pub open spec fn wf(self) -> bool {
        self.index < INDEX_LIMIT
    }

    /// The first account.
    pub fn zero() -> (account: AccountId)
        ensures
            account.wf(),
            account.index == 0,
    {
        AccountId { index: 0 }
    }

    /// The account with the given index, where there is one.
    pub fn from_index(index: u32) -> (account: Option<AccountId>)
        ensures
            account == (if index < INDEX_LIMIT {
                Some(AccountId { index })
            } else {
                None
            }),
    {
        match outside_account(index) {
            Some(index) => Some(AccountId { index }),
            None => None,
        }
    }
}

/// The transparent child index for a block height, where the height can be one.
pub fn transparent_child_index(height: u32) -> (child: Option<u32>)
    ensures
        child == (if height < INDEX_LIMIT {
            Some(height)
        } else {
            None
        }),
{
    outside_child_index(height)
}

/// Whether `index` lies in the range from `start` to `max`, both ends included. Without a
/// `max` the range is `start` alone.
pub open spec fn in_index_range(start: u32, max: Option<u32>, index: u32) -> bool {
    start <= index <= (match max {
        Some(last) => last,
        None => start,
    })
}

/// Describes spend selection restrictions that may be applied during proposal building.
#[derive(Debug, Clone)]
pub struct SpendRestriction {
    pub shielded: Option<ShieldedAddressRestriction>,
    pub transparent: Option<TransparentAddressRestriction>,
}

impl Default for SpendRestriction {
    /// No restriction at all.
    fn default() -> (restriction: SpendRestriction)
        ensures
            restriction.shielded is None,
            restriction.transparent is None,
    {
        SpendRestriction { shielded: None, transparent: None }
    }
}

/// Restricts shielded spending to notes received at specific unified-address indexes.
#[derive(Debug, Clone, Copy, PartialEq, Eq, Structural)]
pub struct ShieldedAddressRestriction {
    pub account: AccountId,
    pub start_index: u32,
    pub max_index: Option<u32>,
}

impl ShieldedAddressRestriction {
    pub fn new(account: AccountId, start_index: u32, max_index: Option<u32>) -> (restriction: Self)
        ensures
            restriction == (ShieldedAddressRestriction { account, start_index, max_index }),
    {
        ShieldedAddressRestriction { account, start_index, max_index }
    }

    /// Whether the restriction admits the address at `address_index`.
    pub open spec fn admits(self, address_index: u32) -> bool {
        in_index_range(self.start_index, self.max_index, address_index)
    }

    pub fn contains(&self, address_index: u32) -> (result: bool)
        ensures
            result == self.admits(address_index),
    {
        address_index >= self.start_index && address_index <= self.max_index.unwrap_or(
            self.start_index,
        )
    }
}

/// Restricts transparent spending to a range of transparent child indexes.
#[derive(Debug, Clone, Copy, PartialEq, Eq, Structural)]
pub struct TransparentAddressRestriction {
    pub account: AccountId,
    pub scope: TransparentScope,
    pub start_index: u32,
    pub max_index: Option<u32>,
}

impl TransparentAddressRestriction {
    pub fn new(
        account: AccountId,
        scope: TransparentScope,
        start_index: u32,
        max_index: Option<u32>,
    ) -> (restriction: Self)
        ensures
            restriction == (TransparentAddressRestriction {
                account,
                scope,
                start_index,
                max_index,
            }),
    {
        TransparentAddressRestriction { account, scope, start_index, max_index }
    }

    /// Whether the restriction admits the child at `address_index`.
    pub open spec fn admits(self, address_index: u32) -> bool {
        in_index_range(self.start_index, self.max_index, address_index)
    }

    pub fn contains(&self, address_index: u32) -> (result: bool)
        ensures
            result == self.admits(address_index),
    {
        address_index >= self.start_index && address_index <= self.max_index.unwrap_or(
            self.start_index,
        )
    }
}

/// A restriction without a last index, or with its first index as the last, admits its first
/// index and no other.
pub proof fn single_index_restriction(start: u32, index: u32)
    ensures
        in_index_range(start, None, index) <==> index == start,
        in_index_range(start, Some(start), index) <==> index == start,
{
}

/// A restriction admits some index exactly if its last index is not below its first, and then
/// it admits the first.
pub proof fn restriction_admits_its_start(start: u32, max: Option<u32>)
    ensures
        in_index_range(start, max, start) <==> (max matches Some(last) ==> start <= last),
        (exists|index: u32| in_index_range(start, max, index)) ==> in_index_range(
            start,
            max,
            start,
        ),
{
}

/// Extending the last index keeps every index that the restriction admits.
pub proof fn extending_keeps_indexes(start: u32, last: u32, further: u32, index: u32)
    requires
        last <= further,
        in_index_range(start, Some(last), index),
    ensures
        in_index_range(start, Some(further), index),
{
}

} // verus!
