//! What holds of the restrictions of a spend.
use vstd::prelude::*;

use crate::restrictions::{
    transparent_child_index, AccountId, ShieldedAddressRestriction, SpendRestriction,
    TransparentAddressRestriction, TransparentScope,
};

verus! {

/// A shielded restriction admits the indexes from its first to its last, and only its first
/// where it has no last.
pub proof fn a_shielded_restriction_admits_its_range(
    account: AccountId,
    start_index: u32,
    max_index: Option<u32>,
    restriction: ShieldedAddressRestriction,
    index: u32,
    admitted: bool,
)
    requires
        call_ensures(
            ShieldedAddressRestriction::new,
            (account, start_index, max_index),
            restriction,
        ),
        call_ensures(ShieldedAddressRestriction::contains, (&restriction, index), admitted),
    ensures
        restriction.account == account,
        max_index matches Some(last) ==> (admitted <==> start_index <= index && index <= last),
        max_index is None ==> (admitted <==> index == start_index),
        restriction.admits(index) == admitted,
{
}

/// A transparent restriction admits the indexes from its first to its last, and only its first
/// where it has no last.
pub proof fn a_transparent_restriction_admits_its_range(
    account: AccountId,
    scope: TransparentScope,
    start_index: u32,
    max_index: Option<u32>,
    restriction: TransparentAddressRestriction,
    index: u32,
    admitted: bool,
)
    requires
        call_ensures(
            TransparentAddressRestriction::new,
            (account, scope, start_index, max_index),
            restriction,
        ),
        call_ensures(TransparentAddressRestriction::contains, (&restriction, index), admitted),
    ensures
        restriction.account == account,
        restriction.scope == scope,
        max_index matches Some(last) ==> (admitted <==> start_index <= index && index <= last),
        max_index is None ==> (admitted <==> index == start_index),
        restriction.admits(index) == admitted,
{
}

/// There is an account for every number below 2^31, and a transparent child for every height
/// below it; both keep the number.
pub proof fn indexes_below_the_limit_are_kept(
    index: u32,
    account: Option<AccountId>,
    child: Option<u32>,
)
    requires
        call_ensures(AccountId::from_index, (index,), account),
        call_ensures(transparent_child_index, (index,), child),
    ensures
        account is Some <==> index < 0x8000_0000,
        account matches Some(found) ==> found.index == index && found.wf(),
        child is Some <==> index < 0x8000_0000,
        child matches Some(found) ==> found == index,
{
}

/// The first account has the number zero.
pub proof fn the_first_account_is_zero(account: AccountId)
    requires
        call_ensures(AccountId::zero, (), account),
    ensures
        account.index == 0,
{
}

/// A spend is restricted in no way unless something restricts it.
pub proof fn spends_are_not_restricted_at_first(restriction: SpendRestriction)
    requires
        call_ensures(<SpendRestriction as Default>::default, (), restriction),
    ensures
        restriction.shielded is None,
        restriction.transparent is None,
{
}

} // verus!
