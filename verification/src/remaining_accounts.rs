//! The accounts that follow the named accounts of an instruction, and the
//! slices that say which run of them serves which purpose.

use vstd::prelude::*;
use crate::error::ZapError;

verus! {

/// The purpose of a run of accounts.
#[derive(Debug, Clone, Copy, PartialEq, Eq, Structural)]
pub enum AccountsType {
    /// The accounts that a transfer hook asks for.
    TransferHook,
}

/// A run of accounts of one purpose.
#[derive(Debug, Clone, Copy, PartialEq, Eq, Structural)]
pub struct RemainingAccountsSlice {
    /// The purpose.
    pub accounts_type: AccountsType,
    /// How many accounts the run holds.
    pub length: u8,
}

/// The runs of accounts that follow the named accounts.
#[derive(Debug, Clone, PartialEq, Eq)]
pub struct RemainingAccountsInfo {
    /// The runs, in order.
    pub slices: Vec<RemainingAccountsSlice>,
}

/// The lengths of the slices, added up.
pub open spec fn total_length_spec(slices: Seq<RemainingAccountsSlice>) -> nat
    decreases slices.len(),
{
    if slices.len() == 0 {
        0
    } else {
        total_length_spec(slices.drop_last()) + slices.last().length as nat
    }
}

proof fn lemma_total_length_prefix(slices: Seq<RemainingAccountsSlice>, n: int)
    requires
        0 <= n <= slices.len(),
    ensures
        total_length_spec(slices.take(n)) <= total_length_spec(slices),
    decreases slices.len() - n,
{
    if n == slices.len() {
        assert(slices.take(n) =~= slices);
    } else {
        lemma_total_length_prefix(slices, n + 1);
        assert(slices.take(n + 1).drop_last() =~= slices.take(n));
    }
}

impl RemainingAccountsInfo {
    /// Adds up the lengths of the slices. The sum must fit a byte.
    pub fn total_length(&self) -> (r: u8)
        requires
            total_length_spec(self.slices@) <= u8::MAX,
        ensures
            r == total_length_spec(self.slices@),
    {
        let mut sum: u8 = 0;
        let mut i: usize = 0;
        while i < self.slices.len()
            invariant
                i <= self.slices@.len(),
                sum == total_length_spec(self.slices@.take(i as int)),
                total_length_spec(self.slices@) <= u8::MAX,
            decreases self.slices@.len() - i,
        {
            proof {
                assert(self.slices@.take(i + 1).drop_last() =~= self.slices@.take(i as int));
                lemma_total_length_prefix(self.slices@, i + 1);
            }
            sum = sum + self.slices[i].length;
            i += 1;
        }
        assert(self.slices@.take(i as int) =~= self.slices@);
        sum
    }

    /// Adds up the lengths of the slices; nothing where the sum does not fit
    /// a byte.
    pub fn checked_total_length(&self) -> (r: Option<u8>)
        ensures
            r.is_some() <==> total_length_spec(self.slices@) <= u8::MAX,
            r.is_some() ==> r.unwrap() == total_length_spec(self.slices@),
    {
        let mut sum: u8 = 0;
        let mut i: usize = 0;
        while i < self.slices.len()
            invariant
                i <= self.slices@.len(),
                sum == total_length_spec(self.slices@.take(i as int)),
            decreases self.slices@.len() - i,
        {
            proof {
                assert(self.slices@.take(i + 1).drop_last() =~= self.slices@.take(i as int));
                lemma_total_length_prefix(self.slices@, i + 1);
            }
            sum = match sum.checked_add(self.slices[i].length) {
                Some(v) => v,
                None => {
                    return None;
                },
            };
            i += 1;
        }
        assert(self.slices@.take(i as int) =~= self.slices@);
        Some(sum)
    }
}

/// A run of accounts by position.
#[derive(Debug, Clone, Copy, PartialEq, Eq, Structural)]
pub struct AccountRange {
    /// The index of the first account.
    pub start: usize,
    /// The index after the last account.
    pub end: usize,
}

/// Where the accounts of each purpose sit among the remaining accounts.
#[derive(Debug, Clone, Copy, PartialEq, Eq, Structural)]
pub struct ParsedRemainingAccounts {
    /// The accounts for the transfer hook.
    pub transfer_hook: Option<AccountRange>,
    /// How many of the remaining accounts the slices took.
    pub consumed: usize,
}

/// What the slices up to `n` make of `available` remaining accounts, given
/// what the slices before made of them.
pub open spec fn parsed_spec(
    slices: Seq<RemainingAccountsSlice>,
    valid: Seq<AccountsType>,
    available: nat,
    n: int,
) -> Result<ParsedRemainingAccounts, ZapError>
    decreases n,
{
    if n <= 0 {
        Ok(ParsedRemainingAccounts { transfer_hook: None, consumed: 0 })
    } else {
        match parsed_spec(slices, valid, available, n - 1) {
            Err(e) => Err(e),
            Ok(parsed) => {
                let slice = slices[n - 1];
                if !valid.contains(slice.accounts_type) {
                    Err(ZapError::InvalidRemainingAccountSlice)
                } else if slice.length == 0 {
                    Ok(parsed)
                } else if available - parsed.consumed < slice.length {
                    Err(ZapError::InsufficientRemainingAccounts)
                } else if parsed.transfer_hook.is_some() {
                    Err(ZapError::DuplicatedRemainingAccountTypes)
                } else {
                    Ok(
                        ParsedRemainingAccounts {
                            transfer_hook: Some(
                                AccountRange {
                                    start: parsed.consumed,
                                    end: (parsed.consumed + slice.length) as usize,
                                },
                            ),
                            consumed: (parsed.consumed + slice.length) as usize,
                        },
                    )
                }
            },
        }
    }
}

/// Tells whether `account_type` is among `valid`.
fn is_valid_type(valid: &[AccountsType], account_type: AccountsType) -> (r: bool)
    ensures
        r == valid@.contains(account_type),
{
    let mut i: usize = 0;
    while i < valid.len()
        invariant
            i <= valid.len(),
            forall|j: int| 0 <= j < i ==> valid@[j] != account_type,
        decreases valid.len() - i,
    {
        if valid[i] == account_type {
            return true;
        }
        i += 1;
    }
    false
}

/// Hands out the remaining accounts to the slices, in order. Each slice
/// takes as many accounts as its length says from the front of what is
/// left. A slice of a purpose that is not valid here is refused, as is a
/// slice that asks for more accounts than are left and a second slice of a
/// purpose that already has its accounts; a slice of length zero takes
/// nothing.
pub fn parse_remaining_accounts(
    remaining_accounts_len: usize,
    remaining_accounts_slice: &[RemainingAccountsSlice],
    valid_accounts_type_list: &[AccountsType],
) -> (r: Result<ParsedRemainingAccounts, ZapError>)
    ensures
        r == parsed_spec(
            remaining_accounts_slice@,
            valid_accounts_type_list@,
            remaining_accounts_len as nat,
            remaining_accounts_slice@.len() as int,
        ),
        r.is_ok() ==> r.unwrap().consumed <= remaining_accounts_len,
{
    let mut parsed = ParsedRemainingAccounts { transfer_hook: None, consumed: 0 };
    let mut i: usize = 0;
    while i < remaining_accounts_slice.len()
        invariant
            i <= remaining_accounts_slice@.len(),
            parsed.consumed <= remaining_accounts_len,
            parsed_spec(
                remaining_accounts_slice@,
                valid_accounts_type_list@,
                remaining_accounts_len as nat,
                i as int,
            ) == Ok::<ParsedRemainingAccounts, ZapError>(parsed),
        decreases remaining_accounts_slice@.len() - i,
    {
        let slice = remaining_accounts_slice[i];
        proof {
            if parsed_spec(
                remaining_accounts_slice@,
                valid_accounts_type_list@,
                remaining_accounts_len as nat,
                i + 1,
            ).is_err() {
                lemma_parse_error_stays(
                    remaining_accounts_slice@,
                    valid_accounts_type_list@,
                    remaining_accounts_len as nat,
                    i + 1,
                    remaining_accounts_slice@.len() as int,
                );
            }
        }
        if !is_valid_type(valid_accounts_type_list, slice.accounts_type) {
            return Err(ZapError::InvalidRemainingAccountSlice);
        }
        if slice.length != 0 {
            if remaining_accounts_len - parsed.consumed < slice.length as usize {
                return Err(ZapError::InsufficientRemainingAccounts);
            }
            let end_idx = parsed.consumed + slice.length as usize;
            match slice.accounts_type {
                AccountsType::TransferHook => {
                    if parsed.transfer_hook.is_some() {
                        return Err(ZapError::DuplicatedRemainingAccountTypes);
                    }
                    parsed = ParsedRemainingAccounts {
                        transfer_hook: Some(AccountRange { start: parsed.consumed, end: end_idx }),
                        consumed: end_idx,
                    };
                },
            }
        }
        i += 1;
    }
    Ok(parsed)
}

proof fn lemma_parse_error_stays(
    slices: Seq<RemainingAccountsSlice>,
    valid: Seq<AccountsType>,
    available: nat,
    n: int,
    m: int,
)
    requires
        0 <= n <= m,
        parsed_spec(slices, valid, available, n).is_err(),
    ensures
        parsed_spec(slices, valid, available, m) == parsed_spec(slices, valid, available, n),
    decreases m - n,
{
    if n < m {
        lemma_parse_error_stays(slices, valid, available, n, m - 1);
    }
}

/// Whether the accounts that were passed for a transfer hook go with the
/// mint: a mint with a hook needs them, a mint without must not get any.
pub open spec fn hook_accounts_verdict(mint_has_hook: bool, accounts_passed: bool) -> Result<
    (),
    ZapError,
> {
    if mint_has_hook && !accounts_passed {
        Err(ZapError::MissingRemainingAccountForTransferHook)
    } else if !mint_has_hook && accounts_passed {
        Err(ZapError::NoTransferHookProgram)
    } else {
        Ok(())
    }
}

/// Checks the accounts for a transfer hook against the mint before a
/// transfer is made.
pub fn check_transfer_hook_accounts(mint_has_hook: bool, accounts_passed: bool) -> (r: Result<
    (),
    ZapError,
>)
    ensures
        r == hook_accounts_verdict(mint_has_hook, accounts_passed),
{
    if mint_has_hook {
        if !accounts_passed {
            return Err(ZapError::MissingRemainingAccountForTransferHook);
        }
    } else {
        if accounts_passed {
            return Err(ZapError::NoTransferHookProgram);
        }
    }
    Ok(())
}

} // verus!
