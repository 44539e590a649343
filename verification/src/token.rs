//! The custody ledger: token accounts, who controls them, and the moves of
//! value between them.

use vstd::prelude::*;
use crate::pubkey::Pubkey;

verus! {

/// Why the ledger refused a move.
#[derive(Clone, Copy, Debug, PartialEq, Eq, Structural)]
pub enum TokenError {
    /// An account that takes part is frozen.
    AccountFrozen,
    /// The source holds less than the amount, or its delegate may move less.
    InsufficientFunds,
    /// The two accounts hold different assets.
    MintMismatch,
    /// The authority presented does not control the account.
    OwnerMismatch,
    /// The destination or the supply would exceed the largest amount.
    Overflow,
    /// The asset has no mint authority: no more of it can be issued.
    FixedSupply,
    /// The account holds the ledger's native asset, which is not issued.
    NativeNotSupported,
}

/// An account that holds an amount of one asset.
#[derive(Clone, Copy, Debug)]
pub struct TokenAccount {
    /// The account's address.
    pub key: Pubkey,
    /// The asset held.
    pub mint: Pubkey,
    /// Who may move value out of the account.
    pub owner: Pubkey,
    pub amount: u64,
    /// Whom the owner has allowed to move value out of the account.
    pub delegate: Option<Pubkey>,
    /// How much the delegate may still move.
    pub delegated_amount: u64,
    /// Whether the account is frozen: nothing moves in or out of it.
    pub is_frozen: bool,
    /// Whether the account holds the ledger's native asset.
    pub is_native: bool,
    /// Who may close the account, where that is not the owner.
    pub close_authority: Option<Pubkey>,
}

/// An asset and who may issue it.
#[derive(Clone, Copy, Debug)]
pub struct Mint {
    /// The asset's address.
    pub key: Pubkey,
    pub mint_authority: Option<Pubkey>,
    pub supply: u64,
    pub decimals: u8,
    pub freeze_authority: Option<Pubkey>,
}

/// Whether `authority` moves value out of `from` as its delegate. An owner
/// who is also the delegate moves as the delegate.
pub open spec fn moves_as_delegate(from: TokenAccount, authority: Pubkey) -> bool {
    from.delegate == Some(authority)
}

/// The source after `amount` has left it on the word of `authority`: the
/// amount is taken off, and off what the delegate may still move where the
/// delegate moved it; a delegate who may move no more is a delegate no longer.
pub open spec fn debited(from: TokenAccount, authority: Pubkey, amount: u64) -> TokenAccount {
    if moves_as_delegate(from, authority) {
        TokenAccount {
            amount: (from.amount - amount) as u64,
            delegated_amount: (from.delegated_amount - amount) as u64,
            delegate: if from.delegated_amount == amount {
                None
            } else {
                from.delegate
            },
            ..from
        }
    } else {
        TokenAccount { amount: (from.amount - amount) as u64, ..from }
    }
}

/// What `transfer` does to the two accounts, or why it refuses. The checks
/// come in this order: neither account is frozen; the source holds the
/// amount; both hold one asset; the authority is the delegate, who may move
/// the amount, or else the owner; the destination has room. A transfer from
/// an account to itself passes the checks and moves nothing.
pub open spec fn transfer_spec(
    from: TokenAccount,
    to: TokenAccount,
    authority: Pubkey,
    amount: u64,
) -> Result<(TokenAccount, TokenAccount), TokenError> {
    if from.is_frozen || to.is_frozen {
        Err(TokenError::AccountFrozen)
    } else if from.amount < amount {
        Err(TokenError::InsufficientFunds)
    } else if from.mint != to.mint {
        Err(TokenError::MintMismatch)
    } else if moves_as_delegate(from, authority) && from.delegated_amount < amount {
        Err(TokenError::InsufficientFunds)
    } else if !moves_as_delegate(from, authority) && from.owner != authority {
        Err(TokenError::OwnerMismatch)
    } else if from.key == to.key {
        Ok((from, to))
    } else if to.amount + amount > u64::MAX {
        Err(TokenError::Overflow)
    } else {
        Ok((debited(from, authority, amount), TokenAccount { amount: (to.amount + amount) as u64, ..to }))
    }
}

/// Whether `holder` names `key`.
pub fn is_key(holder: &Option<Pubkey>, key: &Pubkey) -> (same: bool)
    ensures
        same == (*holder == Some(*key)),
{
    match holder {
        Some(held) => *held == *key,
        None => false,
    }
}

/// Moves `amount` from `from` to `to` on the word of `authority`, or refuses
/// and leaves both accounts as they were.
pub fn transfer(
    from: &mut TokenAccount,
    to: &mut TokenAccount,
    authority: &Pubkey,
    amount: u64,
) -> (done: Result<(), TokenError>)
    ensures
        match transfer_spec(*old(from), *old(to), *authority, amount) {
            Ok((f, t)) => {
                &&& done == Ok::<(), TokenError>(())
                &&& *final(from) == f
                &&& *final(to) == t
            },
            Err(e) => {
                &&& done == Err::<(), TokenError>(e)
                &&& *final(from) == *old(from)
                &&& *final(to) == *old(to)
            },
        },
{
    if from.is_frozen || to.is_frozen {
        return Err(TokenError::AccountFrozen);
    }
    if from.amount < amount {
        return Err(TokenError::InsufficientFunds);
    }
    if from.mint != to.mint {
        return Err(TokenError::MintMismatch);
    }
    let as_delegate = is_key(&from.delegate, authority);
    if as_delegate {
        if from.delegated_amount < amount {
            return Err(TokenError::InsufficientFunds);
        }
    } else if from.owner != *authority {
        return Err(TokenError::OwnerMismatch);
    }
    if from.key == to.key {
        return Ok(());
    }
    if to.amount > u64::MAX - amount {
        return Err(TokenError::Overflow);
    }
    if as_delegate {
        from.delegated_amount = from.delegated_amount - amount;
        if from.delegated_amount == 0 {
            from.delegate = None;
        }
    }
    from.amount = from.amount - amount;
    to.amount = to.amount + amount;
    Ok(())
}

/// A transfer keeps the sum of the two balances, whether it is carried out or
/// refused, and between two accounts it moves exactly the amount.
pub proof fn lemma_transfer_conserves(
    from: TokenAccount,
    to: TokenAccount,
    authority: Pubkey,
    amount: u64,
)
    ensures
        transfer_spec(from, to, authority, amount) matches Ok((f, t)) ==> {
            &&& f.amount + t.amount == from.amount + to.amount
            &&& from.key != to.key ==> t.amount == to.amount + amount
            &&& f.owner == from.owner && t.owner == to.owner
        },
{
}

/// What `mint_to` does to the asset and the account, or why it refuses. The
/// checks come in this order: the account is not frozen; it does not hold the
/// native asset; it holds this asset; the asset has a mint authority, and it
/// is `authority`; account and supply have room.
pub open spec fn mint_to_spec(mint: Mint, to: TokenAccount, authority: Pubkey, amount: u64) -> Result<
    (Mint, TokenAccount),
    TokenError,
> {
    if to.is_frozen {
        Err(TokenError::AccountFrozen)
    } else if to.is_native {
        Err(TokenError::NativeNotSupported)
    } else if to.mint != mint.key {
        Err(TokenError::MintMismatch)
    } else if mint.mint_authority is None {
        Err(TokenError::FixedSupply)
    } else if mint.mint_authority != Some(authority) {
        Err(TokenError::OwnerMismatch)
    } else if to.amount + amount > u64::MAX || mint.supply + amount > u64::MAX {
        Err(TokenError::Overflow)
    } else {
        Ok(
            (
                Mint { supply: (mint.supply + amount) as u64, ..mint },
                TokenAccount { amount: (to.amount + amount) as u64, ..to },
            ),
        )
    }
}

/// Issues `amount` of the asset into `to` on the word of `authority`, or
/// refuses and leaves both as they were.
pub fn mint_to(mint: &mut Mint, to: &mut TokenAccount, authority: &Pubkey, amount: u64) -> (done:
    Result<(), TokenError>)
    ensures
        match mint_to_spec(*old(mint), *old(to), *authority, amount) {
            Ok((m, t)) => {
                &&& done == Ok::<(), TokenError>(())
                &&& *final(mint) == m
                &&& *final(to) == t
            },
            Err(e) => {
                &&& done == Err::<(), TokenError>(e)
                &&& *final(mint) == *old(mint)
                &&& *final(to) == *old(to)
            },
        },
{
    if to.is_frozen {
        return Err(TokenError::AccountFrozen);
    }
    if to.is_native {
        return Err(TokenError::NativeNotSupported);
    }
    if to.mint != mint.key {
        return Err(TokenError::MintMismatch);
    }
    match mint.mint_authority {
        None => {
            return Err(TokenError::FixedSupply);
        },
        Some(holder) => {
            if holder != *authority {
                return Err(TokenError::OwnerMismatch);
            }
        },
    }
    if to.amount > u64::MAX - amount || mint.supply > u64::MAX - amount {
        return Err(TokenError::Overflow);
    }
    to.amount = to.amount + amount;
    mint.supply = mint.supply + amount;
    Ok(())
}

/// What `set_owner` does to the account, or why it refuses: a frozen account
/// does not change hands, and only the owner hands it over. With the owner
/// the delegate goes, and from a native account the close authority too.
pub open spec fn set_owner_spec(account: TokenAccount, authority: Pubkey, new_owner: Pubkey) -> Result<
    TokenAccount,
    TokenError,
> {
    if account.is_frozen {
        Err(TokenError::AccountFrozen)
    } else if account.owner != authority {
        Err(TokenError::OwnerMismatch)
    } else {
        Ok(
            TokenAccount {
                owner: new_owner,
                delegate: None,
                delegated_amount: 0,
                close_authority: if account.is_native {
                    None
                } else {
                    account.close_authority
                },
                ..account
            },
        )
    }
}

/// Hands the account over to `new_owner` on the word of its present owner.
pub fn set_owner(account: &mut TokenAccount, authority: &Pubkey, new_owner: Pubkey) -> (done:
    Result<(), TokenError>)
    ensures
        match set_owner_spec(*old(account), *authority, new_owner) {
            Ok(a) => done == Ok::<(), TokenError>(()) && *final(account) == a,
            Err(e) => done == Err::<(), TokenError>(e) && *final(account) == *old(account),
        },
{
    if account.is_frozen {
        return Err(TokenError::AccountFrozen);
    }
    if account.owner != *authority {
        return Err(TokenError::OwnerMismatch);
    }
    account.owner = new_owner;
    account.delegate = None;
    account.delegated_amount = 0;
    if account.is_native {
        account.close_authority = None;
    }
    Ok(())
}

/// Who may change the account's close authority: the close authority where
/// there is one, else the owner.
pub open spec fn closer(account: TokenAccount) -> Pubkey {
    match account.close_authority {
        Some(k) => k,
        None => account.owner,
    }
}

/// What `set_close_authority` does to the account, or why it refuses.
pub open spec fn set_close_authority_spec(
    account: TokenAccount,
    authority: Pubkey,
    new_authority: Option<Pubkey>,
) -> Result<TokenAccount, TokenError> {
    if account.is_frozen {
        Err(TokenError::AccountFrozen)
    } else if closer(account) != authority {
        Err(TokenError::OwnerMismatch)
    } else {
        Ok(TokenAccount { close_authority: new_authority, ..account })
    }
}

/// Names, or removes, the account's close authority on the word of the one who
/// holds that right now.
pub fn set_close_authority(
    account: &mut TokenAccount,
    authority: &Pubkey,
    new_authority: Option<Pubkey>,
) -> (done: Result<(), TokenError>)
    ensures
        match set_close_authority_spec(*old(account), *authority, new_authority) {
            Ok(a) => done == Ok::<(), TokenError>(()) && *final(account) == a,
            Err(e) => done == Err::<(), TokenError>(e) && *final(account) == *old(account),
        },
{
    if account.is_frozen {
        return Err(TokenError::AccountFrozen);
    }
    let holder = match account.close_authority {
        Some(k) => k,
        None => account.owner,
    };
    if holder != *authority {
        return Err(TokenError::OwnerMismatch);
    }
    account.close_authority = new_authority;
    Ok(())
}

} // verus!
