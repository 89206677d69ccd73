use vstd::prelude::*;

use crate::account::{Account, RejectionReason, Transaction, TxData};
use crate::store::AccountStore;

verus! {

/// The validator's decision on a transaction, given the sender's current
/// state. The checks run in this exact order, first failure wins: amount
/// nonzero, sender distinct from receiver, sufficient funds, sequence
/// number exactly one past the sender's. (Sender existence is the caller's
/// check; see [`spec_decision`].)
pub open spec fn spec_validate(tx: TxData, sender: Account) -> Result<(), RejectionReason> {
    if tx.amount == 0 {
        Err(RejectionReason::AmountIsZero)
    } else if tx.sender == tx.receiver {
        Err(RejectionReason::SenderIsReceiver)
    } else if sender.balance < tx.amount {
        Err(RejectionReason::InsufficientFunds)
    } else if tx.sequence != sender.sequence + 1 {
        Err(RejectionReason::InvalidNonce)
    } else {
        Ok(())
    }
}

/// The full decision against a store state: the sender-existence check
/// takes its place third in the order, between the identifier checks and
/// the funds check.
pub open spec fn spec_decision(tx: TxData, m: Map<Seq<char>, Account>) -> Result<
    (),
    RejectionReason,
> {
    if tx.amount == 0 {
        Err(RejectionReason::AmountIsZero)
    } else if tx.sender == tx.receiver {
        Err(RejectionReason::SenderIsReceiver)
    } else if !m.contains_key(tx.sender) {
        Err(RejectionReason::AccountNotFound)
    } else {
        spec_validate(tx, m[tx.sender])
    }
}

/// The receiver's state before the transfer: its stored account, or a
/// fresh zero account if it has never been seen.
pub open spec fn receiver_before(tx: TxData, m: Map<Seq<char>, Account>) -> Account {
    if m.contains_key(tx.receiver) {
        m[tx.receiver]
    } else {
        Account { balance: 0, sequence: 0 }
    }
}

/// The store state after an accepted transfer: the sender debited and its
/// sequence advanced by one, the receiver credited with its sequence left
/// untouched. Meaningful only where [`spec_decision`] accepts.
pub open spec fn spec_apply(tx: TxData, m: Map<Seq<char>, Account>) -> Map<Seq<char>, Account> {
    let sender = m[tx.sender];
    let receiver = receiver_before(tx, m);
    m.insert(
        tx.sender,
        Account {
            balance: (sender.balance - tx.amount) as u64,
            sequence: (sender.sequence + 1) as u64,
        },
    ).insert(
        tx.receiver,
        Account { balance: (receiver.balance + tx.amount) as u64, sequence: receiver.sequence },
    )
}

/// Pure validation of a transaction against the sender's current state;
/// mutates nothing. The sender's existence is the caller's check, made
/// against the store before this function is invoked.
pub fn validate(tx: &Transaction, sender_account: &Account) -> (r: Result<(), RejectionReason>)
    ensures
        r == spec_validate(tx@, *sender_account),
{
    if tx.amount == 0 {
        return Err(RejectionReason::AmountIsZero);
    }
    if tx.sender == tx.receiver {
        return Err(RejectionReason::SenderIsReceiver);
    }
    if sender_account.balance < tx.amount {
        return Err(RejectionReason::InsufficientFunds);
    }
    if !(tx.sequence >= 1 && sender_account.sequence == tx.sequence - 1) {
        return Err(RejectionReason::InvalidNonce);
    }
    Ok(())
}

/// Validate and execute one transaction against the store.
///
/// On acceptance the sender is debited and its sequence advanced, the
/// receiver is credited (created with balance 0 and sequence 0 first if
/// absent), and both entries are committed; on any rejection the store is
/// left exactly as it was. The result equals [`spec_decision`] on the
/// incoming state, so each rejection reason comes on exactly the inputs
/// the decision order names.
///
/// The one demand beyond a well-formed store is the machine limit: an
/// accepted transfer must not push the receiver's balance past `u64::MAX`.
pub fn handle_transaction(tx: &Transaction, accounts: &mut AccountStore) -> (r: Result<
    (),
    RejectionReason,
>)
    requires
        old(accounts).wf(),
        spec_decision(tx@, old(accounts)@) is Ok ==> receiver_before(tx@, old(accounts)@).balance
            + tx.amount <= u64::MAX,
    ensures
        final(accounts).wf(),
        r == spec_decision(tx@, old(accounts)@),
        r is Ok ==> final(accounts)@ == spec_apply(tx@, old(accounts)@),
        r is Err ==> final(accounts)@ == old(accounts)@,
{
    if tx.amount == 0 {
        return Err(RejectionReason::AmountIsZero);
    }
    if tx.sender == tx.receiver {
        return Err(RejectionReason::SenderIsReceiver);
    }
    let sender_account = match accounts.get(&tx.sender) {
        None => {
            return Err(RejectionReason::AccountNotFound);
        },
        Some(account) => account,
    };
    match validate(tx, &sender_account) {
        Err(reason) => {
            return Err(reason);
        },
        Ok(()) => {},
    }
    let receiver_account = accounts.get_or_default(&tx.receiver);
    let new_sender = Account {
        balance: sender_account.balance - tx.amount,
        sequence: sender_account.sequence + 1,
    };
    let new_receiver = Account {
        balance: receiver_account.balance + tx.amount,
        sequence: receiver_account.sequence,
    };
    accounts.upsert(tx.sender.clone(), new_sender);
    accounts.upsert(tx.receiver.clone(), new_receiver);
    Ok(())
}

} // verus!
