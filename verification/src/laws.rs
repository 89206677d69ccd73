use vstd::prelude::*;

use crate::account::{Account, RejectionReason, TxData};
use crate::engine::{receiver_before, spec_apply, spec_decision};

verus! {

/// Balances never go negative: an accepted transfer debits the sender only
/// after the funds check has passed, so the debit cannot underflow, and
/// every balance in the resulting store is still a nonnegative amount.
/// (Rejected transfers leave the store untouched; see the contract of
/// `handle_transaction`.)
pub proof fn lemma_balance_never_negative(tx: TxData, m: Map<Seq<char>, Account>)
    requires
        spec_decision(tx, m) is Ok,
    ensures
        m[tx.sender].balance - tx.amount >= 0,
        forall|k: Seq<char>| #[trigger] spec_apply(tx, m).contains_key(k) ==> spec_apply(
            tx,
            m,
        )[k].balance >= 0,
{
}

/// Conservation of value: an accepted transfer neither creates nor
/// destroys funds. The sender's and receiver's balances after it sum to
/// what they summed to before (a receiver created on demand starts from
/// zero), and no third account's balance moves at all.
pub proof fn lemma_conservation(tx: TxData, m: Map<Seq<char>, Account>)
    requires
        spec_decision(tx, m) is Ok,
        receiver_before(tx, m).balance + tx.amount <= u64::MAX,
    ensures
        spec_apply(tx, m)[tx.sender].balance + spec_apply(tx, m)[tx.receiver].balance
            == m[tx.sender].balance + receiver_before(tx, m).balance,
        forall|k: Seq<char>|
            k != tx.sender && k != tx.receiver && #[trigger] m.contains_key(k) ==> spec_apply(
                tx,
                m,
            )[k].balance == m[k].balance,
{
}

/// Sequence monotonicity: an accepted transfer advances the sender's
/// sequence by exactly 1 and leaves every other account's sequence where
/// it was — the receiver's included, a freshly created receiver keeping 0.
/// (Rejected transfers change no sequence at all: the contract of
/// `handle_transaction` leaves the store untouched on every rejection.)
pub proof fn lemma_sequence_monotonic(tx: TxData, m: Map<Seq<char>, Account>)
    requires
        spec_decision(tx, m) is Ok,
    ensures
        spec_apply(tx, m)[tx.sender].sequence == m[tx.sender].sequence + 1,
        spec_apply(tx, m)[tx.receiver].sequence == receiver_before(tx, m).sequence,
        forall|k: Seq<char>|
            k != tx.sender && #[trigger] spec_apply(tx, m).contains_key(k) ==> spec_apply(
                tx,
                m,
            )[k].sequence == (if m.contains_key(k) {
                m[k].sequence
            } else {
                0
            }),
{
}

/// The store state after a whole sequence of submissions, attempted in
/// order: an accepted transaction executes, a rejected one leaves the
/// store exactly as it was — the two outcomes the contract of
/// `handle_transaction` allows.
pub open spec fn spec_run(txs: Seq<TxData>, m: Map<Seq<char>, Account>) -> Map<Seq<char>, Account>
    decreases txs.len(),
{
    if txs.len() == 0 {
        m
    } else if spec_decision(txs.first(), m) is Ok {
        spec_run(txs.drop_first(), spec_apply(txs.first(), m))
    } else {
        spec_run(txs.drop_first(), m)
    }
}

/// No sequence of processed transactions ever drives an account's balance
/// below zero: every balance in the store is a nonnegative amount after
/// any run, however many submissions were accepted or rejected.
pub proof fn lemma_run_balance_never_negative(txs: Seq<TxData>, m: Map<Seq<char>, Account>)
    ensures
        forall|k: Seq<char>| #[trigger] spec_run(txs, m).contains_key(k) ==> spec_run(
            txs,
            m,
        )[k].balance >= 0,
{
}

/// Accounts are never deleted and their sequence numbers never move
/// backwards: across any run of submissions, an account present at the
/// start is still present, with a sequence at least what it was.
pub proof fn lemma_run_sequence_nondecreasing(
    txs: Seq<TxData>,
    m: Map<Seq<char>, Account>,
    k: Seq<char>,
)
    requires
        m.contains_key(k),
    ensures
        spec_run(txs, m).contains_key(k),
        spec_run(txs, m)[k].sequence >= m[k].sequence,
    decreases txs.len(),
{
    if txs.len() > 0 {
        if spec_decision(txs.first(), m) is Ok {
            lemma_run_sequence_nondecreasing(txs.drop_first(), spec_apply(txs.first(), m), k);
        } else {
            lemma_run_sequence_nondecreasing(txs.drop_first(), m, k);
        }
    }
}

/// Replay never succeeds: once a transaction has executed, submitting it
/// again (same sequence number) is always rejected — the sender's sequence
/// has moved past it.
pub proof fn lemma_replay_rejected(tx: TxData, m: Map<Seq<char>, Account>)
    requires
        spec_decision(tx, m) is Ok,
    ensures
        spec_decision(tx, spec_apply(tx, m)) is Err,
{
}

/// Replay of an executed transaction is rejected as `InvalidNonce`
/// whenever the sender still holds funds for it; the stale sequence
/// number, not the balance, is what refuses it. (Where the first transfer
/// drained the balance below the amount, the funds check fires first and
/// the rejection is `InsufficientFunds` instead.)
pub proof fn lemma_replay_invalid_nonce(tx: TxData, m: Map<Seq<char>, Account>)
    requires
        spec_decision(tx, m) is Ok,
        m[tx.sender].balance - tx.amount >= tx.amount,
    ensures
        spec_decision(tx, spec_apply(tx, m)) == Err::<(), RejectionReason>(
            RejectionReason::InvalidNonce,
        ),
{
}

} // verus!
