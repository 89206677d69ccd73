use vstd::prelude::*;

verus! {

/// A single party's state: its funds and its outgoing-transfer counter.
///
/// `sequence` counts the transfers this account has successfully sent; it
/// starts at 0 and grows by exactly 1 per accepted outgoing transfer.
#[derive(Clone, Copy, PartialEq, Eq, Structural, Debug)]
pub struct Account {
    pub balance: u64,
    pub sequence: u64,
}

impl Default for Account {
    /// The state of a freshly created account: no funds, no sends yet.
    fn default() -> (r: Account)
        ensures
            r == (Account { balance: 0, sequence: 0 }),
    {
        Account { balance: 0, sequence: 0 }
    }
}

/// An immutable transfer request: move `amount` from `sender` to `receiver`,
/// claiming to be the sender's transfer number `sequence`.
#[derive(Clone, Debug)]
pub struct Transaction {
    pub sender: String,
    pub receiver: String,
    pub amount: u64,
    pub sequence: u64,
}

/// The mathematical content of a [`Transaction`]: identifiers as character
/// sequences, the two counters as machine integers.
pub ghost struct TxData {
    pub sender: Seq<char>,
    pub receiver: Seq<char>,
    pub amount: u64,
    pub sequence: u64,
}

impl View for Transaction {
    type V = TxData;

    open spec fn view(&self) -> TxData {
        TxData {
            sender: self.sender@,
            receiver: self.receiver@,
            amount: self.amount,
            sequence: self.sequence,
        }
    }
}

/// Why a transaction was refused. Every refusal is an expected, non-fatal
/// outcome: nothing in the ledger aborts the process.
#[derive(Clone, Copy, PartialEq, Eq, Structural, Debug)]
pub enum RejectionReason {
    /// The transfer amount was zero.
    AmountIsZero,
    /// Sender and receiver identifiers are identical.
    SenderIsReceiver,
    /// The sender identifier has no account in the store.
    AccountNotFound,
    /// The sender's balance is below the requested amount.
    InsufficientFunds,
    /// The submitted sequence number is not the sender's current sequence + 1.
    InvalidNonce,
}

} // verus!
