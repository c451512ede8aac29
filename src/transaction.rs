use crate::token::Address;
use std::collections::HashMap;
use vstd::prelude::*;

verus! {

broadcast use vstd::std_specs::hash::group_hash_axioms;

#[derive(Clone, Copy, Debug, PartialEq, Eq, Structural)]
pub enum TransactionError {
    NotFound,
    InvalidState,
    Unauthorized,
    ExecutionFailed,
}

/// The lifecycle of a multi-operation transaction.
#[derive(Clone, Copy, Debug, PartialEq, Eq, Structural)]
pub enum TransactionState {
    Draft,
    Pending,
    Executing,
    Completed,
    Failed,
    Cancelled,
    RolledBack,
}

#[derive(Clone, Copy, Debug, PartialEq, Eq, Structural)]
pub enum OperationType {
    NftMint,
    NftTransfer,
    MarketplaceList,
    PaymentTransfer,
}

/// One call a transaction bundles: which contract, which function, with what arguments.
#[derive(Debug)]
pub struct Operation {
    pub id: u64,
    pub operation_type: OperationType,
    pub target: Address,
    pub function: Vec<u8>,
    pub parameters: Vec<Vec<u8>>,
}

#[derive(Debug)]
pub struct Transaction {
    pub id: u64,
    pub creator: Address,
    pub operations: Vec<Operation>,
    pub state: TransactionState,
    /// Free-form key/value pairs, carried as given.
    pub metadata: Vec<(Vec<u8>, Vec<u8>)>,
}

pub struct TransactionsView {
    pub transactions: Map<u64, Transaction>,
    /// The last id handed out.
    pub counter: u64,
}

/// Operations may be added only while a transaction is a draft.
pub open spec fn accepts_operations(s: TransactionState) -> bool {
    s == TransactionState::Draft
}

/// A draft or pending transaction may run.
pub open spec fn may_execute(s: TransactionState) -> bool {
    s == TransactionState::Draft || s == TransactionState::Pending
}

/// Anything not yet completed may be cancelled.
pub open spec fn may_cancel(s: TransactionState) -> bool {
    s != TransactionState::Completed
}

/// The transactions recorded so far, by id.
pub struct Transactions {
    store: HashMap<u64, Transaction>,
    counter: u64,
}

impl View for Transactions {
    type V = TransactionsView;

    closed spec fn view(&self) -> TransactionsView {
        TransactionsView { transactions: self.store@, counter: self.counter }
    }
}

impl Transactions {
    pub fn new() -> (r: Transactions)
        ensures
            r@.transactions == Map::<u64, Transaction>::empty(),
            r@.counter == 0,
    {
        Transactions { store: HashMap::new(), counter: 0 }
    }

    /// Records a new draft under the next id and returns that id.
    pub fn create_transaction(
        &mut self,
        creator: Address,
        metadata: Vec<(Vec<u8>, Vec<u8>)>,
        operations: Vec<Operation>,
    ) -> (r: Result<u64, TransactionError>)
        ensures
            old(self)@.counter == u64::MAX ==> r == Err::<u64, TransactionError>(
                TransactionError::ExecutionFailed,
            ) && final(self)@ == old(self)@,
            old(self)@.counter < u64::MAX ==> {
                let id = (old(self)@.counter + 1) as u64;
                &&& r == Ok::<u64, TransactionError>(id)
                &&& final(self)@.counter == id
                &&& final(self)@.transactions == old(self)@.transactions.insert(
                    id,
                    Transaction {
                        id,
                        creator,
                        operations,
                        state: TransactionState::Draft,
                        metadata,
                    },
                )
            },
    {
        if self.counter == u64::MAX {
            return Err(TransactionError::ExecutionFailed);
        }
        let id = self.counter + 1;
        let tx = Transaction { id, creator, operations, state: TransactionState::Draft, metadata };
        self.store.insert(id, tx);
        self.counter = id;
        Ok(id)
    }

    /// Appends `operation` to a draft transaction.
    pub fn add_operation(&mut self, transaction_id: u64, operation: Operation) -> (r: Result<
        (),
        TransactionError,
    >)
        ensures
            final(self)@.counter == old(self)@.counter,
            !old(self)@.transactions.contains_key(transaction_id) ==> r == Err::<
                (),
                TransactionError,
            >(TransactionError::NotFound) && final(self)@ == old(self)@,
            old(self)@.transactions.contains_key(transaction_id) && !accepts_operations(
                old(self)@.transactions[transaction_id].state,
            ) ==> r == Err::<(), TransactionError>(TransactionError::InvalidState)
                && final(self)@ == old(self)@,
            old(self)@.transactions.contains_key(transaction_id) && accepts_operations(
                old(self)@.transactions[transaction_id].state,
            ) ==> {
                let before = old(self)@.transactions[transaction_id];
                let after = final(self)@.transactions[transaction_id];
                &&& r is Ok
                &&& final(self)@.transactions.dom() == old(self)@.transactions.dom()
                &&& forall|k: u64| #[trigger]
                    final(self)@.transactions.contains_key(k) && k != transaction_id
                        ==> final(self)@.transactions[k] == old(self)@.transactions[k]
                &&& after.operations@ == before.operations@.push(operation)
                &&& after.id == before.id
                &&& after.creator == before.creator
                &&& after.state == before.state
                &&& after.metadata == before.metadata
            },
    {
        let mut tx = match self.store.remove(&transaction_id) {
            Some(t) => t,
            None => {
                proof {
                    assert(self.store@ =~= old(self).store@);
                }
                return Err(TransactionError::NotFound);
            },
        };
        if tx.state != TransactionState::Draft {
            self.store.insert(transaction_id, tx);
            proof {
                assert(self.store@ =~= old(self).store@);
            }
            return Err(TransactionError::InvalidState);
        }
        tx.operations.push(operation);
        self.store.insert(transaction_id, tx);
        proof {
            assert(self.store@.dom() =~= old(self).store@.dom());
        }
        Ok(())
    }

    pub fn get_transaction(&self, id: u64) -> (r: Result<&Transaction, TransactionError>)
        ensures
            !self@.transactions.contains_key(id) ==> r is Err && r->Err_0
                == TransactionError::NotFound,
            self@.transactions.contains_key(id) ==> (r matches Ok(t) && *t
                == self@.transactions[id]),
    {
        match self.store.get(&id) {
            Some(t) => Ok(t),
            None => Err(TransactionError::NotFound),
        }
    }

    pub fn get_state(&self, id: u64) -> (r: Result<TransactionState, TransactionError>)
        ensures
            !self@.transactions.contains_key(id) ==> r == Err::<
                TransactionState,
                TransactionError,
            >(TransactionError::NotFound),
            self@.transactions.contains_key(id) ==> r == Ok::<TransactionState, TransactionError>(
                self@.transactions[id].state,
            ),
    {
        match self.store.get(&id) {
            Some(t) => Ok(t.state),
            None => Err(TransactionError::NotFound),
        }
    }

    /// Moves the state of a recorded transaction to `state`, keeping everything else.
    fn set_state(&mut self, id: u64, state: TransactionState)
        requires
            old(self)@.transactions.contains_key(id),
        ensures
            final(self)@.counter == old(self)@.counter,
            final(self)@.transactions == old(self)@.transactions.insert(
                id,
                Transaction { state, ..old(self)@.transactions[id] },
            ),
    {
        let mut tx = self.store.remove(&id).unwrap();
        tx.state = state;
        self.store.insert(id, tx);
        proof {
            assert(self.store@ =~= old(self).store@.insert(id, tx));
        }
    }

    /// Runs a draft or pending transaction to completion. The bundled calls are handed to no
    /// other contract here; the transaction passes through `Executing` to `Completed`.
    pub fn execute(&mut self, transaction_id: u64) -> (r: Result<(), TransactionError>)
        ensures
            final(self)@.counter == old(self)@.counter,
            !old(self)@.transactions.contains_key(transaction_id) ==> r == Err::<
                (),
                TransactionError,
            >(TransactionError::NotFound) && final(self)@ == old(self)@,
            old(self)@.transactions.contains_key(transaction_id) && !may_execute(
                old(self)@.transactions[transaction_id].state,
            ) ==> r == Err::<(), TransactionError>(TransactionError::InvalidState)
                && final(self)@ == old(self)@,
            old(self)@.transactions.contains_key(transaction_id) && may_execute(
                old(self)@.transactions[transaction_id].state,
            ) ==> r is Ok && final(self)@.transactions == old(self)@.transactions.insert(
                transaction_id,
                Transaction {
                    state: TransactionState::Completed,
                    ..old(self)@.transactions[transaction_id]
                },
            ),
    {
        let state = self.get_state(transaction_id)?;
        if !(state == TransactionState::Draft || state == TransactionState::Pending) {
            return Err(TransactionError::InvalidState);
        }
        self.set_state(transaction_id, TransactionState::Executing);
        self.set_state(transaction_id, TransactionState::Completed);
        proof {
            let m = old(self)@.transactions;
            let t = m[transaction_id];
            assert(m.insert(
                transaction_id,
                Transaction { state: TransactionState::Executing, ..t },
            ).insert(transaction_id, Transaction { state: TransactionState::Completed, ..t })
                =~= m.insert(transaction_id, Transaction { state: TransactionState::Completed, ..t }));
        }
        Ok(())
    }

    /// Cancels any transaction that has not completed.
    pub fn cancel(&mut self, transaction_id: u64) -> (r: Result<(), TransactionError>)
        ensures
            final(self)@.counter == old(self)@.counter,
            !old(self)@.transactions.contains_key(transaction_id) ==> r == Err::<
                (),
                TransactionError,
            >(TransactionError::NotFound) && final(self)@ == old(self)@,
            old(self)@.transactions.contains_key(transaction_id) && !may_cancel(
                old(self)@.transactions[transaction_id].state,
            ) ==> r == Err::<(), TransactionError>(TransactionError::InvalidState)
                && final(self)@ == old(self)@,
            old(self)@.transactions.contains_key(transaction_id) && may_cancel(
                old(self)@.transactions[transaction_id].state,
            ) ==> r is Ok && final(self)@.transactions == old(self)@.transactions.insert(
                transaction_id,
                Transaction {
                    state: TransactionState::Cancelled,
                    ..old(self)@.transactions[transaction_id]
                },
            ),
    {
        let state = self.get_state(transaction_id)?;
        if state == TransactionState::Completed {
            return Err(TransactionError::InvalidState);
        }
        self.set_state(transaction_id, TransactionState::Cancelled);
        Ok(())
    }
}

} // verus!
