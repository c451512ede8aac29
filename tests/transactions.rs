use nft_contract::transaction::{
    Operation, OperationType, TransactionError, TransactionState, Transactions,
};
use nft_contract::Address;

fn op(id: u64) -> Operation {
    Operation {
        id,
        operation_type: OperationType::NftTransfer,
        target: Address::new(9),
        function: b"transfer_from".to_vec(),
        parameters: vec![vec![1, 2, 3]],
    }
}

#[test]
fn transactions_lifecycle() {
    let mut txs = Transactions::new();
    let creator = Address::new(1);
    let id = txs.create_transaction(creator, Vec::new(), vec![op(1)]).unwrap();
    assert_eq!(id, 1);
    assert_eq!(txs.get_state(id), Ok(TransactionState::Draft));

    txs.add_operation(id, op(2)).unwrap();
    assert_eq!(txs.get_transaction(id).unwrap().operations.len(), 2);

    txs.execute(id).unwrap();
    assert_eq!(txs.get_state(id), Ok(TransactionState::Completed));
    assert_eq!(txs.add_operation(id, op(3)), Err(TransactionError::InvalidState));
    assert_eq!(txs.execute(id), Err(TransactionError::InvalidState));
    assert_eq!(txs.cancel(id), Err(TransactionError::InvalidState));
}

#[test]
fn transactions_cancel_and_missing() {
    let mut txs = Transactions::new();
    let a = txs.create_transaction(Address::new(1), Vec::new(), Vec::new()).unwrap();
    let b = txs.create_transaction(Address::new(2), vec![(b"k".to_vec(), b"v".to_vec())], Vec::new()).unwrap();
    assert_eq!((a, b), (1, 2));
    txs.cancel(a).unwrap();
    assert_eq!(txs.get_state(a), Ok(TransactionState::Cancelled));
    assert_eq!(txs.execute(a), Err(TransactionError::InvalidState));
    assert_eq!(txs.get_state(b), Ok(TransactionState::Draft));
    assert_eq!(txs.get_transaction(b).unwrap().metadata.len(), 1);
    assert_eq!(txs.get_state(99), Err(TransactionError::NotFound));
    assert_eq!(txs.cancel(99), Err(TransactionError::NotFound));
    assert_eq!(txs.add_operation(99, op(1)), Err(TransactionError::NotFound));
}
