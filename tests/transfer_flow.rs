use arb_transfer::address::{validate_address, Address};
use arb_transfer::error::TransferError;
use arb_transfer::transfer::{begin_transfer, Action, Event, Phase, Receipt, Summary, TransferFlow, TxRequest};

fn sender() -> Address {
    Address { bytes: [0x11; 20] }
}

fn recipient() -> Address {
    validate_address("0x742d35Cc6634C0532925a3b844Bc9e7595f0bEbb", "recipient").unwrap()
}

fn receipt() -> Receipt {
    Receipt { block_number: 42, gas_used: 21000, effective_gas_price: 100, success: true }
}

#[test]
fn full_transfer_runs_every_step() {
    let (mut flow, a) = TransferFlow::start(sender(), recipient(), 5, 30000);
    assert_eq!(a, Action::QueryBalance(sender()));
    assert_eq!(flow.step(Event::Balance(10_000_000)), Action::QueryGasPrice);
    assert_eq!(
        flow.step(Event::GasPrice(100)),
        Action::Submit(TxRequest { to: recipient(), value: 5, gas_limit: 30000 })
    );
    assert_eq!(flow.fee, 3_000_000);
    let hash = [7u8; 32];
    assert_eq!(flow.step(Event::Submitted(hash)), Action::AwaitReceipt(hash));
    assert_eq!(
        flow.step(Event::Confirmed(receipt())),
        Action::QueryFinalBalances(sender(), recipient())
    );
    assert_eq!(
        flow.step(Event::FinalBalances(7_899_995, 5)),
        Action::Finish(Summary {
            receipt: receipt(),
            actual_fee: Some(2_100_000),
            sender_balance: 7_899_995,
            recipient_balance: 5,
        })
    );
    assert_eq!(flow.phase, Phase::Done);
    assert_eq!(flow.step(Event::Balance(1)), Action::Ignore);
}

#[test]
fn insufficient_balance_stops_before_submission() {
    let (mut flow, _) = TransferFlow::start(sender(), recipient(), 5, 1);
    flow.step(Event::Balance(7));
    assert_eq!(
        flow.step(Event::GasPrice(3)),
        Action::Abort(TransferError::InsufficientFunds {
            amount: 5,
            gas_price: 3,
            gas_limit: 1,
            available: 7
        })
    );
    assert_eq!(flow.phase, Phase::Failed);
    assert_eq!(flow.step(Event::Submitted([0; 32])), Action::Ignore);
}

#[test]
fn exact_balance_proceeds() {
    let (mut flow, _) = TransferFlow::start(sender(), recipient(), 5, 1);
    flow.step(Event::Balance(10));
    assert_eq!(
        flow.step(Event::GasPrice(3)),
        Action::Submit(TxRequest { to: recipient(), value: 5, gas_limit: 1 })
    );
}

#[test]
fn fee_beyond_any_balance_is_insufficient() {
    let (mut flow, _) = TransferFlow::start(sender(), recipient(), 5, 30000);
    flow.step(Event::Balance(u128::MAX));
    assert_eq!(
        flow.step(Event::GasPrice(u128::MAX)),
        Action::Abort(TransferError::InsufficientFunds {
            amount: 5,
            gas_price: u128::MAX,
            gas_limit: 30000,
            available: u128::MAX
        })
    );
    assert_eq!(flow.phase, Phase::Failed);
}

#[test]
fn read_failure_is_an_rpc_error() {
    let (mut flow, _) = TransferFlow::start(sender(), recipient(), 5, 30000);
    assert_eq!(
        flow.step(Event::Failed("timeout".to_string())),
        Action::Abort(TransferError::RpcError { message: "timeout".to_string() })
    );
}

#[test]
fn rejected_submission_is_a_submission_error() {
    let (mut flow, _) = TransferFlow::start(sender(), recipient(), 5, 1);
    flow.step(Event::Balance(100));
    flow.step(Event::GasPrice(1));
    assert_eq!(
        flow.step(Event::Failed("nonce too low".to_string())),
        Action::Abort(TransferError::SubmissionError { message: "nonce too low".to_string() })
    );
}

#[test]
fn out_of_order_event_changes_nothing() {
    let (mut flow, _) = TransferFlow::start(sender(), recipient(), 5, 1);
    let before = flow;
    assert_eq!(flow.step(Event::GasPrice(1)), Action::Ignore);
    assert_eq!(flow, before);
}

#[test]
fn begin_checks_recipient_then_amount() {
    let r = begin_transfer(sender(), "0x1234", "0.001", 30000);
    assert!(matches!(r, Err(TransferError::InvalidAddress { .. })));
    let r = begin_transfer(sender(), "0x742d35Cc6634C0532925a3b844Bc9e7595f0bEbb", "lots", 30000);
    assert_eq!(r, Err(TransferError::InvalidAmount { text: "lots".to_string() }));
    let (flow, a) =
        begin_transfer(sender(), "0x742d35Cc6634C0532925a3b844Bc9e7595f0bEbb", "0.001", 30000).unwrap();
    assert_eq!(flow.amount, 1_000_000_000_000_000);
    assert_eq!(flow.to, recipient());
    assert_eq!(a, Action::QueryBalance(sender()));
}
