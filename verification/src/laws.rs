//! Laws of the ledger, proved of the execution rules.

use vstd::prelude::*;
use crate::error::Error;
use crate::keys::ContentHash;
use crate::keys::PublicKey;
use crate::ledger::LedgerView;
use crate::ledger::Recorded;
use crate::operations::Cancellation;
use crate::operations::CreateWallet;
use crate::operations::Issue;
use crate::operations::MailAcceptance;
use crate::operations::MailPreparation;
use crate::operations::Operation;
use crate::operations::Transfer;
use crate::operations::TRANSFER_TAG;
use crate::wallet::Wallet;

verus! {

/// A transfer that succeeds keeps the ledger well-formed and the total value
/// as it was. Between two wallets it moves exactly the amount from the
/// sender's spendable funds to the receiver's; from a wallet to itself it
/// moves nothing. Frozen funds and all other wallets stay as they are, and
/// the transfer is found in the log under its hash if that hash was free.
pub proof fn lemma_transfer_effect(
    transfer: Transfer,
    ledger: LedgerView,
    hash: ContentHash,
    other: PublicKey,
)
    requires
        ledger.wf(),
        transfer.spec_fits(ledger),
        transfer.spec_failure(ledger) is None,
    ensures
        transfer.spec_applied(ledger, hash).wf(),
        transfer.spec_applied(ledger, hash).total_value() == ledger.total_value(),
        transfer.spec_applied(ledger, hash).has_wallet(other) == ledger.has_wallet(other),
        transfer.spec_applied(ledger, hash).has_operation(hash),
        !ledger.has_operation(hash) ==> transfer.spec_applied(ledger, hash).operation(hash)
            == Operation::Transfer(transfer),
        transfer.from != transfer.to ==> transfer.spec_applied(ledger, hash).wallet(
            transfer.from,
        ).balance == ledger.wallet(transfer.from).balance - transfer.amount,
        transfer.from != transfer.to ==> transfer.spec_applied(ledger, hash).wallet(
            transfer.to,
        ).balance == ledger.wallet(transfer.to).balance + transfer.amount,
        transfer.from == transfer.to ==> transfer.spec_applied(ledger, hash).wallet(
            transfer.from,
        ).balance == ledger.wallet(transfer.from).balance,
        transfer.spec_applied(ledger, hash).wallet(transfer.from).history_hash == hash,
        transfer.spec_applied(ledger, hash).wallet(transfer.to).history_hash == hash,
        transfer.spec_applied(ledger, hash).wallet(transfer.from).freezed_balance == ledger.wallet(
            transfer.from,
        ).freezed_balance,
        transfer.spec_applied(ledger, hash).wallet(transfer.to).freezed_balance == ledger.wallet(
            transfer.to,
        ).freezed_balance,
        ledger.has_wallet(other) && other != transfer.from && other != transfer.to
            ==> transfer.spec_applied(ledger, hash).wallet(other) == ledger.wallet(other),
{
    let debited = ledger.debited(transfer.from, transfer.amount, hash, 0);
    ledger.lemma_debited(transfer.from, transfer.amount, hash, 0);
    let credited = debited.credited(transfer.to, transfer.amount, hash);
    debited.lemma_credited(transfer.to, transfer.amount, hash);
    credited.lemma_recorded(hash, Operation::Transfer(transfer));
}

/// Undoing a transfer that can be undone keeps the ledger well-formed and the
/// total value as it was. Between two wallets it moves exactly the amount
/// from the receiver's spendable funds back to the sender's; for a transfer
/// from a wallet to itself it moves nothing. All other wallets and the log
/// stay as they are.
pub proof fn lemma_reversal_effect(
    transfer: Transfer,
    ledger: LedgerView,
    hash: ContentHash,
    other: PublicKey,
)
    requires
        ledger.wf(),
        transfer.spec_reversal_fits(ledger),
        transfer.spec_reversal_failure(ledger) is None,
    ensures
        transfer.spec_reversed(ledger, hash).wf(),
        transfer.spec_reversed(ledger, hash).total_value() == ledger.total_value(),
        transfer.spec_reversed(ledger, hash).operations == ledger.operations,
        transfer.spec_reversed(ledger, hash).has_wallet(other) == ledger.has_wallet(other),
        transfer.from != transfer.to ==> transfer.spec_reversed(ledger, hash).wallet(
            transfer.from,
        ).balance == ledger.wallet(transfer.from).balance + transfer.amount,
        transfer.from != transfer.to ==> transfer.spec_reversed(ledger, hash).wallet(
            transfer.to,
        ).balance == ledger.wallet(transfer.to).balance - transfer.amount,
        transfer.from == transfer.to ==> transfer.spec_reversed(ledger, hash).wallet(
            transfer.from,
        ).balance == ledger.wallet(transfer.from).balance,
        transfer.spec_reversed(ledger, hash).wallet(transfer.from).history_hash == hash,
        transfer.spec_reversed(ledger, hash).wallet(transfer.to).history_hash == hash,
        ledger.has_wallet(other) && other != transfer.from && other != transfer.to
            ==> transfer.spec_reversed(ledger, hash).wallet(other) == ledger.wallet(other),
{
    let debited = ledger.debited(transfer.to, transfer.amount, hash, 0);
    ledger.lemma_debited(transfer.to, transfer.amount, hash, 0);
    debited.lemma_credited(transfer.from, transfer.amount, hash);
}

/// A freeze that succeeds moves exactly the amount from the owner's spendable
/// funds to its frozen funds: the owner holds as much as before, and so does
/// the ledger. All other wallets stay as they are.
pub proof fn lemma_freeze_effect(
    freeze: MailPreparation,
    ledger: LedgerView,
    hash: ContentHash,
    other: PublicKey,
)
    requires
        ledger.wf(),
        freeze.spec_fits(ledger),
        freeze.spec_failure(ledger) is None,
    ensures
        freeze.spec_applied(ledger, hash).wf(),
        freeze.spec_applied(ledger, hash).total_value() == ledger.total_value(),
        freeze.spec_applied(ledger, hash).has_wallet(other) == ledger.has_wallet(other),
        freeze.spec_applied(ledger, hash).has_operation(hash),
        freeze.spec_applied(ledger, hash).wallet(freeze.pub_key).balance == ledger.wallet(
            freeze.pub_key,
        ).balance - freeze.amount,
        freeze.amount != 0 ==> freeze.spec_applied(ledger, hash).wallet(
            freeze.pub_key,
        ).freezed_balance == ledger.wallet(freeze.pub_key).freezed_balance + freeze.amount,
        freeze.amount != 0 ==> freeze.spec_applied(ledger, hash).wallet(freeze.pub_key).freeze_tag
            == freeze.amount,
        freeze.spec_applied(ledger, hash).wallet(freeze.pub_key).holdings() == ledger.wallet(
            freeze.pub_key,
        ).holdings(),
        freeze.spec_applied(ledger, hash).wallet(freeze.pub_key).history_hash == hash,
        ledger.has_wallet(other) && other != freeze.pub_key ==> freeze.spec_applied(
            ledger,
            hash,
        ).wallet(other) == ledger.wallet(other),
{
    let debited = ledger.debited(freeze.pub_key, freeze.amount, hash, freeze.amount);
    ledger.lemma_debited(freeze.pub_key, freeze.amount, hash, freeze.amount);
    debited.lemma_recorded(hash, Operation::MailPreparation(freeze));
}

/// A release that succeeds moves no funds: the wallet it names keeps its
/// spendable and its frozen funds and has the release as the operation that
/// touched it last. All other wallets stay as they are.
pub proof fn lemma_release_effect(
    release: MailAcceptance,
    ledger: LedgerView,
    hash: ContentHash,
    other: PublicKey,
)
    requires
        ledger.wf(),
        release.spec_failure(ledger) is None,
    ensures
        release.spec_applied(ledger, hash).wf(),
        release.spec_applied(ledger, hash).total_value() == ledger.total_value(),
        release.spec_applied(ledger, hash).has_wallet(other) == ledger.has_wallet(other),
        release.spec_applied(ledger, hash).has_operation(hash),
        release.spec_applied(ledger, hash).wallet(release.sender).balance == ledger.wallet(
            release.sender,
        ).balance,
        release.spec_applied(ledger, hash).wallet(release.sender).freezed_balance == ledger.wallet(
            release.sender,
        ).freezed_balance,
        release.spec_applied(ledger, hash).wallet(release.sender).history_hash == hash,
        ledger.has_wallet(other) && other != release.sender ==> release.spec_applied(
            ledger,
            hash,
        ).wallet(other) == ledger.wallet(other),
{
    let debited = ledger.debited(release.sender, 0, hash, 0);
    ledger.lemma_debited(release.sender, 0, hash, 0);
    let credited = debited.credited(release.sender, 0, hash);
    debited.lemma_credited(release.sender, 0, hash);
    credited.lemma_recorded(hash, Operation::MailAcceptance(release));
}

/// An issue that succeeds adds exactly the amount to the receiver's spendable
/// funds and to the total value. All other wallets stay as they are.
pub proof fn lemma_issue_effect(
    issue: Issue,
    ledger: LedgerView,
    hash: ContentHash,
    other: PublicKey,
)
    requires
        ledger.wf(),
        issue.spec_fits(ledger),
        issue.spec_failure(ledger) is None,
    ensures
        issue.spec_applied(ledger, hash).wf(),
        issue.spec_applied(ledger, hash).total_value() == ledger.total_value() + issue.amount,
        issue.spec_applied(ledger, hash).has_wallet(other) == ledger.has_wallet(other),
        issue.spec_applied(ledger, hash).has_operation(hash),
        issue.spec_applied(ledger, hash).wallet(issue.pub_key).balance == ledger.wallet(
            issue.pub_key,
        ).balance + issue.amount,
        issue.spec_applied(ledger, hash).wallet(issue.pub_key).freezed_balance == ledger.wallet(
            issue.pub_key,
        ).freezed_balance,
        issue.spec_applied(ledger, hash).wallet(issue.pub_key).history_hash == hash,
        ledger.has_wallet(other) && other != issue.pub_key ==> issue.spec_applied(
            ledger,
            hash,
        ).wallet(other) == ledger.wallet(other),
{
    let credited = ledger.credited(issue.pub_key, issue.amount, hash);
    ledger.lemma_credited(issue.pub_key, issue.amount, hash);
    credited.lemma_recorded(hash, Operation::Issue(issue));
}

/// A creation that succeeds adds one wallet, found under its key with no
/// funds. All other wallets and the total value stay as they are.
pub proof fn lemma_creation_effect(
    creation: CreateWallet,
    ledger: LedgerView,
    hash: ContentHash,
    other: PublicKey,
)
    requires
        ledger.wf(),
        creation.spec_failure(ledger) is None,
    ensures
        creation.spec_applied(ledger, hash).wf(),
        creation.spec_applied(ledger, hash).total_value() == ledger.total_value(),
        creation.spec_applied(ledger, hash).has_operation(hash),
        creation.spec_applied(ledger, hash).has_wallet(creation.pub_key),
        creation.spec_applied(ledger, hash).wallet(creation.pub_key) == Wallet::opened(
            creation.pub_key,
            creation.name,
            hash,
        ),
        other != creation.pub_key ==> creation.spec_applied(ledger, hash).has_wallet(other)
            == ledger.has_wallet(other),
        ledger.has_wallet(other) ==> creation.spec_applied(ledger, hash).wallet(other)
            == ledger.wallet(other),
{
    let opened = Wallet::opened(creation.pub_key, creation.name, hash);
    ledger.lemma_inserted(opened);
    ledger.inserted(opened).lemma_recorded(hash, Operation::CreateWallet(creation));
}

/// Only an issue changes the total value: executing any other operation,
/// whether it succeeds or fails, leaves the ledger well-formed and holding
/// exactly what it held.
pub proof fn lemma_value_changes_only_by_issue(
    operation: Operation,
    ledger: LedgerView,
    hash: ContentHash,
)
    requires
        ledger.wf(),
        operation.spec_executable_on(ledger),
        !(operation is Issue),
    ensures
        operation.spec_execute(ledger, hash).wf(),
        operation.spec_execute(ledger, hash).total_value() == ledger.total_value(),
{
    if operation.spec_failure(ledger) is None {
        match operation {
            Operation::Transfer(op) => {
                lemma_transfer_effect(op, ledger, hash, op.from);
            },
            Operation::Issue(op) => {},
            Operation::CreateWallet(op) => {
                lemma_creation_effect(op, ledger, hash, op.pub_key);
            },
            Operation::MailPreparation(op) => {
                lemma_freeze_effect(op, ledger, hash, op.pub_key);
            },
            Operation::MailAcceptance(op) => {
                lemma_release_effect(op, ledger, hash, op.sender);
            },
            Operation::Cancellation(op) => {
                if op.type_transaction == TRANSFER_TAG {
                    let transfer = ledger.operation(op.tx_hash)->Transfer_0;
                    lemma_reversal_effect(transfer, ledger, hash, transfer.from);
                    transfer.spec_reversed(ledger, hash).lemma_recorded(
                        hash,
                        Operation::Cancellation(op),
                    );
                } else {
                    ledger.lemma_recorded(hash, Operation::Cancellation(op));
                }
            },
        }
    }
}

/// Whether the operation is a transfer, a freeze or a release.
pub open spec fn moves_funds_only(operation: Operation) -> bool {
    operation is Transfer || operation is MailPreparation || operation is MailAcceptance
}

/// The ledger after the entries were executed on it in order, each under its
/// hash. An entry that fails leaves the ledger as it was.
pub open spec fn run(ledger: LedgerView, entries: Seq<Recorded>) -> LedgerView
    decreases entries.len(),
{
    if entries.len() == 0 {
        ledger
    } else {
        entries.last().operation.spec_execute(run(ledger, entries.drop_last()), entries.last().hash)
    }
}

/// Whether the entries can be executed in order, starting from the ledger:
/// each is executable on the ledger that the entries before it leave.
pub open spec fn runnable(ledger: LedgerView, entries: Seq<Recorded>) -> bool
    decreases entries.len(),
{
    entries.len() == 0 || (runnable(ledger, entries.drop_last())
        && entries.last().operation.spec_executable_on(run(ledger, entries.drop_last())))
}

/// Executing any operation, whether it succeeds or fails, keeps the ledger
/// well-formed. The total value rises by the amount of an issue that
/// succeeds and stays as it was in every other case.
pub proof fn lemma_execute_keeps_ledger_well_formed(
    operation: Operation,
    ledger: LedgerView,
    hash: ContentHash,
)
    requires
        ledger.wf(),
        operation.spec_executable_on(ledger),
    ensures
        operation.spec_execute(ledger, hash).wf(),
        operation is Issue && operation.spec_failure(ledger) is None ==> operation.spec_execute(
            ledger,
            hash,
        ).total_value() == ledger.total_value() + operation->Issue_0.amount,
        !(operation is Issue) || operation.spec_failure(ledger) is Some
            ==> operation.spec_execute(ledger, hash).total_value() == ledger.total_value(),
{
    match operation {
        Operation::Issue(issue) => {
            if issue.spec_failure(ledger) is None {
                lemma_issue_effect(issue, ledger, hash, issue.pub_key);
            }
        },
        _ => {
            lemma_value_changes_only_by_issue(operation, ledger, hash);
        },
    }
}

/// Balances stay within bounds: whatever sequence of executable operations
/// runs, the ledger stays well-formed, and every wallet's spendable and
/// frozen funds are amounts between zero and `u64::MAX` that together do not
/// exceed the total value.
pub proof fn lemma_run_keeps_ledger_well_formed(
    ledger: LedgerView,
    entries: Seq<Recorded>,
    key: PublicKey,
)
    requires
        ledger.wf(),
        runnable(ledger, entries),
    ensures
        run(ledger, entries).wf(),
        run(ledger, entries).has_wallet(key) ==> 0 <= run(ledger, entries).wallet(key).balance
            <= u64::MAX,
        run(ledger, entries).has_wallet(key) ==> 0 <= run(ledger, entries).wallet(
            key,
        ).freezed_balance <= u64::MAX,
        run(ledger, entries).has_wallet(key) ==> run(ledger, entries).wallet(key).balance + run(
            ledger,
            entries,
        ).wallet(key).freezed_balance <= run(ledger, entries).total_value(),
    decreases entries.len(),
{
    if entries.len() > 0 {
        lemma_run_keeps_ledger_well_formed(ledger, entries.drop_last(), key);
        lemma_execute_keeps_ledger_well_formed(
            entries.last().operation,
            run(ledger, entries.drop_last()),
            entries.last().hash,
        );
    }
    if run(ledger, entries).has_wallet(key) {
        run(ledger, entries).lemma_wallet_bounds(key);
    }
}

/// Value changes only by issue: whatever sequence of executable operations
/// runs, if none of them is an issue, the total value is after it what it was
/// before.
pub proof fn lemma_value_conserved_without_issue(ledger: LedgerView, entries: Seq<Recorded>)
    requires
        ledger.wf(),
        runnable(ledger, entries),
        forall|i: int| 0 <= i < entries.len() ==> !((#[trigger] entries[i]).operation is Issue),
    ensures
        run(ledger, entries).wf(),
        run(ledger, entries).total_value() == ledger.total_value(),
    decreases entries.len(),
{
    if entries.len() > 0 {
        let earlier = entries.drop_last();
        assert forall|i: int| 0 <= i < earlier.len() implies !((
        #[trigger] earlier[i]).operation is Issue) by {
            assert(earlier[i] == entries[i]);
        }
        lemma_value_conserved_without_issue(ledger, earlier);
        assert(!(entries[entries.len() - 1].operation is Issue));
        lemma_value_changes_only_by_issue(
            entries.last().operation,
            run(ledger, earlier),
            entries.last().hash,
        );
    }
}

/// Conservation: whatever sequence of transfers, freezes and releases is
/// executed, the sum of spendable and frozen funds over all wallets is after
/// it what it was before.
pub proof fn lemma_conservation(ledger: LedgerView, entries: Seq<Recorded>)
    requires
        ledger.wf(),
        runnable(ledger, entries),
        forall|i: int| 0 <= i < entries.len() ==> moves_funds_only(#[trigger] entries[i].operation),
    ensures
        run(ledger, entries).wf(),
        run(ledger, entries).total_value() == ledger.total_value(),
{
    assert forall|i: int| 0 <= i < entries.len() implies !((
    #[trigger] entries[i]).operation is Issue) by {
        assert(moves_funds_only(entries[i].operation));
    }
    lemma_value_conserved_without_issue(ledger, entries);
}

/// No overdraft by transfer: a transfer between existing wallets that asks
/// for more than the sender has to spend fails for want of funds, and the
/// ledger stays exactly as it was.
pub proof fn lemma_transfer_overdraft_rejected(
    transfer: Transfer,
    ledger: LedgerView,
    hash: ContentHash,
)
    requires
        ledger.has_wallet(transfer.from),
        ledger.has_wallet(transfer.to),
        ledger.wallet(transfer.from).balance < transfer.amount,
    ensures
        transfer.spec_failure(ledger) == Some(Error::InsufficientCurrencyAmount),
        Operation::Transfer(transfer).spec_execute(ledger, hash) == ledger,
{
}

/// No overdraft by freeze: a freeze that asks for more than the owner has to
/// spend fails for want of funds, and the ledger stays exactly as it was.
pub proof fn lemma_freeze_overdraft_rejected(
    freeze: MailPreparation,
    ledger: LedgerView,
    hash: ContentHash,
)
    requires
        ledger.has_wallet(freeze.pub_key),
        ledger.wallet(freeze.pub_key).balance < freeze.amount,
    ensures
        freeze.spec_failure(ledger) == Some(Error::InsufficientCurrencyAmount),
        Operation::MailPreparation(freeze).spec_execute(ledger, hash) == ledger,
{
}

/// Failure is atomic: an operation that fails, for whatever reason, leaves
/// the ledger exactly as it was.
pub proof fn lemma_failure_changes_nothing(
    operation: Operation,
    ledger: LedgerView,
    hash: ContentHash,
)
    requires
        operation.spec_failure(ledger) is Some,
    ensures
        operation.spec_execute(ledger, hash) == ledger,
{
}

/// Lookup after recording: an operation recorded under a hash is the one
/// found under that hash afterwards, unless the log already held another
/// operation under it, which then stays.
pub proof fn lemma_fetch_after_record(ledger: LedgerView, hash: ContentHash, operation: Operation)
    requires
        ledger.wf(),
        ledger.has_operation(hash) ==> ledger.operation(hash) == operation,
    ensures
        ledger.recorded(hash, operation).has_operation(hash),
        ledger.recorded(hash, operation).operation(hash) == operation,
        ledger.recorded(hash, operation).recorded(hash, operation) == ledger.recorded(
            hash,
            operation,
        ),
{
    ledger.lemma_recorded(hash, operation);
}

/// Reversal safety: undoing a recorded transfer, while the receiver still has
/// the amount to spend, succeeds, gives the sender the amount back and notes
/// the reversal against both wallets. If the receiver has less than the
/// amount, the reversal fails for want of funds and the ledger stays exactly
/// as it was.
pub proof fn lemma_reversal_at_any_time(
    reversal: Cancellation,
    ledger: LedgerView,
    hash: ContentHash,
)
    requires
        ledger.wf(),
        reversal.type_transaction == TRANSFER_TAG,
        ledger.has_operation(reversal.tx_hash),
        ledger.operation(reversal.tx_hash) is Transfer,
        ledger.has_wallet((ledger.operation(reversal.tx_hash)->Transfer_0).from),
        ledger.has_wallet((ledger.operation(reversal.tx_hash)->Transfer_0).to),
        reversal.spec_fits(ledger),
    ensures
        ({
            let original = ledger.operation(reversal.tx_hash)->Transfer_0;
            let after = reversal.spec_applied(ledger, hash);
            &&& ledger.wallet(original.to).balance < original.amount ==> {
                &&& reversal.spec_failure(ledger) == Some(Error::InsufficientCurrencyAmount)
                &&& Operation::Cancellation(reversal).spec_execute(ledger, hash) == ledger
            }
            &&& ledger.wallet(original.to).balance >= original.amount ==> {
                &&& reversal.spec_failure(ledger) is None
                &&& after.wf()
                &&& after.total_value() == ledger.total_value()
                &&& after.has_wallet(original.from)
                &&& after.has_wallet(original.to)
                &&& after.wallet(original.from).history_hash == hash
                &&& after.wallet(original.to).history_hash == hash
                &&& original.from != original.to ==> {
                    &&& after.wallet(original.from).balance == ledger.wallet(original.from).balance
                        + original.amount
                    &&& after.wallet(original.to).balance == ledger.wallet(original.to).balance
                        - original.amount
                }
                &&& original.from == original.to ==> after.wallet(original.from).balance
                    == ledger.wallet(original.from).balance
            }
        }),
{
    let original = ledger.operation(reversal.tx_hash)->Transfer_0;
    if ledger.wallet(original.to).balance >= original.amount {
        lemma_reversal_effect(original, ledger, hash, original.from);
        lemma_reversal_effect(original, ledger, hash, original.to);
        original.spec_reversed(ledger, hash).lemma_recorded(
            hash,
            Operation::Cancellation(reversal),
        );
    }
}

/// Reversal restores: a transfer that succeeds and is then undone, with
/// nothing in between, leaves the sender's and the receiver's spendable funds
/// as they were before the transfer.
pub proof fn lemma_reversal_restores_balances(
    transfer: Transfer,
    transfer_hash: ContentHash,
    reversal: Cancellation,
    reversal_hash: ContentHash,
    ledger: LedgerView,
)
    requires
        ledger.wf(),
        !ledger.has_operation(transfer_hash),
        transfer.spec_fits(ledger),
        transfer.spec_failure(ledger) is None,
        reversal.tx_hash == transfer_hash,
        reversal.type_transaction == TRANSFER_TAG,
    ensures
        ({
            let between = transfer.spec_applied(ledger, transfer_hash);
            let after = reversal.spec_applied(between, reversal_hash);
            &&& reversal.spec_well_tagged(between)
            &&& reversal.spec_fits(between)
            &&& reversal.spec_failure(between) is None
            &&& after.wf()
            &&& after.total_value() == ledger.total_value()
            &&& after.has_wallet(transfer.from)
            &&& after.has_wallet(transfer.to)
            &&& after.wallet(transfer.from).balance == ledger.wallet(transfer.from).balance
            &&& after.wallet(transfer.to).balance == ledger.wallet(transfer.to).balance
        }),
{
    let between = transfer.spec_applied(ledger, transfer_hash);
    lemma_transfer_effect(transfer, ledger, transfer_hash, transfer.from);
    lemma_transfer_effect(transfer, ledger, transfer_hash, transfer.to);
    lemma_reversal_at_any_time(reversal, between, reversal_hash);
}

/// Self-transfer rejection: a transfer from a wallet to itself fails
/// validation, whatever its signature and the balances are.
pub proof fn lemma_self_transfer_rejected(transfer: Transfer, signature_valid: bool)
    requires
        transfer.from == transfer.to,
    ensures
        !transfer.spec_verify(signature_valid),
        !Operation::Transfer(transfer).spec_verify(signature_valid),
{
}

} // verus!
