//! The Byron phase-1 rule engine: the fixed pipeline of predicates a
//! transaction must satisfy before it may spend from the UTxO view, each
//! specified as a total function over the mathematical views and proved
//! against its executable form.

use vstd::prelude::*;

use crate::types::AnnotatedTx;
use crate::types::ProtocolParams;
use crate::types::Tx;
use crate::types::TxInput;
use crate::types::TxInputV;
use crate::types::TxOutput;
use crate::types::TxOutputV;
use crate::types::TxV;
use crate::types::ValidationError;
use crate::types::ValidationResult;
use crate::types::Witnesses;
use crate::types::WitnessV;
use crate::types::witnesses_view;
use crate::utxos::spec_normalize;
use crate::utxos::to_utxo_tx_in;
use crate::utxos::UTxOKey;
use crate::utxos::UTxOs;

verus! {

/// The fee a transaction of the given serialized size owes:
/// `minimum_fee_constant + minimum_fee_factor * size`.
pub open spec fn spec_expected_fees(pps: ProtocolParams, tx_size: u64) -> int {
    pps.minimum_fee_constant + pps.minimum_fee_factor * tx_size
}

/// Saturates a fee figure into 64 bits for diagnostics: negative figures
/// report as zero, oversized ones as the largest representable fee.
pub open spec fn fee_clip(x: int) -> u64 {
    if x < 0 {
        0u64
    } else if x > u64::MAX {
        u64::MAX
    } else {
        x as u64
    }
}

/// The lovelace the given input draws from the UTxO view; zero when the
/// input has no canonical key or its key is absent.
pub open spec fn spec_input_amount(txin: TxInputV, utxos: Map<UTxOKey, TxOutputV>) -> int {
    match spec_normalize(txin) {
        Some(k) => if utxos.contains_key(k) {
            utxos[k].amount as int
        } else {
            0
        },
        None => 0,
    }
}

/// Total lovelace the inputs draw from the UTxO view.
pub open spec fn spec_input_balance(ins: Seq<TxInputV>, utxos: Map<UTxOKey, TxOutputV>) -> int
    decreases ins.len(),
{
    if ins.len() == 0 {
        0
    } else {
        spec_input_amount(ins[0], utxos) + spec_input_balance(ins.drop_first(), utxos)
    }
}

/// Total lovelace the outputs create.
pub open spec fn spec_output_balance(outs: Seq<TxOutputV>) -> int
    decreases outs.len(),
{
    if outs.len() == 0 {
        0
    } else {
        outs[0].amount + spec_output_balance(outs.drop_first())
    }
}

/// The fee the transaction pays: input balance minus output balance.
/// Negative exactly when the outputs create more than the inputs draw.
pub open spec fn spec_paid_fees(tx: TxV, utxos: Map<UTxOKey, TxOutputV>) -> int {
    spec_input_balance(tx.inputs, utxos) - spec_output_balance(tx.outputs)
}

/// The input sequence must be non-empty.
pub open spec fn spec_check_ins_not_empty(tx: TxV) -> ValidationResult {
    if tx.inputs.len() == 0 {
        Err(ValidationError::TxInsEmpty)
    } else {
        Ok(())
    }
}

/// Every input, in sequence order, must normalize to a canonical key that
/// the UTxO view resolves; the first offender decides the verdict.
pub open spec fn spec_check_ins_in_utxos(
    ins: Seq<TxInputV>,
    utxos: Map<UTxOKey, TxOutputV>,
) -> ValidationResult
    decreases ins.len(),
{
    if ins.len() == 0 {
        Ok(())
    } else {
        match spec_normalize(ins[0]) {
            None => Err(ValidationError::IllFormedInput),
            Some(k) => if !utxos.contains_key(k) {
                Err(ValidationError::InputNotUTxO)
            } else {
                spec_check_ins_in_utxos(ins.drop_first(), utxos)
            },
        }
    }
}

/// The output sequence must be non-empty.
pub open spec fn spec_check_outs_not_empty(tx: TxV) -> ValidationResult {
    if tx.outputs.len() == 0 {
        Err(ValidationError::TxOutsEmpty)
    } else {
        Ok(())
    }
}

/// Every output must carry a strictly positive lovelace amount.
pub open spec fn spec_check_outs_have_lovelace(outs: Seq<TxOutputV>) -> ValidationResult {
    if exists|i: int| 0 <= i < outs.len() && outs[i].amount == 0 {
        Err(ValidationError::OutputWithoutLovelace)
    } else {
        Ok(())
    }
}

/// The paid fee must equal the fee the formula demands for this size; a
/// shortfall of inputs (negative paid fee) reports a paid fee of zero.
pub open spec fn spec_check_fees(
    tx: TxV,
    tx_size: u64,
    utxos: Map<UTxOKey, TxOutputV>,
    pps: ProtocolParams,
) -> ValidationResult {
    let paid = spec_paid_fees(tx, utxos);
    let expected = spec_expected_fees(pps, tx_size);
    if paid != expected {
        Err(ValidationError::WrongFees(fee_clip(paid), fee_clip(expected)))
    } else {
        Ok(())
    }
}

/// The paid fee must reach the protocol's fee floor.
pub open spec fn spec_check_min_fees(
    tx: TxV,
    utxos: Map<UTxOKey, TxOutputV>,
    pps: ProtocolParams,
) -> ValidationResult {
    if spec_paid_fees(tx, utxos) < pps.fee_floor {
        Err(ValidationError::FeesBelowMin)
    } else {
        Ok(())
    }
}

/// The serialized size must not exceed the protocol's cap.
pub open spec fn spec_check_size(tx_size: u64, pps: ProtocolParams) -> ValidationResult {
    if tx_size > pps.max_tx_size {
        Err(ValidationError::MaxTxSizeExceeded(tx_size, pps.max_tx_size))
    } else {
        Ok(())
    }
}

/// The witness rule. Signature verification is delegated to a
/// cryptographic collaborator that is not yet wired in, so the rule
/// currently accepts every witness sequence; it stays a first-class rule
/// so the pipeline keeps its slot.
pub open spec fn spec_check_witnesses(
    tx: TxV,
    wits: Seq<WitnessV>,
    utxos: Map<UTxOKey, TxOutputV>,
) -> ValidationResult {
    Ok(())
}

/// The whole pipeline, in its fixed order: the verdict of the earliest
/// failing rule, or success when every rule passes.
pub open spec fn spec_validate_byron_tx(
    tx: TxV,
    tx_size: u64,
    wits: Seq<WitnessV>,
    utxos: Map<UTxOKey, TxOutputV>,
    pps: ProtocolParams,
) -> ValidationResult {
    let r1 = spec_check_ins_not_empty(tx);
    let r2 = spec_check_ins_in_utxos(tx.inputs, utxos);
    let r3 = spec_check_outs_not_empty(tx);
    let r4 = spec_check_outs_have_lovelace(tx.outputs);
    let r5 = spec_check_fees(tx, tx_size, utxos, pps);
    let r6 = spec_check_min_fees(tx, utxos, pps);
    let r7 = spec_check_size(tx_size, pps);
    let r8 = spec_check_witnesses(tx, wits, utxos);
    if r1 is Err {
        r1
    } else if r2 is Err {
        r2
    } else if r3 is Err {
        r3
    } else if r4 is Err {
        r4
    } else if r5 is Err {
        r5
    } else if r6 is Err {
        r6
    } else if r7 is Err {
        r7
    } else {
        r8
    }
}

fn check_ins_not_empty(tx: &Tx) -> (r: ValidationResult)
    ensures
        r == spec_check_ins_not_empty(tx@),
{
    if tx.inputs.len() == 0 {
        Err(ValidationError::TxInsEmpty)
    } else {
        Ok(())
    }
}

fn check_ins_in_utxos(tx: &Tx, utxos: &UTxOs) -> (r: ValidationResult)
    ensures
        r == spec_check_ins_in_utxos(tx@.inputs, utxos@),
{
    let ghost vins = tx@.inputs;
    let mut i: usize = 0;
    proof {
        assert(vins.skip(0) =~= vins);
    }
    while i < tx.inputs.len()
        invariant
            i <= tx.inputs@.len(),
            vins == tx@.inputs,
            vins.len() == tx.inputs@.len(),
            spec_check_ins_in_utxos(vins, utxos@) == spec_check_ins_in_utxos(
                vins.skip(i as int),
                utxos@,
            ),
        decreases tx.inputs@.len() - i,
    {
        proof {
            assert(vins.skip(i as int)[0] == vins[i as int]);
            assert(vins[i as int] == tx.inputs@[i as int]@);
        }
        match to_utxo_tx_in(&tx.inputs[i]) {
            None => {
                return Err(ValidationError::IllFormedInput);
            },
            Some(key) => {
                match utxos.lookup(&key) {
                    None => {
                        return Err(ValidationError::InputNotUTxO);
                    },
                    Some(_) => {
                        proof {
                            assert(vins.skip(i as int).drop_first() =~= vins.skip(i as int + 1));
                        }
                        i = i + 1;
                    },
                }
            },
        }
    }
    proof {
        assert(vins.skip(i as int) =~= Seq::<TxInputV>::empty());
    }
    Ok(())
}

fn check_outs_not_empty(tx: &Tx) -> (r: ValidationResult)
    ensures
        r == spec_check_outs_not_empty(tx@),
{
    if tx.outputs.len() == 0 {
        Err(ValidationError::TxOutsEmpty)
    } else {
        Ok(())
    }
}

fn check_outs_have_lovelace(tx: &Tx) -> (r: ValidationResult)
    ensures
        r == spec_check_outs_have_lovelace(tx@.outputs),
{
    let ghost vouts = tx@.outputs;
    let mut i: usize = 0;
    while i < tx.outputs.len()
        invariant
            i <= tx.outputs@.len(),
            vouts == tx@.outputs,
            vouts.len() == tx.outputs@.len(),
            forall|j: int| 0 <= j < i ==> vouts[j].amount != 0,
        decreases tx.outputs@.len() - i,
    {
        if tx.outputs[i].amount == 0 {
            proof {
                assert(vouts[i as int].amount == 0);
            }
            return Err(ValidationError::OutputWithoutLovelace);
        }
        i = i + 1;
    }
    Ok(())
}

fn input_balance(ins: &Vec<TxInput>, utxos: &UTxOs) -> (r: u128)
    ensures
        r == spec_input_balance(ins@.map_values(|x: TxInput| x@), utxos@),
{
    let ghost vins = ins@.map_values(|x: TxInput| x@);
    let mut balance: u128 = 0;
    let mut i: usize = 0;
    proof {
        assert(vins.skip(0) =~= vins);
    }
    while i < ins.len()
        invariant
            i <= ins@.len(),
            vins == ins@.map_values(|x: TxInput| x@),
            vins.len() == ins@.len(),
            balance <= i * (u64::MAX as int),
            balance + spec_input_balance(vins.skip(i as int), utxos@) == spec_input_balance(
                vins,
                utxos@,
            ),
        decreases ins@.len() - i,
    {
        proof {
            assert(vins.skip(i as int)[0] == vins[i as int]);
            assert(vins[i as int] == ins@[i as int]@);
            assert(vins.skip(i as int).drop_first() =~= vins.skip(i as int + 1));
        }
        let amount: u64 = match to_utxo_tx_in(&ins[i]) {
            Some(key) => match utxos.lookup(&key) {
                Some(out) => out.amount,
                None => 0,
            },
            None => 0,
        };
        proof {
            assert(amount == spec_input_amount(vins[i as int], utxos@));
        }
        balance = balance + (amount as u128);
        i = i + 1;
    }
    proof {
        assert(vins.skip(i as int) =~= Seq::<TxInputV>::empty());
    }
    balance
}

fn output_balance(outs: &Vec<TxOutput>) -> (r: u128)
    ensures
        r == spec_output_balance(outs@.map_values(|x: TxOutput| x@)),
{
    let ghost vouts = outs@.map_values(|x: TxOutput| x@);
    let mut balance: u128 = 0;
    let mut i: usize = 0;
    proof {
        assert(vouts.skip(0) =~= vouts);
    }
    while i < outs.len()
        invariant
            i <= outs@.len(),
            vouts == outs@.map_values(|x: TxOutput| x@),
            vouts.len() == outs@.len(),
            balance <= i * (u64::MAX as int),
            balance + spec_output_balance(vouts.skip(i as int)) == spec_output_balance(vouts),
        decreases outs@.len() - i,
    {
        proof {
            assert(vouts.skip(i as int)[0] == vouts[i as int]);
            assert(vouts[i as int] == outs@[i as int]@);
            assert(vouts.skip(i as int).drop_first() =~= vouts.skip(i as int + 1));
        }
        balance = balance + (outs[i].amount as u128);
        i = i + 1;
    }
    proof {
        assert(vouts.skip(i as int) =~= Seq::<TxOutputV>::empty());
    }
    balance
}

/// Saturates an exactly computed fee figure into 64 bits for diagnostics.
fn clip_fee(x: u128) -> (r: u64)
    ensures
        r == fee_clip(x as int),
{
    if x > (u64::MAX as u128) {
        u64::MAX
    } else {
        x as u64
    }
}

fn expected_fees(tx_size: u64, pps: &ProtocolParams) -> (r: u128)
    ensures
        r == spec_expected_fees(*pps, tx_size),
{
    proof {
        assert((pps.minimum_fee_factor as int) * (tx_size as int) <= (u64::MAX as int) * (
        u64::MAX as int)) by (nonlinear_arith)
            requires
                pps.minimum_fee_factor <= u64::MAX,
                tx_size <= u64::MAX,
        ;
    }
    (pps.minimum_fee_constant as u128) + (pps.minimum_fee_factor as u128) * (tx_size as u128)
}

fn check_fees(tx: &Tx, tx_size: u64, utxos: &UTxOs, pps: &ProtocolParams) -> (r: ValidationResult)
    ensures
        r == spec_check_fees(tx@, tx_size, utxos@, *pps),
{
    let in_balance = input_balance(&tx.inputs, utxos);
    let out_balance = output_balance(&tx.outputs);
    let expected = expected_fees(tx_size, pps);
    if in_balance < out_balance {
        Err(ValidationError::WrongFees(0, clip_fee(expected)))
    } else {
        let paid = in_balance - out_balance;
        if paid != expected {
            Err(ValidationError::WrongFees(clip_fee(paid), clip_fee(expected)))
        } else {
            Ok(())
        }
    }
}

fn check_min_fees(tx: &Tx, utxos: &UTxOs, pps: &ProtocolParams) -> (r: ValidationResult)
    ensures
        r == spec_check_min_fees(tx@, utxos@, *pps),
{
    let in_balance = input_balance(&tx.inputs, utxos);
    let out_balance = output_balance(&tx.outputs);
    if in_balance < out_balance {
        Err(ValidationError::FeesBelowMin)
    } else {
        let paid = in_balance - out_balance;
        if paid < (pps.fee_floor as u128) {
            Err(ValidationError::FeesBelowMin)
        } else {
            Ok(())
        }
    }
}

fn check_size(tx_size: u64, pps: &ProtocolParams) -> (r: ValidationResult)
    ensures
        r == spec_check_size(tx_size, *pps),
{
    if tx_size > pps.max_tx_size {
        Err(ValidationError::MaxTxSizeExceeded(tx_size, pps.max_tx_size))
    } else {
        Ok(())
    }
}

/// The witness rule's hook: accepts every witness sequence until the
/// cryptographic collaborator is wired in.
fn check_witnesses(tx: &Tx, wits: &Witnesses, utxos: &UTxOs) -> (r: ValidationResult)
    ensures
        r == spec_check_witnesses(tx@, witnesses_view(wits@), utxos@),
{
    Ok(())
}

/// Runs the rule pipeline on a bare body and its serialized size.
pub(crate) fn run_byron_rules(
    tx: &Tx,
    tx_size: u64,
    wits: &Witnesses,
    utxos: &UTxOs,
    pps: &ProtocolParams,
) -> (r: ValidationResult)
    ensures
        r == spec_validate_byron_tx(tx@, tx_size, witnesses_view(wits@), utxos@, *pps),
{
    let r1 = check_ins_not_empty(tx);
    if r1.is_err() {
        return r1;
    }
    let r2 = check_ins_in_utxos(tx, utxos);
    if r2.is_err() {
        return r2;
    }
    let r3 = check_outs_not_empty(tx);
    if r3.is_err() {
        return r3;
    }
    let r4 = check_outs_have_lovelace(tx);
    if r4.is_err() {
        return r4;
    }
    let r5 = check_fees(tx, tx_size, utxos, pps);
    if r5.is_err() {
        return r5;
    }
    let r6 = check_min_fees(tx, utxos, pps);
    if r6.is_err() {
        return r6;
    }
    let r7 = check_size(tx_size, pps);
    if r7.is_err() {
        return r7;
    }
    check_witnesses(tx, wits, utxos)
}

/// Validates a size-annotated Byron transaction: the verdict of the
/// earliest failing rule of the fixed pipeline, or success.
pub fn validate_byron_tx(
    atx: &AnnotatedTx,
    wits: &Witnesses,
    utxos: &UTxOs,
    pps: &ProtocolParams,
) -> (r: ValidationResult)
    ensures
        r == spec_validate_byron_tx(atx.tx@, atx.tx_size, witnesses_view(wits@), utxos@, *pps),
{
    run_byron_rules(&atx.tx, atx.tx_size, wits, utxos, pps)
}

} // verus!
