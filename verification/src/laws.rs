//! General properties of the validator, stated over the same spec
//! functions its contracts use and proved once and for all.

use vstd::prelude::*;

use crate::byron::fee_clip;
use crate::byron::spec_check_fees;
use crate::byron::spec_check_ins_in_utxos;
use crate::byron::spec_check_ins_not_empty;
use crate::byron::spec_check_min_fees;
use crate::byron::spec_check_outs_have_lovelace;
use crate::byron::spec_check_outs_not_empty;
use crate::byron::spec_check_size;
use crate::byron::spec_check_witnesses;
use crate::byron::spec_expected_fees;
use crate::byron::spec_input_balance;
use crate::byron::spec_output_balance;
use crate::byron::spec_paid_fees;
use crate::byron::spec_validate_byron_tx;
use crate::spec_validate;
use crate::types::MultiEraTxV;
use crate::types::TxInputV;
use crate::types::ProtocolParams;
use crate::types::TxOutputV;
use crate::types::TxV;
use crate::types::ValidationError;
use crate::types::WitnessV;
use crate::utxos::spec_normalize;
use crate::utxos::UTxOKey;

verus! {

/// Determinism: the verdict is a pure function of the transaction, the
/// UTxO view and the parameters; two validations of equal arguments agree.
pub proof fn lemma_validate_deterministic(
    metx1: MultiEraTxV,
    metx2: MultiEraTxV,
    utxos1: Map<UTxOKey, TxOutputV>,
    utxos2: Map<UTxOKey, TxOutputV>,
    pps1: ProtocolParams,
    pps2: ProtocolParams,
)
    requires
        metx1 == metx2,
        utxos1 == utxos2,
        pps1 == pps2,
    ensures
        spec_validate(metx1, utxos1, pps1) == spec_validate(metx2, utxos2, pps2),
{
}

/// Rule order: when a transaction fails several rules at once, the verdict
/// is the one of the earliest rule in the fixed pipeline order.
pub proof fn lemma_rule_order(
    tx: TxV,
    tx_size: u64,
    wits: Seq<WitnessV>,
    utxos: Map<UTxOKey, TxOutputV>,
    pps: ProtocolParams,
)
    ensures
        spec_check_ins_not_empty(tx) is Err ==> spec_validate_byron_tx(
            tx,
            tx_size,
            wits,
            utxos,
            pps,
        ) == spec_check_ins_not_empty(tx),
        spec_check_ins_not_empty(tx) is Ok && spec_check_ins_in_utxos(tx.inputs, utxos) is Err
            ==> spec_validate_byron_tx(tx, tx_size, wits, utxos, pps) == spec_check_ins_in_utxos(
            tx.inputs,
            utxos,
        ),
        spec_check_ins_not_empty(tx) is Ok && spec_check_ins_in_utxos(tx.inputs, utxos) is Ok
            && spec_check_outs_not_empty(tx) is Err ==> spec_validate_byron_tx(
            tx,
            tx_size,
            wits,
            utxos,
            pps,
        ) == spec_check_outs_not_empty(tx),
        spec_check_ins_not_empty(tx) is Ok && spec_check_ins_in_utxos(tx.inputs, utxos) is Ok
            && spec_check_outs_not_empty(tx) is Ok && spec_check_outs_have_lovelace(tx.outputs)
            is Err ==> spec_validate_byron_tx(tx, tx_size, wits, utxos, pps)
            == spec_check_outs_have_lovelace(tx.outputs),
        spec_check_ins_not_empty(tx) is Ok && spec_check_ins_in_utxos(tx.inputs, utxos) is Ok
            && spec_check_outs_not_empty(tx) is Ok && spec_check_outs_have_lovelace(tx.outputs)
            is Ok && spec_check_fees(tx, tx_size, utxos, pps) is Err ==> spec_validate_byron_tx(
            tx,
            tx_size,
            wits,
            utxos,
            pps,
        ) == spec_check_fees(tx, tx_size, utxos, pps),
        spec_check_ins_not_empty(tx) is Ok && spec_check_ins_in_utxos(tx.inputs, utxos) is Ok
            && spec_check_outs_not_empty(tx) is Ok && spec_check_outs_have_lovelace(tx.outputs)
            is Ok && spec_check_fees(tx, tx_size, utxos, pps) is Ok && spec_check_min_fees(
            tx,
            utxos,
            pps,
        ) is Err ==> spec_validate_byron_tx(tx, tx_size, wits, utxos, pps) == spec_check_min_fees(
            tx,
            utxos,
            pps,
        ),
        spec_check_ins_not_empty(tx) is Ok && spec_check_ins_in_utxos(tx.inputs, utxos) is Ok
            && spec_check_outs_not_empty(tx) is Ok && spec_check_outs_have_lovelace(tx.outputs)
            is Ok && spec_check_fees(tx, tx_size, utxos, pps) is Ok && spec_check_min_fees(
            tx,
            utxos,
            pps,
        ) is Ok && spec_check_size(tx_size, pps) is Err ==> spec_validate_byron_tx(
            tx,
            tx_size,
            wits,
            utxos,
            pps,
        ) == spec_check_size(tx_size, pps),
        spec_check_ins_not_empty(tx) is Ok && spec_check_ins_in_utxos(tx.inputs, utxos) is Ok
            && spec_check_outs_not_empty(tx) is Ok && spec_check_outs_have_lovelace(tx.outputs)
            is Ok && spec_check_fees(tx, tx_size, utxos, pps) is Ok && spec_check_min_fees(
            tx,
            utxos,
            pps,
        ) is Ok && spec_check_size(tx_size, pps) is Ok ==> spec_validate_byron_tx(
            tx,
            tx_size,
            wits,
            utxos,
            pps,
        ) == spec_check_witnesses(tx, wits, utxos),
{
}

/// Era gating: a transaction of any non-Byron era is rejected as
/// unsupported, whatever the view and the parameters.
pub proof fn lemma_era_gating(
    metx: MultiEraTxV,
    utxos: Map<UTxOKey, TxOutputV>,
    pps: ProtocolParams,
)
    requires
        !(metx is Byron),
    ensures
        spec_validate(metx, utxos, pps) matches Err(ValidationError::UnsupportedEra(_)),
{
}

/// Fee round trip, first half: when the paid fee equals the fee the
/// formula demands, the fee rule passes.
pub proof fn lemma_fee_roundtrip_pass(
    tx: TxV,
    tx_size: u64,
    utxos: Map<UTxOKey, TxOutputV>,
    pps: ProtocolParams,
)
    requires
        spec_paid_fees(tx, utxos) == spec_expected_fees(pps, tx_size),
    ensures
        spec_check_fees(tx, tx_size, utxos, pps) == Ok::<(), ValidationError>(()),
{
}

/// A transaction equal to `tx` except that output `i` carries amount `a`.
pub open spec fn with_output_amount(tx: TxV, i: int, a: u64) -> TxV {
    TxV {
        inputs: tx.inputs,
        outputs: tx.outputs.update(
            i,
            TxOutputV { address: tx.outputs[i].address, amount: a },
        ),
    }
}

proof fn lemma_output_balance_update(outs: Seq<TxOutputV>, i: int, o: TxOutputV)
    requires
        0 <= i < outs.len(),
    ensures
        spec_output_balance(outs.update(i, o)) == spec_output_balance(outs) - outs[i].amount
            + o.amount,
    decreases outs.len(),
{
    if i == 0 {
        assert(outs.update(0, o).drop_first() =~= outs.drop_first());
    } else {
        lemma_output_balance_update(outs.drop_first(), i - 1, o);
        assert(outs.update(i, o).drop_first() =~= outs.drop_first().update(i - 1, o));
    }
}

/// Fee round trip, second half: perturbing any single output amount by one
/// lovelace in either direction, with no compensating input change, makes
/// the fee rule fail with a wrong-fees verdict. The raised amount must
/// still be representable in 64 bits.
pub proof fn lemma_fee_roundtrip_perturb(
    tx: TxV,
    tx_size: u64,
    utxos: Map<UTxOKey, TxOutputV>,
    pps: ProtocolParams,
    i: int,
    delta: int,
)
    requires
        spec_check_fees(tx, tx_size, utxos, pps) == Ok::<(), ValidationError>(()),
        0 <= i < tx.outputs.len(),
        delta == 1 || delta == -1,
        0 <= tx.outputs[i].amount + delta <= u64::MAX,
    ensures
        spec_check_fees(
            with_output_amount(tx, i, (tx.outputs[i].amount + delta) as u64),
            tx_size,
            utxos,
            pps,
        ) == Err::<(), ValidationError>(
            ValidationError::WrongFees(
                fee_clip(spec_expected_fees(pps, tx_size) - delta),
                fee_clip(spec_expected_fees(pps, tx_size)),
            ),
        ),
{
    let perturbed = with_output_amount(tx, i, (tx.outputs[i].amount + delta) as u64);
    lemma_output_balance_update(
        tx.outputs,
        i,
        TxOutputV { address: tx.outputs[i].address, amount: (tx.outputs[i].amount + delta) as u64 },
    );
    assert(spec_paid_fees(perturbed, utxos) == spec_paid_fees(tx, utxos) - delta);
}

/// Whether an input normalizes to a canonical key that the view resolves.
pub open spec fn spec_input_resolves(
    txin: TxInputV,
    utxos: Map<UTxOKey, TxOutputV>,
) -> bool {
    match spec_normalize(txin) {
        Some(k) => utxos.contains_key(k),
        None => false,
    }
}

proof fn lemma_ins_check_ok_all_resolve(
    ins: Seq<TxInputV>,
    utxos: Map<UTxOKey, TxOutputV>,
)
    requires
        !(spec_check_ins_in_utxos(ins, utxos) is Err),
    ensures
        forall|i: int| 0 <= i < ins.len() ==> #[trigger] spec_input_resolves(ins[i], utxos),
    decreases ins.len(),
{
    if ins.len() > 0 {
        lemma_ins_check_ok_all_resolve(ins.drop_first(), utxos);
        assert forall|i: int| 0 <= i < ins.len() implies #[trigger] spec_input_resolves(
            ins[i],
            utxos,
        ) by {
            if i > 0 {
                assert(ins.drop_first()[i - 1] == ins[i]);
            }
        }
    }
}

/// What an accepted transaction is known to satisfy: every input resolves
/// in the UTxO view, every output carries lovelace, the balance difference
/// equals the fee the formula demands, and the size respects the cap.
pub proof fn lemma_success_invariants(
    tx: TxV,
    tx_size: u64,
    wits: Seq<WitnessV>,
    utxos: Map<UTxOKey, TxOutputV>,
    pps: ProtocolParams,
)
    requires
        spec_validate_byron_tx(tx, tx_size, wits, utxos, pps) == Ok::<(), ValidationError>(()),
    ensures
        forall|i: int| 0 <= i < tx.inputs.len() ==> #[trigger] spec_input_resolves(
            tx.inputs[i],
            utxos,
        ),
        forall|i: int| 0 <= i < tx.outputs.len() ==> (#[trigger] tx.outputs[i]).amount > 0,
        spec_paid_fees(tx, utxos) == spec_expected_fees(pps, tx_size),
        spec_input_balance(tx.inputs, utxos) >= spec_output_balance(tx.outputs),
        tx_size <= pps.max_tx_size,
{
    assert(!(spec_check_ins_in_utxos(tx.inputs, utxos) is Err));
    lemma_ins_check_ok_all_resolve(tx.inputs, utxos);
    assert(spec_expected_fees(pps, tx_size) >= 0) by (nonlinear_arith)
        requires
            pps.minimum_fee_constant >= 0,
            pps.minimum_fee_factor >= 0,
            tx_size >= 0,
    ;
}

/// Size monotonicity: raising the size cap, with every other parameter
/// unchanged, never turns an accepted transaction into a rejected one.
pub proof fn lemma_size_cap_monotonic(
    metx: MultiEraTxV,
    utxos: Map<UTxOKey, TxOutputV>,
    pps1: ProtocolParams,
    pps2: ProtocolParams,
)
    requires
        spec_validate(metx, utxos, pps1) == Ok::<(), ValidationError>(()),
        pps2.max_tx_size >= pps1.max_tx_size,
        pps2.minimum_fee_constant == pps1.minimum_fee_constant,
        pps2.minimum_fee_factor == pps1.minimum_fee_factor,
        pps2.fee_floor == pps1.fee_floor,
    ensures
        spec_validate(metx, utxos, pps2) == Ok::<(), ValidationError>(()),
{
}

} // verus!
