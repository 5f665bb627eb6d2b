//! Phase-1 validation of Byron-era transactions: given a transaction, its
//! witnesses, a read-only UTxO view and the protocol parameters, decide
//! whether the transaction is admissible under the ledger rules and, if
//! not, report the verdict of the earliest failing rule.

use vstd::prelude::*;

pub mod byron;
pub mod codec;
pub mod laws;
pub mod types;
pub mod utxos;

pub use byron::validate_byron_tx;
pub use codec::annotate_tx;
pub use codec::get_byron_tx_size;
pub use types::Address;
pub use types::AnnotatedTx;
pub use types::Era;
pub use types::MultiEraTx;
pub use types::ProtocolParams;
pub use types::Tx;
pub use types::TxInput;
pub use types::TxOutput;
pub use types::TxPayload;
pub use types::TxSize;
pub use types::ValidationError;
pub use types::ValidationResult;
pub use types::Witness;
pub use types::Witnesses;
pub use utxos::to_utxo_tx_in;
pub use utxos::UTxOs;
pub use utxos::UTxOTxIn;

use crate::byron::spec_validate_byron_tx;
use crate::codec::byron_encoded_size;
use crate::types::MultiEraTxV;
use crate::types::TxOutputV;
use crate::utxos::UTxOKey;

verus! {

/// The verdict of one validation as a function of the transaction, the
/// UTxO view and the parameters: Byron bodies run the rule pipeline on
/// their canonical serialized size, every other era is rejected as
/// unsupported.
pub open spec fn spec_validate(
    metx: MultiEraTxV,
    utxos: Map<UTxOKey, TxOutputV>,
    pps: types::ProtocolParams,
) -> types::ValidationResult {
    match metx {
        MultiEraTxV::Byron(p) => match byron_encoded_size(p.transaction) {
            Some(size) => spec_validate_byron_tx(p.transaction, size, p.witness, utxos, pps),
            None => Err(types::ValidationError::TxSizeUnavailable),
        },
        MultiEraTxV::Shelley => Err(types::ValidationError::UnsupportedEra(types::Era::Shelley)),
        MultiEraTxV::Allegra => Err(types::ValidationError::UnsupportedEra(types::Era::Allegra)),
        MultiEraTxV::Mary => Err(types::ValidationError::UnsupportedEra(types::Era::Mary)),
        MultiEraTxV::Alonzo => Err(types::ValidationError::UnsupportedEra(types::Era::Alonzo)),
        MultiEraTxV::Babbage => Err(types::ValidationError::UnsupportedEra(types::Era::Babbage)),
        MultiEraTxV::Conway => Err(types::ValidationError::UnsupportedEra(types::Era::Conway)),
    }
}

/// The primary entry point: dispatches on the transaction's era, sizes the
/// Byron body once through the codec adapter, and runs the rule pipeline.
/// The UTxO view is only read; the verdict is a pure function of the
/// arguments.
pub fn validate(
    metx: &MultiEraTx,
    utxos: &UTxOs,
    prot_pps: &ProtocolParams,
) -> (r: ValidationResult)
    ensures
        r == spec_validate(metx@, utxos@, *prot_pps),
{
    match metx {
        MultiEraTx::Byron(payload) => match get_byron_tx_size(&payload.transaction) {
            Some(size) => byron::run_byron_rules(
                &payload.transaction,
                size,
                &payload.witness,
                utxos,
                prot_pps,
            ),
            None => Err(ValidationError::TxSizeUnavailable),
        },
        MultiEraTx::Shelley => Err(ValidationError::UnsupportedEra(Era::Shelley)),
        MultiEraTx::Allegra => Err(ValidationError::UnsupportedEra(Era::Allegra)),
        MultiEraTx::Mary => Err(ValidationError::UnsupportedEra(Era::Mary)),
        MultiEraTx::Alonzo => Err(ValidationError::UnsupportedEra(Era::Alonzo)),
        MultiEraTx::Babbage => Err(ValidationError::UnsupportedEra(Era::Babbage)),
        MultiEraTx::Conway => Err(ValidationError::UnsupportedEra(Era::Conway)),
    }
}

} // verus!
