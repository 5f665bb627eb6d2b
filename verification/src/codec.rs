//! Codec adapter: the canonical serialized size of a Byron transaction
//! body, obtained from the network's own encoder, and the builder that
//! pairs a body with that size.

use vstd::prelude::*;

use crate::types::AnnotatedTx;
use crate::types::Tx;
use crate::types::TxInput;
use crate::types::TxOutput;
use crate::types::TxSize;
use crate::types::TxV;

verus! {

/// Declares pallas_primitives' Byron input type so the conversion below
/// may return it; the value stays opaque to the verifier.
#[verifier::external_type_specification]
#[verifier::external_body]
pub struct ExByronTxIn(pallas_primitives::byron::TxIn);

/// Declares pallas_primitives' Byron output type so the conversion below
/// may return it; the value stays opaque to the verifier.
#[verifier::external_type_specification]
#[verifier::external_body]
pub struct ExByronTxOut(pallas_primitives::byron::TxOut);

/// Relies on pallas_primitives' Byron input model: builds the wire form of
/// one input descriptor, the standard variant as a tagged (digest, index)
/// pair, the other variant as its opaque tag and payload.
#[verifier::external_body]
fn to_wire_input(txin: &TxInput) -> pallas_primitives::byron::TxIn {
    match txin {
        TxInput::Standard { tx_id, index } => pallas_primitives::byron::TxIn::Variant0(
            pallas_codec::utils::CborWrap((pallas_crypto::hash::Hash::from(*tx_id), *index)),
        ),
        TxInput::Other { tag, data } => pallas_primitives::byron::TxIn::Other(
            *tag,
            pallas_codec::minicbor::bytes::ByteVec::from(data.clone()),
        ),
    }
}

/// Relies on pallas_primitives' Byron output model: builds the wire form
/// of one output, the address payload under its tag, the checksum, and the
/// lovelace amount.
#[verifier::external_body]
fn to_wire_output(txout: &TxOutput) -> pallas_primitives::byron::TxOut {
    pallas_primitives::byron::TxOut {
        address: pallas_primitives::byron::Address {
            payload: pallas_codec::utils::TagWrap::new(
                pallas_codec::minicbor::bytes::ByteVec::from(txout.address.payload.clone()),
            ),
            crc: txout.address.crc,
        },
        amount: txout.amount,
    }
}

/// The byte length of the canonical serialization of a transaction body,
/// or nothing when the body cannot be serialized. The encoding is a
/// function of the body's contents alone, so two bodies with the same view
/// serialize to the same length.
pub uninterp spec fn byron_encoded_size(t: TxV) -> Option<u64>;

/// Relies on pallas_codec's re-export of minicbor::encode, applied to the
/// pallas_primitives Byron transaction built from this body with an empty
/// attribute map: the canonical network serialization, whose length
/// depends on the body's contents alone.
#[verifier::external_body]
pub fn get_byron_tx_size(tx: &Tx) -> (r: Option<TxSize>)
    ensures
        r == byron_encoded_size(tx@),
{
    let ins: Vec<pallas_primitives::byron::TxIn> = tx.inputs.iter().map(to_wire_input).collect();
    let outs: Vec<pallas_primitives::byron::TxOut> = tx.outputs.iter().map(to_wire_output).collect();
    let wire = pallas_primitives::byron::Tx {
        inputs: pallas_codec::utils::MaybeIndefArray::Def(ins),
        outputs: pallas_codec::utils::MaybeIndefArray::Def(outs),
        attributes: pallas_codec::utils::EmptyMap,
    };
    let mut buffer: Vec<u8> = Vec::new();
    match pallas_codec::minicbor::encode(&wire, &mut buffer) {
        Ok(_) => Some(buffer.len() as u64),
        Err(_) => None,
    }
}

/// Pairs a transaction body with its canonical serialized size, computed
/// exactly once; nothing when serialization fails.
pub fn annotate_tx(tx: Tx) -> (r: Option<AnnotatedTx>)
    ensures
        match r {
            Some(atx) => atx.tx == tx && byron_encoded_size(tx@) == Some(atx.tx_size),
            None => byron_encoded_size(tx@) is None,
        },
{
    match get_byron_tx_size(&tx) {
        Some(size) => Some(AnnotatedTx { tx, tx_size: size }),
        None => None,
    }
}

} // verus!
