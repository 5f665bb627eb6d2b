//! Data model for Byron-era phase-1 validation: transactions, inputs,
//! outputs, witnesses, the multi-era wrapper, protocol parameters and the
//! verdict taxonomy, together with the mathematical views the contracts
//! speak of.

use vstd::prelude::*;

verus! {

/// A previous-transaction identifier: a 32-byte digest.
pub type TxId = [u8; 32];

/// The serialized size of a transaction, in bytes.
pub type TxSize = u64;

/// A wire-level input descriptor.
///
/// The standard variant names a previous transaction and an output index and
/// can be resolved against the UTxO view; the other variant is syntactically
/// valid but carries an opaque tag and payload and never resolves.
pub enum TxInput {
    Standard { tx_id: TxId, index: u32 },
    Other { tag: u8, data: Vec<u8> },
}

/// Mathematical view of an input descriptor.
#[verifier::ext_equal]
pub enum TxInputV {
    Standard { tx_id: Seq<u8>, index: u32 },
    Other { tag: u8, data: Seq<u8> },
}

impl View for TxInput {
    type V = TxInputV;

    open spec fn view(&self) -> TxInputV {
        match self {
            TxInput::Standard { tx_id, index } => TxInputV::Standard {
                tx_id: tx_id@,
                index: *index,
            },
            TxInput::Other { tag, data } => TxInputV::Other { tag: *tag, data: data@ },
        }
    }
}

/// A Byron address: an opaque payload and its 32-bit checksum.
pub struct Address {
    pub payload: Vec<u8>,
    pub crc: u32,
}

/// Mathematical view of an address.
#[verifier::ext_equal]
pub struct AddressV {
    pub payload: Seq<u8>,
    pub crc: u32,
}

impl View for Address {
    type V = AddressV;

    open spec fn view(&self) -> AddressV {
        AddressV { payload: self.payload@, crc: self.crc }
    }
}

/// A transaction output: an address and a lovelace amount.
pub struct TxOutput {
    pub address: Address,
    pub amount: u64,
}

/// Mathematical view of an output.
#[verifier::ext_equal]
pub struct TxOutputV {
    pub address: AddressV,
    pub amount: u64,
}

impl View for TxOutput {
    type V = TxOutputV;

    open spec fn view(&self) -> TxOutputV {
        TxOutputV { address: self.address@, amount: self.amount }
    }
}

/// A Byron transaction body: ordered inputs and ordered outputs.
///
/// The wire form also carries an attribute map, which on this chain is
/// always empty; the canonical serialization accounts for it.
pub struct Tx {
    pub inputs: Vec<TxInput>,
    pub outputs: Vec<TxOutput>,
}

/// Mathematical view of a transaction body.
#[verifier::ext_equal]
pub struct TxV {
    pub inputs: Seq<TxInputV>,
    pub outputs: Seq<TxOutputV>,
}

impl View for Tx {
    type V = TxV;

    open spec fn view(&self) -> TxV {
        TxV {
            inputs: self.inputs@.map_values(|i: TxInput| i@),
            outputs: self.outputs@.map_values(|o: TxOutput| o@),
        }
    }
}

/// A witness record: a signer public key and its signature over the
/// canonical witness message of the transaction.
pub struct Witness {
    pub public_key: Vec<u8>,
    pub signature: Vec<u8>,
}

/// Mathematical view of a witness record.
#[verifier::ext_equal]
pub struct WitnessV {
    pub public_key: Seq<u8>,
    pub signature: Seq<u8>,
}

impl View for Witness {
    type V = WitnessV;

    open spec fn view(&self) -> WitnessV {
        WitnessV { public_key: self.public_key@, signature: self.signature@ }
    }
}

/// The ordered witness sequence accompanying a transaction.
pub type Witnesses = Vec<Witness>;

/// View of a witness sequence.
pub open spec fn witnesses_view(ws: Seq<Witness>) -> Seq<WitnessV> {
    ws.map_values(|w: Witness| w@)
}

/// A Byron transaction together with its witness sequence, as carried by a
/// block.
pub struct TxPayload {
    pub transaction: Tx,
    pub witness: Witnesses,
}

/// Mathematical view of a transaction payload.
#[verifier::ext_equal]
pub struct TxPayloadV {
    pub transaction: TxV,
    pub witness: Seq<WitnessV>,
}

impl View for TxPayload {
    type V = TxPayloadV;

    open spec fn view(&self) -> TxPayloadV {
        TxPayloadV {
            transaction: self.transaction@,
            witness: witnesses_view(self.witness@),
        }
    }
}

/// The protocol eras this validator recognizes.
#[derive(Clone, Copy, Debug, PartialEq, Eq, Structural)]
pub enum Era {
    Byron,
    Shelley,
    Allegra,
    Mary,
    Alonzo,
    Babbage,
    Conway,
}

/// A transaction of any recognized era. Only the Byron variant carries a
/// body this validator can inspect; the others are recognized and rejected.
pub enum MultiEraTx {
    Byron(TxPayload),
    Shelley,
    Allegra,
    Mary,
    Alonzo,
    Babbage,
    Conway,
}

/// Mathematical view of a multi-era transaction.
#[verifier::ext_equal]
pub enum MultiEraTxV {
    Byron(TxPayloadV),
    Shelley,
    Allegra,
    Mary,
    Alonzo,
    Babbage,
    Conway,
}

impl View for MultiEraTx {
    type V = MultiEraTxV;

    open spec fn view(&self) -> MultiEraTxV {
        match self {
            MultiEraTx::Byron(p) => MultiEraTxV::Byron(p@),
            MultiEraTx::Shelley => MultiEraTxV::Shelley,
            MultiEraTx::Allegra => MultiEraTxV::Allegra,
            MultiEraTx::Mary => MultiEraTxV::Mary,
            MultiEraTx::Alonzo => MultiEraTxV::Alonzo,
            MultiEraTx::Babbage => MultiEraTxV::Babbage,
            MultiEraTx::Conway => MultiEraTxV::Conway,
        }
    }
}

/// The tunable numerics the validation rules read.
///
/// `fee_floor` is the minimum fee any valid transaction must pay; the fee
/// formula `minimum_fee_constant + minimum_fee_factor * size` gives the
/// exact fee a transaction of a given size owes.
#[derive(Clone, Copy, Debug)]
pub struct ProtocolParams {
    pub minimum_fee_constant: u64,
    pub minimum_fee_factor: u64,
    pub max_tx_size: u64,
    pub fee_floor: u64,
}

/// The verdict taxonomy: every way phase-1 validation can reject a
/// transaction.
#[derive(Clone, Copy, Debug, PartialEq, Eq, Structural)]
pub enum ValidationError {
    /// The transaction belongs to a recognized era this validator does not
    /// handle.
    UnsupportedEra(Era),
    /// The canonical serialized size of the body could not be computed.
    TxSizeUnavailable,
    /// The input sequence is empty.
    TxInsEmpty,
    /// The output sequence is empty.
    TxOutsEmpty,
    /// An input does not have the standard decodable form.
    IllFormedInput,
    /// A standard input's key is absent from the UTxO view.
    InputNotUTxO,
    /// An output carries no lovelace.
    OutputWithoutLovelace,
    /// The paid fee differs from the fee the formula demands:
    /// `WrongFees(paid, expected)`, both saturated to 64 bits.
    WrongFees(u64, u64),
    /// The paid fee is below the protocol's fee floor.
    FeesBelowMin,
    /// The serialized size exceeds the protocol's cap:
    /// `MaxTxSizeExceeded(size, cap)`.
    MaxTxSizeExceeded(u64, u64),
}

/// The outcome of one validation: success, or the verdict of the first
/// failing rule.
pub type ValidationResult = Result<(), ValidationError>;

/// A transaction body paired with its canonical serialized size, computed
/// once and read by every size-dependent rule.
pub struct AnnotatedTx {
    pub tx: Tx,
    pub tx_size: TxSize,
}

/// Mathematical view of an annotated transaction.
#[verifier::ext_equal]
pub struct AnnotatedTxV {
    pub tx: TxV,
    pub tx_size: TxSize,
}

impl View for AnnotatedTx {
    type V = AnnotatedTxV;

    open spec fn view(&self) -> AnnotatedTxV {
        AnnotatedTxV { tx: self.tx@, tx_size: self.tx_size }
    }
}

} // verus!
