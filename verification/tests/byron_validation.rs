use pallas_applying::annotate_tx;
use pallas_applying::to_utxo_tx_in;
use pallas_applying::validate_byron_tx;
use pallas_applying::Address;
use pallas_applying::ProtocolParams;
use pallas_applying::Tx;
use pallas_applying::TxInput;
use pallas_applying::TxOutput;
use pallas_applying::UTxOs;
use pallas_applying::ValidationError;
use pallas_applying::Witness;

// Helper types.
type TxIns = Vec<TxInput>;
type TxOuts = Vec<TxOutput>;
type Witnesses = Vec<Witness>;

// Helper functions.
fn new_tx_ins() -> TxIns {
    Vec::new()
}

fn arbitrary_tx_id() -> [u8; 32] {
    let mut bytes = [0u8; 32];
    for (i, elem) in bytes.iter_mut().enumerate() {
        *elem = (i as u8).wrapping_mul(37).wrapping_add(11);
    }
    bytes
}

fn new_tx_in(tx_id: [u8; 32], index: u32) -> TxInput {
    TxInput::Standard { tx_id, index }
}

fn add_tx_in(ins: &mut TxIns, new_in: &TxInput) {
    let copied = match new_in {
        TxInput::Standard { tx_id, index } => TxInput::Standard {
            tx_id: *tx_id,
            index: *index,
        },
        TxInput::Other { tag, data } => TxInput::Other {
            tag: *tag,
            data: data.clone(),
        },
    };
    ins.push(copied);
}

fn new_tx_outs() -> TxOuts {
    Vec::new()
}

fn arbitrary_address_payload() -> Vec<u8> {
    let mut bytes = vec![0u8; 24];
    for (i, elem) in bytes.iter_mut().enumerate() {
        *elem = (i as u8).wrapping_mul(53).wrapping_add(3);
    }
    bytes
}

fn new_address(payload: Vec<u8>, crc: u32) -> Address {
    Address { payload, crc }
}

fn new_tx_out(address: Address, amount: u64) -> TxOutput {
    TxOutput { address, amount }
}

fn add_tx_out(outs: &mut TxOuts, new_out: TxOutput) {
    outs.push(new_out);
}

fn add_to_utxo(utxos: &mut UTxOs, tx_in: &TxInput, tx_out: TxOutput) {
    if let Some(utxo_tx_in) = to_utxo_tx_in(tx_in) {
        utxos.insert(utxo_tx_in, tx_out);
    }
}

fn new_tx(ins: TxIns, outs: TxOuts) -> Tx {
    Tx {
        inputs: ins,
        outputs: outs,
    }
}

fn new_witnesses() -> Witnesses {
    Vec::new()
}

fn new_utxos() -> UTxOs {
    UTxOs::new()
}

fn new_protocol_params(fee_constant: u64, fee_factor: u64, max_tx_size: u64) -> ProtocolParams {
    ProtocolParams {
        minimum_fee_constant: fee_constant,
        minimum_fee_factor: fee_factor,
        max_tx_size,
        fee_floor: 0,
    }
}

#[test]
// Note that:
//      i)   the transaction input contains 100000 lovelace,
//      ii)  the minimum_fee_constant protocol parameter is 7,
//      iii) the minimum_fee_factor protocol parameter is 11, and
//      iv)  the size of the transaction is 82 bytes.
// The expected fees are therefore 7 + 11 * 82 = 909 lovelace, which is why the output contains
// 100000 - 909 = 99091 lovelace.
fn successful_case() {
    let protocol_params: ProtocolParams = new_protocol_params(7, 11, 100);
    let mut tx_ins: TxIns = new_tx_ins();
    let tx_in: TxInput = new_tx_in(arbitrary_tx_id(), 3);
    add_tx_in(&mut tx_ins, &tx_in);
    let mut tx_outs: TxOuts = new_tx_outs();
    let tx_out: TxOutput = new_tx_out(new_address(arbitrary_address_payload(), 0), 99091);
    add_tx_out(&mut tx_outs, tx_out);
    let tx: Tx = new_tx(tx_ins, tx_outs);
    let mut utxos: UTxOs = new_utxos();
    // Note that input_tx_out is the TxOutput associated with tx_in.
    let input_tx_out: TxOutput = new_tx_out(new_address(arbitrary_address_payload(), 0), 100000);
    add_to_utxo(&mut utxos, &tx_in, input_tx_out);
    let tx_wits: Witnesses = new_witnesses();

    match annotate_tx(tx) {
        None => assert!(false, "TxSizeUnavailable (sucessful_case)."),
        Some(atx) => match validate_byron_tx(&atx, &tx_wits, &utxos, &protocol_params) {
            Ok(_) => (),
            Err(err) => assert!(false, "Unexpected error (sucessful_case - {:?}).", err),
        },
    }
}

#[test]
fn empty_ins() {
    let protocol_params: ProtocolParams = new_protocol_params(0, 0, 0);
    let tx: Tx = new_tx(new_tx_ins(), new_tx_outs());
    let utxos: UTxOs = new_utxos();
    let tx_wits: Witnesses = new_witnesses();

    match annotate_tx(tx) {
        None => assert!(false, "TxSizeUnavailable (sucessful_case)."),
        Some(atx) => match validate_byron_tx(&atx, &tx_wits, &utxos, &protocol_params) {
            Ok(_) => assert!(false, "Inputs set cannot be empty."),
            Err(err) => match err {
                ValidationError::TxInsEmpty => (),
                wet => assert!(false, "Wrong error type (empty_ins - {:?}).", wet),
            },
        },
    }
}

#[test]
fn empty_outs() {
    let protocol_params: ProtocolParams = new_protocol_params(0, 0, 0);
    let mut tx_ins: TxIns = new_tx_ins();
    let tx_in: TxInput = new_tx_in(arbitrary_tx_id(), 0);
    add_tx_in(&mut tx_ins, &tx_in);
    let tx: Tx = new_tx(tx_ins, new_tx_outs());
    let mut utxos: UTxOs = new_utxos();
    let input_tx_out: TxOutput = new_tx_out(new_address(arbitrary_address_payload(), 0), 100000);
    add_to_utxo(&mut utxos, &tx_in, input_tx_out);
    let tx_wits: Witnesses = new_witnesses();

    match annotate_tx(tx) {
        None => assert!(false, "TxSizeUnavailable (sucessful_case)."),
        Some(atx) => match validate_byron_tx(&atx, &tx_wits, &utxos, &protocol_params) {
            Ok(_) => assert!(false, "Outputs set cannot be empty."),
            Err(err) => match err {
                ValidationError::TxOutsEmpty => (),
                wet => assert!(false, "Wrong error type (empty_outs - {:?}).", wet),
            },
        },
    }
}

#[test]
fn unfound_utxo() {
    let protocol_params: ProtocolParams = new_protocol_params(0, 0, 0);
    let mut tx_ins: TxIns = new_tx_ins();
    let tx_in: TxInput = new_tx_in(arbitrary_tx_id(), 0);
    add_tx_in(&mut tx_ins, &tx_in);
    let mut tx_outs: TxOuts = new_tx_outs();
    let tx_out: TxOutput = new_tx_out(new_address(arbitrary_address_payload(), 0), 1000);
    add_tx_out(&mut tx_outs, tx_out);
    let tx: Tx = new_tx(tx_ins, tx_outs);
    let utxos: UTxOs = new_utxos();
    let tx_wits: Witnesses = new_witnesses();

    match annotate_tx(tx) {
        None => assert!(false, "TxSizeUnavailable (sucessful_case)."),
        Some(atx) => match validate_byron_tx(&atx, &tx_wits, &utxos, &protocol_params) {
            Ok(_) => assert!(false, "Input must be in the set of UTxOs."),
            Err(err) => match err {
                ValidationError::InputNotUTxO => (),
                wet => assert!(false, "Wrong error type (unfound_utxo - {:?}).", wet),
            },
        },
    }
}

#[test]
fn no_lovelace_in_output() {
    let protocol_params: ProtocolParams = new_protocol_params(0, 0, 0);
    let mut tx_ins: TxIns = new_tx_ins();
    let tx_in: TxInput = new_tx_in(arbitrary_tx_id(), 0);
    add_tx_in(&mut tx_ins, &tx_in);
    let mut tx_outs: TxOuts = new_tx_outs();
    let tx_out: TxOutput = new_tx_out(new_address(arbitrary_address_payload(), 0), 0);
    add_tx_out(&mut tx_outs, tx_out);
    let tx: Tx = new_tx(tx_ins, tx_outs);
    let mut utxos: UTxOs = new_utxos();
    let input_tx_out: TxOutput = new_tx_out(new_address(arbitrary_address_payload(), 0), 100000);
    add_to_utxo(&mut utxos, &tx_in, input_tx_out);
    let tx_wits: Witnesses = new_witnesses();

    match annotate_tx(tx) {
        None => assert!(false, "TxSizeUnavailable (sucessful_case)."),
        Some(atx) => match validate_byron_tx(&atx, &tx_wits, &utxos, &protocol_params) {
            Ok(_) => assert!(false, "All outputs must have a non-zero number of lovelaces."),
            Err(err) => match err {
                ValidationError::OutputWithoutLovelace => (),
                wet => assert!(false, "Wrong error type (no_lovelace_in_output - {:?}).", wet),
            },
        },
    }
}

#[test]
// The case is identical to successful_case in all aspects except for the fact that the output
// of the transaction has one more lovelace than expected.
fn wrong_fees() {
    let protocol_params: ProtocolParams = new_protocol_params(7, 11, 0);
    let mut tx_ins: TxIns = new_tx_ins();
    let tx_in: TxInput = new_tx_in(arbitrary_tx_id(), 3);
    add_tx_in(&mut tx_ins, &tx_in);
    let mut tx_outs: TxOuts = new_tx_outs();
    let tx_out: TxOutput = new_tx_out(new_address(arbitrary_address_payload(), 0), 99092);
    add_tx_out(&mut tx_outs, tx_out);
    let tx: Tx = new_tx(tx_ins, tx_outs);
    let mut utxos: UTxOs = new_utxos();
    let input_tx_out: TxOutput = new_tx_out(new_address(arbitrary_address_payload(), 0), 100000);
    add_to_utxo(&mut utxos, &tx_in, input_tx_out);
    let tx_wits: Witnesses = new_witnesses();

    match annotate_tx(tx) {
        None => assert!(false, "TxSizeUnavailable (sucessful_case)."),
        Some(atx) => match validate_byron_tx(&atx, &tx_wits, &utxos, &protocol_params) {
            Ok(_) => assert!(false, "Incorrect fees."),
            Err(err) => match err {
                ValidationError::WrongFees(_, _) => (),
                wet => assert!(false, "Wrong error type (wrong_fees - {:?}).", wet),
            },
        },
    }
}

#[test]
// Unlike in the wrong_fees test case, the fees of this transaction are correct. Nonetheless,
// they are too low compared to the declared fee floor.
fn fees_below_minimum() {
    let protocol_params: ProtocolParams = ProtocolParams {
        minimum_fee_constant: 7,
        minimum_fee_factor: 11,
        max_tx_size: 1000,
        fee_floor: 1000,
    };
    let mut tx_ins: TxIns = new_tx_ins();
    let tx_in: TxInput = new_tx_in(arbitrary_tx_id(), 3);
    add_tx_in(&mut tx_ins, &tx_in);
    let mut tx_outs: TxOuts = new_tx_outs();
    let tx_out: TxOutput = new_tx_out(new_address(arbitrary_address_payload(), 0), 99091);
    add_tx_out(&mut tx_outs, tx_out);
    let tx: Tx = new_tx(tx_ins, tx_outs);
    let mut utxos: UTxOs = new_utxos();
    let input_tx_out: TxOutput = new_tx_out(new_address(arbitrary_address_payload(), 0), 100000);
    add_to_utxo(&mut utxos, &tx_in, input_tx_out);
    let tx_wits: Witnesses = new_witnesses();

    match annotate_tx(tx) {
        None => assert!(false, "TxSizeUnavailable (sucessful_case)."),
        Some(atx) => match validate_byron_tx(&atx, &tx_wits, &utxos, &protocol_params) {
            Ok(_) => assert!(false, "All outputs must have a non-zero number of lovelaces."),
            Err(err) => match err {
                ValidationError::FeesBelowMin => (),
                wet => assert!(false, "Wrong error type (fees_below_minimum - {:?}).", wet),
            },
        },
    }
}

#[test]
// The transaction size is 82, but the maximum transaction size allowed by the protocol is 81.
fn max_tx_size_exceeded() {
    let protocol_params: ProtocolParams = new_protocol_params(7, 11, 81);
    let mut tx_ins: TxIns = new_tx_ins();
    let tx_in: TxInput = new_tx_in(arbitrary_tx_id(), 3);
    add_tx_in(&mut tx_ins, &tx_in);
    let mut tx_outs: TxOuts = new_tx_outs();
    let tx_out: TxOutput = new_tx_out(new_address(arbitrary_address_payload(), 0), 99091);
    add_tx_out(&mut tx_outs, tx_out);
    let tx: Tx = new_tx(tx_ins, tx_outs);
    let mut utxos: UTxOs = new_utxos();
    let input_tx_out: TxOutput = new_tx_out(new_address(arbitrary_address_payload(), 0), 100000);
    add_to_utxo(&mut utxos, &tx_in, input_tx_out);
    let tx_wits: Witnesses = new_witnesses();

    match annotate_tx(tx) {
        None => assert!(false, "TxSizeUnavailable (sucessful_case)."),
        Some(atx) => match validate_byron_tx(&atx, &tx_wits, &utxos, &protocol_params) {
            Ok(_) => assert!(
                false,
                "Maximum tx size cannot be exceeded: {} / {}.",
                atx.tx_size,
                protocol_params.max_tx_size
            ),
            Err(err) => match err {
                ValidationError::MaxTxSizeExceeded(_, _) => (),
                wet => assert!(false, "Wrong error type (fees_below_minimum - {:?}).", wet),
            },
        },
    }
}
