use localtxsubmission::failures::{
    AlonzoUtxoPredFailure, AlonzoUtxowPredFailure, BabbageUtxoPredFailure, BabbageUtxowPredFailure,
    ShelleyLedgerPredFailure, ShelleyUtxowPredFailure,
};
use localtxsubmission::protocol::{RejectReason, State};
use localtxsubmission::value::{TxInput, Value};

fn shelley(failure: ShelleyUtxowPredFailure) -> ShelleyLedgerPredFailure {
    ShelleyLedgerPredFailure::UtxowFailure(
        BabbageUtxowPredFailure::AlonzoInBabbageUtxowPredFailure(
            AlonzoUtxowPredFailure::ShelleyInAlonzoUtxowPredfailure(failure),
        ),
    )
}

fn alonzo(failure: AlonzoUtxoPredFailure) -> ShelleyLedgerPredFailure {
    ShelleyLedgerPredFailure::UtxowFailure(BabbageUtxowPredFailure::UtxoFailure(
        BabbageUtxoPredFailure::AlonzoInBabbageUtxoPredFailure(failure),
    ))
}

fn unknown(name: &str) -> RejectReason {
    RejectReason::Unknown(name.to_string())
}

#[test]
fn the_four_failures_with_a_reason_keep_what_they_carry() {
    let input = TxInput { tx_hash: vec![7; 32], index: 4 };
    assert_eq!(
        RejectReason::from(alonzo(AlonzoUtxoPredFailure::BadInputsUtxo(vec![input.clone()]))),
        RejectReason::BadInputsUtxo(vec![input])
    );
    assert_eq!(
        RejectReason::from(alonzo(AlonzoUtxoPredFailure::ValueNotConservedUTxO {
            consumed_value: Value::Coin(5),
            produced_value: Value::Multiasset(9, vec![]),
        })),
        RejectReason::ValueNotConserved {
            consumed: Value::Coin(5),
            produced: Value::Multiasset(9, vec![]),
        }
    );
    assert_eq!(
        RejectReason::from(shelley(ShelleyUtxowPredFailure::MissingVKeyWitnessesUTXOW(vec![vec![1; 28]]))),
        RejectReason::MissingVKeyWitnesses(vec![vec![1; 28]])
    );
    assert_eq!(
        RejectReason::from(shelley(ShelleyUtxowPredFailure::MissingScriptWitnessesUTXOW(vec![vec![2; 28]]))),
        RejectReason::MissingScriptWitnesses(vec![vec![2; 28]])
    );
}

#[test]
fn every_other_failure_is_unknown_and_named() {
    assert_eq!(RejectReason::from(ShelleyLedgerPredFailure::DelegsFailure), unknown("DelegsFailure"));
    assert_eq!(
        RejectReason::from(ShelleyLedgerPredFailure::UtxowFailure(
            BabbageUtxowPredFailure::MalformedScriptWitnesses
        )),
        unknown("MalformedScriptWitnesses")
    );
    assert_eq!(
        RejectReason::from(ShelleyLedgerPredFailure::UtxowFailure(
            BabbageUtxowPredFailure::UtxoFailure(BabbageUtxoPredFailure::BabbageOutputTooSmallUTxO)
        )),
        unknown("BabbageOutputTooSmallUTxO")
    );
    assert_eq!(
        RejectReason::from(ShelleyLedgerPredFailure::UtxowFailure(
            BabbageUtxowPredFailure::AlonzoInBabbageUtxowPredFailure(
                AlonzoUtxowPredFailure::ExtraRedeemers
            )
        )),
        unknown("ExtraRedeemers")
    );
    assert_eq!(
        RejectReason::from(alonzo(AlonzoUtxoPredFailure::FeeTooSmallUTxO)),
        unknown("FeeTooSmallUTxO")
    );
    assert_eq!(
        RejectReason::from(alonzo(AlonzoUtxoPredFailure::NoCollateralInputs)),
        unknown("NoCollateralInputs")
    );
    assert_eq!(
        RejectReason::from(shelley(ShelleyUtxowPredFailure::InvalidWitnessesUTXOW)),
        unknown("InvalidWitnessesUTXOW")
    );
    assert_eq!(
        RejectReason::from(shelley(ShelleyUtxowPredFailure::ExtraneousScriptWitnessesUTXOW(vec![]))),
        unknown("ExtraneousScriptWitnessesUTXOW")
    );
    assert_eq!(
        RejectReason::from(shelley(ShelleyUtxowPredFailure::ScriptWitnessNotValidatingUTXOW(vec![
            vec![3; 28]
        ]))),
        unknown("ScriptWitnessNotValidatingUTXOW")
    );
}

#[test]
fn failures_tell_their_names() {
    assert_eq!(ShelleyLedgerPredFailure::DelegsFailure.name(), "DelegsFailure");
    assert_eq!(alonzo(AlonzoUtxoPredFailure::WrongNetwork).name(), "UtxowFailure");
    assert_eq!(AlonzoUtxoPredFailure::BadInputsUtxo(vec![]).name(), "BadInputsUtxo");
    assert_eq!(BabbageUtxoPredFailure::IncorrectTotalCollateralField.name(), "IncorrectTotalCollateralField");
    assert_eq!(AlonzoUtxowPredFailure::PPViewHashesDontMatch.name(), "PPViewHashesDontMatch");
    assert_eq!(ShelleyUtxowPredFailure::MIRInsufficientGenesisSigsUTXOW.name(), "MIRInsufficientGenesisSigsUTXOW");
}

#[test]
fn the_states_of_the_protocol_are_told_apart() {
    assert_eq!(State::Idle, State::Idle.clone());
    assert_ne!(State::Idle, State::Busy);
    assert_ne!(State::Busy, State::Done);
}
