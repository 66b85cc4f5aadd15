//! The hierarchy of ledger failures that a node reports for a rejected
//! transaction, one type for each layer.
//!
//! Only a few kinds of failure are decoded from the wire; the others are named
//! here so that the hierarchy is whole, and are never the result of a decode.

use crate::scope::views_of;
use crate::value::{TxInput, TxInputView, Value, ValueView};
use vstd::prelude::*;

verus! {

/// A failure of the witness rules that the Alonzo era took over from Shelley.
#[derive(Debug, Clone, PartialEq, Eq)]
pub enum ShelleyUtxowPredFailure {
    InvalidWitnessesUTXOW,
    MissingVKeyWitnessesUTXOW(Vec<Vec<u8>>),
    MissingScriptWitnessesUTXOW(Vec<Vec<u8>>),
    ScriptWitnessNotValidatingUTXOW(Vec<Vec<u8>>),
    UtxoFailure,
    MIRInsufficientGenesisSigsUTXOW,
    MissingTxBodyMetadataHash,
    MissingTxMetadata,
    ConflictingMetadataHash,
    InvalidMetadata,
    ExtraneousScriptWitnessesUTXOW(Vec<Vec<u8>>),
}

/// What a [`ShelleyUtxowPredFailure`] holds, with its lists as sequences.
pub ghost enum ShelleyUtxowPredFailureView {
    InvalidWitnessesUTXOW,
    MissingVKeyWitnessesUTXOW(Seq<Seq<u8>>),
    MissingScriptWitnessesUTXOW(Seq<Seq<u8>>),
    ScriptWitnessNotValidatingUTXOW(Seq<Seq<u8>>),
    UtxoFailure,
    MIRInsufficientGenesisSigsUTXOW,
    MissingTxBodyMetadataHash,
    MissingTxMetadata,
    ConflictingMetadataHash,
    InvalidMetadata,
    ExtraneousScriptWitnessesUTXOW(Seq<Seq<u8>>),
}

impl View for ShelleyUtxowPredFailure {
    type V = ShelleyUtxowPredFailureView;

    open spec fn view(&self) -> ShelleyUtxowPredFailureView {
        match self {
            ShelleyUtxowPredFailure::InvalidWitnessesUTXOW => ShelleyUtxowPredFailureView::InvalidWitnessesUTXOW,
            ShelleyUtxowPredFailure::MissingVKeyWitnessesUTXOW(v) => ShelleyUtxowPredFailureView::MissingVKeyWitnessesUTXOW(views_of(v@)),
            ShelleyUtxowPredFailure::MissingScriptWitnessesUTXOW(v) => ShelleyUtxowPredFailureView::MissingScriptWitnessesUTXOW(views_of(v@)),
            ShelleyUtxowPredFailure::ScriptWitnessNotValidatingUTXOW(v) => ShelleyUtxowPredFailureView::ScriptWitnessNotValidatingUTXOW(views_of(v@)),
            ShelleyUtxowPredFailure::UtxoFailure => ShelleyUtxowPredFailureView::UtxoFailure,
            ShelleyUtxowPredFailure::MIRInsufficientGenesisSigsUTXOW => ShelleyUtxowPredFailureView::MIRInsufficientGenesisSigsUTXOW,
            ShelleyUtxowPredFailure::MissingTxBodyMetadataHash => ShelleyUtxowPredFailureView::MissingTxBodyMetadataHash,
            ShelleyUtxowPredFailure::MissingTxMetadata => ShelleyUtxowPredFailureView::MissingTxMetadata,
            ShelleyUtxowPredFailure::ConflictingMetadataHash => ShelleyUtxowPredFailureView::ConflictingMetadataHash,
            ShelleyUtxowPredFailure::InvalidMetadata => ShelleyUtxowPredFailureView::InvalidMetadata,
            ShelleyUtxowPredFailure::ExtraneousScriptWitnessesUTXOW(v) => ShelleyUtxowPredFailureView::ExtraneousScriptWitnessesUTXOW(views_of(v@)),
        }
    }
}

impl ShelleyUtxowPredFailureView {
    /// The name of the kind of failure.
    pub open spec fn name(self) -> Seq<char> {
        match self {
            ShelleyUtxowPredFailureView::InvalidWitnessesUTXOW => "InvalidWitnessesUTXOW"@,
            ShelleyUtxowPredFailureView::MissingVKeyWitnessesUTXOW(_) => "MissingVKeyWitnessesUTXOW"@,
            ShelleyUtxowPredFailureView::MissingScriptWitnessesUTXOW(_) => "MissingScriptWitnessesUTXOW"@,
            ShelleyUtxowPredFailureView::ScriptWitnessNotValidatingUTXOW(_) => "ScriptWitnessNotValidatingUTXOW"@,
            ShelleyUtxowPredFailureView::UtxoFailure => "UtxoFailure"@,
            ShelleyUtxowPredFailureView::MIRInsufficientGenesisSigsUTXOW => "MIRInsufficientGenesisSigsUTXOW"@,
            ShelleyUtxowPredFailureView::MissingTxBodyMetadataHash => "MissingTxBodyMetadataHash"@,
            ShelleyUtxowPredFailureView::MissingTxMetadata => "MissingTxMetadata"@,
            ShelleyUtxowPredFailureView::ConflictingMetadataHash => "ConflictingMetadataHash"@,
            ShelleyUtxowPredFailureView::InvalidMetadata => "InvalidMetadata"@,
            ShelleyUtxowPredFailureView::ExtraneousScriptWitnessesUTXOW(_) => "ExtraneousScriptWitnessesUTXOW"@,
        }
    }
}

impl ShelleyUtxowPredFailure {
    /// The name of the kind of failure.
    pub fn name(&self) -> (r: &'static str)
        ensures
            r@ == self@.name(),
    {
        match self {
            ShelleyUtxowPredFailure::InvalidWitnessesUTXOW => "InvalidWitnessesUTXOW",
            ShelleyUtxowPredFailure::MissingVKeyWitnessesUTXOW(_) => "MissingVKeyWitnessesUTXOW",
            ShelleyUtxowPredFailure::MissingScriptWitnessesUTXOW(_) => "MissingScriptWitnessesUTXOW",
            ShelleyUtxowPredFailure::ScriptWitnessNotValidatingUTXOW(_) => "ScriptWitnessNotValidatingUTXOW",
            ShelleyUtxowPredFailure::UtxoFailure => "UtxoFailure",
            ShelleyUtxowPredFailure::MIRInsufficientGenesisSigsUTXOW => "MIRInsufficientGenesisSigsUTXOW",
            ShelleyUtxowPredFailure::MissingTxBodyMetadataHash => "MissingTxBodyMetadataHash",
            ShelleyUtxowPredFailure::MissingTxMetadata => "MissingTxMetadata",
            ShelleyUtxowPredFailure::ConflictingMetadataHash => "ConflictingMetadataHash",
            ShelleyUtxowPredFailure::InvalidMetadata => "InvalidMetadata",
            ShelleyUtxowPredFailure::ExtraneousScriptWitnessesUTXOW(_) => "ExtraneousScriptWitnessesUTXOW",
        }
    }
}

/// A failure of the witness rules of the Alonzo era.
#[derive(Debug, Clone, PartialEq, Eq)]
pub enum AlonzoUtxowPredFailure {
    ShelleyInAlonzoUtxowPredfailure(ShelleyUtxowPredFailure),
    MissingRedeemers,
    MissingRequiredDatums,
    NotAllowedSupplementalDatums,
    PPViewHashesDontMatch,
    MissingRequiredSigners(Vec<Vec<u8>>),
    UnspendableUtxoNoDatumHash,
    ExtraRedeemers,
}

/// What a [`AlonzoUtxowPredFailure`] holds, with its lists as sequences.
pub ghost enum AlonzoUtxowPredFailureView {
    ShelleyInAlonzoUtxowPredfailure(ShelleyUtxowPredFailureView),
    MissingRedeemers,
    MissingRequiredDatums,
    NotAllowedSupplementalDatums,
    PPViewHashesDontMatch,
    MissingRequiredSigners(Seq<Seq<u8>>),
    UnspendableUtxoNoDatumHash,
    ExtraRedeemers,
}

impl View for AlonzoUtxowPredFailure {
    type V = AlonzoUtxowPredFailureView;

    open spec fn view(&self) -> AlonzoUtxowPredFailureView {
        match self {
            AlonzoUtxowPredFailure::ShelleyInAlonzoUtxowPredfailure(v) => AlonzoUtxowPredFailureView::ShelleyInAlonzoUtxowPredfailure(v@),
            AlonzoUtxowPredFailure::MissingRedeemers => AlonzoUtxowPredFailureView::MissingRedeemers,
            AlonzoUtxowPredFailure::MissingRequiredDatums => AlonzoUtxowPredFailureView::MissingRequiredDatums,
            AlonzoUtxowPredFailure::NotAllowedSupplementalDatums => AlonzoUtxowPredFailureView::NotAllowedSupplementalDatums,
            AlonzoUtxowPredFailure::PPViewHashesDontMatch => AlonzoUtxowPredFailureView::PPViewHashesDontMatch,
            AlonzoUtxowPredFailure::MissingRequiredSigners(v) => AlonzoUtxowPredFailureView::MissingRequiredSigners(views_of(v@)),
            AlonzoUtxowPredFailure::UnspendableUtxoNoDatumHash => AlonzoUtxowPredFailureView::UnspendableUtxoNoDatumHash,
            AlonzoUtxowPredFailure::ExtraRedeemers => AlonzoUtxowPredFailureView::ExtraRedeemers,
        }
    }
}

impl AlonzoUtxowPredFailureView {
    /// The name of the kind of failure.
    pub open spec fn name(self) -> Seq<char> {
        match self {
            AlonzoUtxowPredFailureView::ShelleyInAlonzoUtxowPredfailure(_) => "ShelleyInAlonzoUtxowPredfailure"@,
            AlonzoUtxowPredFailureView::MissingRedeemers => "MissingRedeemers"@,
            AlonzoUtxowPredFailureView::MissingRequiredDatums => "MissingRequiredDatums"@,
            AlonzoUtxowPredFailureView::NotAllowedSupplementalDatums => "NotAllowedSupplementalDatums"@,
            AlonzoUtxowPredFailureView::PPViewHashesDontMatch => "PPViewHashesDontMatch"@,
            AlonzoUtxowPredFailureView::MissingRequiredSigners(_) => "MissingRequiredSigners"@,
            AlonzoUtxowPredFailureView::UnspendableUtxoNoDatumHash => "UnspendableUtxoNoDatumHash"@,
            AlonzoUtxowPredFailureView::ExtraRedeemers => "ExtraRedeemers"@,
        }
    }
}

impl AlonzoUtxowPredFailure {
    /// The name of the kind of failure.
    pub fn name(&self) -> (r: &'static str)
        ensures
            r@ == self@.name(),
    {
        match self {
            AlonzoUtxowPredFailure::ShelleyInAlonzoUtxowPredfailure(_) => "ShelleyInAlonzoUtxowPredfailure",
            AlonzoUtxowPredFailure::MissingRedeemers => "MissingRedeemers",
            AlonzoUtxowPredFailure::MissingRequiredDatums => "MissingRequiredDatums",
            AlonzoUtxowPredFailure::NotAllowedSupplementalDatums => "NotAllowedSupplementalDatums",
            AlonzoUtxowPredFailure::PPViewHashesDontMatch => "PPViewHashesDontMatch",
            AlonzoUtxowPredFailure::MissingRequiredSigners(_) => "MissingRequiredSigners",
            AlonzoUtxowPredFailure::UnspendableUtxoNoDatumHash => "UnspendableUtxoNoDatumHash",
            AlonzoUtxowPredFailure::ExtraRedeemers => "ExtraRedeemers",
        }
    }
}

/// A failure of the UTxO rules of the Alonzo era. Two kinds carry data: the inputs
/// that are bad, and the two values that do not balance.
#[derive(Debug, Clone, PartialEq, Eq)]
pub enum AlonzoUtxoPredFailure {
    BadInputsUtxo(Vec<TxInput>),
    OutsideValidityIntervalUTxO,
    MaxTxSizeUTxO,
    InputSetEmptyUTxO,
    FeeTooSmallUTxO,
    ValueNotConservedUTxO { consumed_value: Value, produced_value: Value },
    WrongNetwork,
    WrongNetworkWithdrawal,
    OutputTooSmallUTxO,
    UtxosFailure,
    OutputBootAddrAttrsTooBig,
    TriesToForgeADA,
    OutputTooBigUTxO,
    InsufficientCollateral,
    ScriptsNotPaidUTxO,
    ExUnitsTooBigUTxO,
    CollateralContainsNonADA,
    WrongNetworkInTxBody,
    OutsideForecast,
    TooManyCollateralInputs,
    NoCollateralInputs,
}

/// What a [`AlonzoUtxoPredFailure`] holds, with its lists as sequences.
pub ghost enum AlonzoUtxoPredFailureView {
    BadInputsUtxo(Seq<TxInputView>),
    OutsideValidityIntervalUTxO,
    MaxTxSizeUTxO,
    InputSetEmptyUTxO,
    FeeTooSmallUTxO,
    ValueNotConservedUTxO { consumed_value: ValueView, produced_value: ValueView },
    WrongNetwork,
    WrongNetworkWithdrawal,
    OutputTooSmallUTxO,
    UtxosFailure,
    OutputBootAddrAttrsTooBig,
    TriesToForgeADA,
    OutputTooBigUTxO,
    InsufficientCollateral,
    ScriptsNotPaidUTxO,
    ExUnitsTooBigUTxO,
    CollateralContainsNonADA,
    WrongNetworkInTxBody,
    OutsideForecast,
    TooManyCollateralInputs,
    NoCollateralInputs,
}

impl View for AlonzoUtxoPredFailure {
    type V = AlonzoUtxoPredFailureView;

    open spec fn view(&self) -> AlonzoUtxoPredFailureView {
        match self {
            AlonzoUtxoPredFailure::BadInputsUtxo(v) => AlonzoUtxoPredFailureView::BadInputsUtxo(views_of(v@)),
            AlonzoUtxoPredFailure::OutsideValidityIntervalUTxO => AlonzoUtxoPredFailureView::OutsideValidityIntervalUTxO,
            AlonzoUtxoPredFailure::MaxTxSizeUTxO => AlonzoUtxoPredFailureView::MaxTxSizeUTxO,
            AlonzoUtxoPredFailure::InputSetEmptyUTxO => AlonzoUtxoPredFailureView::InputSetEmptyUTxO,
            AlonzoUtxoPredFailure::FeeTooSmallUTxO => AlonzoUtxoPredFailureView::FeeTooSmallUTxO,
            AlonzoUtxoPredFailure::ValueNotConservedUTxO { consumed_value, produced_value } => AlonzoUtxoPredFailureView::ValueNotConservedUTxO {
                consumed_value: consumed_value@,
                produced_value: produced_value@,
            },
            AlonzoUtxoPredFailure::WrongNetwork => AlonzoUtxoPredFailureView::WrongNetwork,
            AlonzoUtxoPredFailure::WrongNetworkWithdrawal => AlonzoUtxoPredFailureView::WrongNetworkWithdrawal,
            AlonzoUtxoPredFailure::OutputTooSmallUTxO => AlonzoUtxoPredFailureView::OutputTooSmallUTxO,
            AlonzoUtxoPredFailure::UtxosFailure => AlonzoUtxoPredFailureView::UtxosFailure,
            AlonzoUtxoPredFailure::OutputBootAddrAttrsTooBig => AlonzoUtxoPredFailureView::OutputBootAddrAttrsTooBig,
            AlonzoUtxoPredFailure::TriesToForgeADA => AlonzoUtxoPredFailureView::TriesToForgeADA,
            AlonzoUtxoPredFailure::OutputTooBigUTxO => AlonzoUtxoPredFailureView::OutputTooBigUTxO,
            AlonzoUtxoPredFailure::InsufficientCollateral => AlonzoUtxoPredFailureView::InsufficientCollateral,
            AlonzoUtxoPredFailure::ScriptsNotPaidUTxO => AlonzoUtxoPredFailureView::ScriptsNotPaidUTxO,
            AlonzoUtxoPredFailure::ExUnitsTooBigUTxO => AlonzoUtxoPredFailureView::ExUnitsTooBigUTxO,
            AlonzoUtxoPredFailure::CollateralContainsNonADA => AlonzoUtxoPredFailureView::CollateralContainsNonADA,
            AlonzoUtxoPredFailure::WrongNetworkInTxBody => AlonzoUtxoPredFailureView::WrongNetworkInTxBody,
            AlonzoUtxoPredFailure::OutsideForecast => AlonzoUtxoPredFailureView::OutsideForecast,
            AlonzoUtxoPredFailure::TooManyCollateralInputs => AlonzoUtxoPredFailureView::TooManyCollateralInputs,
            AlonzoUtxoPredFailure::NoCollateralInputs => AlonzoUtxoPredFailureView::NoCollateralInputs,
        }
    }
}

impl AlonzoUtxoPredFailureView {
    /// The name of the kind of failure.
    pub open spec fn name(self) -> Seq<char> {
        match self {
            AlonzoUtxoPredFailureView::BadInputsUtxo(_) => "BadInputsUtxo"@,
            AlonzoUtxoPredFailureView::OutsideValidityIntervalUTxO => "OutsideValidityIntervalUTxO"@,
            AlonzoUtxoPredFailureView::MaxTxSizeUTxO => "MaxTxSizeUTxO"@,
            AlonzoUtxoPredFailureView::InputSetEmptyUTxO => "InputSetEmptyUTxO"@,
            AlonzoUtxoPredFailureView::FeeTooSmallUTxO => "FeeTooSmallUTxO"@,
            AlonzoUtxoPredFailureView::ValueNotConservedUTxO { .. } => "ValueNotConservedUTxO"@,
            AlonzoUtxoPredFailureView::WrongNetwork => "WrongNetwork"@,
            AlonzoUtxoPredFailureView::WrongNetworkWithdrawal => "WrongNetworkWithdrawal"@,
            AlonzoUtxoPredFailureView::OutputTooSmallUTxO => "OutputTooSmallUTxO"@,
            AlonzoUtxoPredFailureView::UtxosFailure => "UtxosFailure"@,
            AlonzoUtxoPredFailureView::OutputBootAddrAttrsTooBig => "OutputBootAddrAttrsTooBig"@,
            AlonzoUtxoPredFailureView::TriesToForgeADA => "TriesToForgeADA"@,
            AlonzoUtxoPredFailureView::OutputTooBigUTxO => "OutputTooBigUTxO"@,
            AlonzoUtxoPredFailureView::InsufficientCollateral => "InsufficientCollateral"@,
            AlonzoUtxoPredFailureView::ScriptsNotPaidUTxO => "ScriptsNotPaidUTxO"@,
            AlonzoUtxoPredFailureView::ExUnitsTooBigUTxO => "ExUnitsTooBigUTxO"@,
            AlonzoUtxoPredFailureView::CollateralContainsNonADA => "CollateralContainsNonADA"@,
            AlonzoUtxoPredFailureView::WrongNetworkInTxBody => "WrongNetworkInTxBody"@,
            AlonzoUtxoPredFailureView::OutsideForecast => "OutsideForecast"@,
            AlonzoUtxoPredFailureView::TooManyCollateralInputs => "TooManyCollateralInputs"@,
            AlonzoUtxoPredFailureView::NoCollateralInputs => "NoCollateralInputs"@,
        }
    }
}

impl AlonzoUtxoPredFailure {
    /// The name of the kind of failure.
    pub fn name(&self) -> (r: &'static str)
        ensures
            r@ == self@.name(),
    {
        match self {
            AlonzoUtxoPredFailure::BadInputsUtxo(_) => "BadInputsUtxo",
            AlonzoUtxoPredFailure::OutsideValidityIntervalUTxO => "OutsideValidityIntervalUTxO",
            AlonzoUtxoPredFailure::MaxTxSizeUTxO => "MaxTxSizeUTxO",
            AlonzoUtxoPredFailure::InputSetEmptyUTxO => "InputSetEmptyUTxO",
            AlonzoUtxoPredFailure::FeeTooSmallUTxO => "FeeTooSmallUTxO",
            AlonzoUtxoPredFailure::ValueNotConservedUTxO { .. } => "ValueNotConservedUTxO",
            AlonzoUtxoPredFailure::WrongNetwork => "WrongNetwork",
            AlonzoUtxoPredFailure::WrongNetworkWithdrawal => "WrongNetworkWithdrawal",
            AlonzoUtxoPredFailure::OutputTooSmallUTxO => "OutputTooSmallUTxO",
            AlonzoUtxoPredFailure::UtxosFailure => "UtxosFailure",
            AlonzoUtxoPredFailure::OutputBootAddrAttrsTooBig => "OutputBootAddrAttrsTooBig",
            AlonzoUtxoPredFailure::TriesToForgeADA => "TriesToForgeADA",
            AlonzoUtxoPredFailure::OutputTooBigUTxO => "OutputTooBigUTxO",
            AlonzoUtxoPredFailure::InsufficientCollateral => "InsufficientCollateral",
            AlonzoUtxoPredFailure::ScriptsNotPaidUTxO => "ScriptsNotPaidUTxO",
            AlonzoUtxoPredFailure::ExUnitsTooBigUTxO => "ExUnitsTooBigUTxO",
            AlonzoUtxoPredFailure::CollateralContainsNonADA => "CollateralContainsNonADA",
            AlonzoUtxoPredFailure::WrongNetworkInTxBody => "WrongNetworkInTxBody",
            AlonzoUtxoPredFailure::OutsideForecast => "OutsideForecast",
            AlonzoUtxoPredFailure::TooManyCollateralInputs => "TooManyCollateralInputs",
            AlonzoUtxoPredFailure::NoCollateralInputs => "NoCollateralInputs",
        }
    }
}

/// A failure of the UTxO rules of the Babbage era.
#[derive(Debug, Clone, PartialEq, Eq)]
pub enum BabbageUtxoPredFailure {
    AlonzoInBabbageUtxoPredFailure(AlonzoUtxoPredFailure),
    IncorrectTotalCollateralField,
    BabbageOutputTooSmallUTxO,
    BabbageNonDisjointRefInputs,
}

/// What a [`BabbageUtxoPredFailure`] holds, with its lists as sequences.
pub ghost enum BabbageUtxoPredFailureView {
    AlonzoInBabbageUtxoPredFailure(AlonzoUtxoPredFailureView),
    IncorrectTotalCollateralField,
    BabbageOutputTooSmallUTxO,
    BabbageNonDisjointRefInputs,
}

impl View for BabbageUtxoPredFailure {
    type V = BabbageUtxoPredFailureView;

    open spec fn view(&self) -> BabbageUtxoPredFailureView {
        match self {
            BabbageUtxoPredFailure::AlonzoInBabbageUtxoPredFailure(v) => BabbageUtxoPredFailureView::AlonzoInBabbageUtxoPredFailure(v@),
            BabbageUtxoPredFailure::IncorrectTotalCollateralField => BabbageUtxoPredFailureView::IncorrectTotalCollateralField,
            BabbageUtxoPredFailure::BabbageOutputTooSmallUTxO => BabbageUtxoPredFailureView::BabbageOutputTooSmallUTxO,
            BabbageUtxoPredFailure::BabbageNonDisjointRefInputs => BabbageUtxoPredFailureView::BabbageNonDisjointRefInputs,
        }
    }
}

impl BabbageUtxoPredFailureView {
    /// The name of the kind of failure.
    pub open spec fn name(self) -> Seq<char> {
        match self {
            BabbageUtxoPredFailureView::AlonzoInBabbageUtxoPredFailure(_) => "AlonzoInBabbageUtxoPredFailure"@,
            BabbageUtxoPredFailureView::IncorrectTotalCollateralField => "IncorrectTotalCollateralField"@,
            BabbageUtxoPredFailureView::BabbageOutputTooSmallUTxO => "BabbageOutputTooSmallUTxO"@,
            BabbageUtxoPredFailureView::BabbageNonDisjointRefInputs => "BabbageNonDisjointRefInputs"@,
        }
    }
}

impl BabbageUtxoPredFailure {
    /// The name of the kind of failure.
    pub fn name(&self) -> (r: &'static str)
        ensures
            r@ == self@.name(),
    {
        match self {
            BabbageUtxoPredFailure::AlonzoInBabbageUtxoPredFailure(_) => "AlonzoInBabbageUtxoPredFailure",
            BabbageUtxoPredFailure::IncorrectTotalCollateralField => "IncorrectTotalCollateralField",
            BabbageUtxoPredFailure::BabbageOutputTooSmallUTxO => "BabbageOutputTooSmallUTxO",
            BabbageUtxoPredFailure::BabbageNonDisjointRefInputs => "BabbageNonDisjointRefInputs",
        }
    }
}

/// A failure of the witness rules of the Babbage era, or of the UTxO rules below them.
#[derive(Debug, Clone, PartialEq, Eq)]
pub enum BabbageUtxowPredFailure {
    AlonzoInBabbageUtxowPredFailure(AlonzoUtxowPredFailure),
    UtxoFailure(BabbageUtxoPredFailure),
    MalformedScriptWitnesses,
    MalformedReferenceScripts,
}

/// What a [`BabbageUtxowPredFailure`] holds, with its lists as sequences.
pub ghost enum BabbageUtxowPredFailureView {
    AlonzoInBabbageUtxowPredFailure(AlonzoUtxowPredFailureView),
    UtxoFailure(BabbageUtxoPredFailureView),
    MalformedScriptWitnesses,
    MalformedReferenceScripts,
}

impl View for BabbageUtxowPredFailure {
    type V = BabbageUtxowPredFailureView;

    open spec fn view(&self) -> BabbageUtxowPredFailureView {
        match self {
            BabbageUtxowPredFailure::AlonzoInBabbageUtxowPredFailure(v) => BabbageUtxowPredFailureView::AlonzoInBabbageUtxowPredFailure(v@),
            BabbageUtxowPredFailure::UtxoFailure(v) => BabbageUtxowPredFailureView::UtxoFailure(v@),
            BabbageUtxowPredFailure::MalformedScriptWitnesses => BabbageUtxowPredFailureView::MalformedScriptWitnesses,
            BabbageUtxowPredFailure::MalformedReferenceScripts => BabbageUtxowPredFailureView::MalformedReferenceScripts,
        }
    }
}

impl BabbageUtxowPredFailureView {
    /// The name of the kind of failure.
    pub open spec fn name(self) -> Seq<char> {
        match self {
            BabbageUtxowPredFailureView::AlonzoInBabbageUtxowPredFailure(_) => "AlonzoInBabbageUtxowPredFailure"@,
            BabbageUtxowPredFailureView::UtxoFailure(_) => "UtxoFailure"@,
            BabbageUtxowPredFailureView::MalformedScriptWitnesses => "MalformedScriptWitnesses"@,
            BabbageUtxowPredFailureView::MalformedReferenceScripts => "MalformedReferenceScripts"@,
        }
    }
}

impl BabbageUtxowPredFailure {
    /// The name of the kind of failure.
    pub fn name(&self) -> (r: &'static str)
        ensures
            r@ == self@.name(),
    {
        match self {
            BabbageUtxowPredFailure::AlonzoInBabbageUtxowPredFailure(_) => "AlonzoInBabbageUtxowPredFailure",
            BabbageUtxowPredFailure::UtxoFailure(_) => "UtxoFailure",
            BabbageUtxowPredFailure::MalformedScriptWitnesses => "MalformedScriptWitnesses",
            BabbageUtxowPredFailure::MalformedReferenceScripts => "MalformedReferenceScripts",
        }
    }
}

/// One rejection entry: the top of the hierarchy of ledger failures.
#[derive(Debug, Clone, PartialEq, Eq)]
pub enum ShelleyLedgerPredFailure {
    UtxowFailure(BabbageUtxowPredFailure),
    DelegsFailure,
}

/// What a [`ShelleyLedgerPredFailure`] holds, with its lists as sequences.
pub ghost enum ShelleyLedgerPredFailureView {
    UtxowFailure(BabbageUtxowPredFailureView),
    DelegsFailure,
}

impl View for ShelleyLedgerPredFailure {
    type V = ShelleyLedgerPredFailureView;

    open spec fn view(&self) -> ShelleyLedgerPredFailureView {
        match self {
            ShelleyLedgerPredFailure::UtxowFailure(v) => ShelleyLedgerPredFailureView::UtxowFailure(v@),
            ShelleyLedgerPredFailure::DelegsFailure => ShelleyLedgerPredFailureView::DelegsFailure,
        }
    }
}

impl ShelleyLedgerPredFailureView {
    /// The name of the kind of failure.
    pub open spec fn name(self) -> Seq<char> {
        match self {
            ShelleyLedgerPredFailureView::UtxowFailure(_) => "UtxowFailure"@,
            ShelleyLedgerPredFailureView::DelegsFailure => "DelegsFailure"@,
        }
    }
}

impl ShelleyLedgerPredFailure {
    /// The name of the kind of failure.
    pub fn name(&self) -> (r: &'static str)
        ensures
            r@ == self@.name(),
    {
        match self {
            ShelleyLedgerPredFailure::UtxowFailure(_) => "UtxowFailure",
            ShelleyLedgerPredFailure::DelegsFailure => "DelegsFailure",
        }
    }
}

} // verus!
