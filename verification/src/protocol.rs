//! The messages of the mini-protocol, and the reasons of a rejection in the
//! form that applications use.

use crate::cursor::Cursor;
use crate::error::DecodeError;
use crate::failures::{
    AlonzoUtxoPredFailure, AlonzoUtxoPredFailureView, AlonzoUtxowPredFailure,
    AlonzoUtxowPredFailureView, BabbageUtxoPredFailure, BabbageUtxoPredFailureView,
    BabbageUtxowPredFailure, BabbageUtxowPredFailureView, ShelleyLedgerPredFailure,
    ShelleyLedgerPredFailureView, ShelleyUtxowPredFailure, ShelleyUtxowPredFailureView,
};
use crate::node_errors::{TxApplyErrors, TxApplyErrorsView};
use crate::scope::{views_of, OuterScope};
use crate::value::{TxInput, TxInputView, Value, ValueView};
use vstd::prelude::*;

verus! {

/// Where the protocol stands between client and node.
#[derive(Debug, PartialEq, Eq, Clone)]
pub enum State {
    Idle,
    Busy,
    Done,
}

/// A message of the mini-protocol.
#[derive(Debug, PartialEq, Eq)]
pub enum Message<Tx, Reject> {
    SubmitTx(Tx),
    AcceptTx,
    RejectTx(Reject),
    Done,
}

/// The bytes of a transaction with the number of its era.
#[derive(Debug, Clone, Eq, PartialEq)]
pub struct EraTx(pub u16, pub Vec<u8>);

impl View for EraTx {
    type V = (u16, Seq<u8>);

    open spec fn view(&self) -> (u16, Seq<u8>) {
        (self.0, self.1@)
    }
}

/// The reason of a rejection as the node sent it.
#[derive(Debug, Clone, Eq, PartialEq)]
pub struct RejectReasonBytes(pub Vec<u8>);

/// Why a transaction was rejected, in the form that applications use.
#[derive(Debug, Clone, PartialEq, Eq)]
pub enum RejectReason {
    /// Inputs that are missing or bad.
    BadInputsUtxo(Vec<TxInput>),
    /// What the transaction consumes is not what it produces.
    ValueNotConserved { consumed: Value, produced: Value },
    MissingVKeyWitnesses(Vec<Vec<u8>>),
    MissingScriptWitnesses(Vec<Vec<u8>>),
    /// A failure that is not told apart; the text names its kind.
    Unknown(String),
}

/// What a [`RejectReason`] holds, with its lists as sequences.
pub ghost enum RejectReasonView {
    BadInputsUtxo(Seq<TxInputView>),
    ValueNotConserved { consumed: ValueView, produced: ValueView },
    MissingVKeyWitnesses(Seq<Seq<u8>>),
    MissingScriptWitnesses(Seq<Seq<u8>>),
    Unknown(Seq<char>),
}

impl View for RejectReason {
    type V = RejectReasonView;

    open spec fn view(&self) -> RejectReasonView {
        match self {
            RejectReason::BadInputsUtxo(v) => RejectReasonView::BadInputsUtxo(views_of(v@)),
            RejectReason::ValueNotConserved { consumed, produced } => {
                RejectReasonView::ValueNotConserved { consumed: consumed@, produced: produced@ }
            },
            RejectReason::MissingVKeyWitnesses(v) => RejectReasonView::MissingVKeyWitnesses(
                views_of(v@),
            ),
            RejectReason::MissingScriptWitnesses(v) => RejectReasonView::MissingScriptWitnesses(
                views_of(v@),
            ),
            RejectReason::Unknown(s) => RejectReasonView::Unknown(s@),
        }
    }
}

/// The name of the innermost failure of an entry: the layer that says what went
/// wrong.
pub open spec fn innermost_name(entry: ShelleyLedgerPredFailureView) -> Seq<char> {
    match entry {
        ShelleyLedgerPredFailureView::UtxowFailure(utxow) => match utxow {
            BabbageUtxowPredFailureView::AlonzoInBabbageUtxowPredFailure(alonzo) => match alonzo {
                AlonzoUtxowPredFailureView::ShelleyInAlonzoUtxowPredfailure(shelley) => shelley.name(),
                _ => alonzo.name(),
            },
            BabbageUtxowPredFailureView::UtxoFailure(utxo) => match utxo {
                BabbageUtxoPredFailureView::AlonzoInBabbageUtxoPredFailure(alonzo) => alonzo.name(),
                _ => utxo.name(),
            },
            _ => utxow.name(),
        },
        _ => entry.name(),
    }
}

/// Whether an entry is one of the four failures that have a reason of their own.
pub open spec fn has_specific_reason(entry: ShelleyLedgerPredFailureView) -> bool {
    match entry {
        ShelleyLedgerPredFailureView::UtxowFailure(
            BabbageUtxowPredFailureView::AlonzoInBabbageUtxowPredFailure(
                AlonzoUtxowPredFailureView::ShelleyInAlonzoUtxowPredfailure(shelley),
            ),
        ) => shelley is MissingVKeyWitnessesUTXOW || shelley is MissingScriptWitnessesUTXOW,
        ShelleyLedgerPredFailureView::UtxowFailure(
            BabbageUtxowPredFailureView::UtxoFailure(
                BabbageUtxoPredFailureView::AlonzoInBabbageUtxoPredFailure(alonzo),
            ),
        ) => alonzo is BadInputsUtxo || alonzo is ValueNotConservedUTxO,
        _ => false,
    }
}

/// The reason that an entry stands for. Bad inputs, values that do not balance
/// and missing witnesses keep what they carry; every other entry becomes
/// `Unknown` with the name of its innermost failure.
pub open spec fn flatten(entry: ShelleyLedgerPredFailureView) -> RejectReasonView {
    match entry {
        ShelleyLedgerPredFailureView::UtxowFailure(
            BabbageUtxowPredFailureView::AlonzoInBabbageUtxowPredFailure(
                AlonzoUtxowPredFailureView::ShelleyInAlonzoUtxowPredfailure(
                    ShelleyUtxowPredFailureView::MissingVKeyWitnessesUTXOW(missing),
                ),
            ),
        ) => RejectReasonView::MissingVKeyWitnesses(missing),
        ShelleyLedgerPredFailureView::UtxowFailure(
            BabbageUtxowPredFailureView::AlonzoInBabbageUtxowPredFailure(
                AlonzoUtxowPredFailureView::ShelleyInAlonzoUtxowPredfailure(
                    ShelleyUtxowPredFailureView::MissingScriptWitnessesUTXOW(missing),
                ),
            ),
        ) => RejectReasonView::MissingScriptWitnesses(missing),
        ShelleyLedgerPredFailureView::UtxowFailure(
            BabbageUtxowPredFailureView::UtxoFailure(
                BabbageUtxoPredFailureView::AlonzoInBabbageUtxoPredFailure(
                    AlonzoUtxoPredFailureView::BadInputsUtxo(inputs),
                ),
            ),
        ) => RejectReasonView::BadInputsUtxo(inputs),
        ShelleyLedgerPredFailureView::UtxowFailure(
            BabbageUtxowPredFailureView::UtxoFailure(
                BabbageUtxoPredFailureView::AlonzoInBabbageUtxoPredFailure(
                    AlonzoUtxoPredFailureView::ValueNotConservedUTxO {
                        consumed_value,
                        produced_value,
                    },
                ),
            ),
        ) => RejectReasonView::ValueNotConserved {
            consumed: consumed_value,
            produced: produced_value,
        },
        _ => RejectReasonView::Unknown(innermost_name(entry)),
    }
}

/// Flattening is total: every entry has exactly one reason, the value of
/// [`flatten`]. That reason is `Unknown` exactly for the entries that are none
/// of the four failures with a reason of their own, and it then names the
/// innermost failure.
pub proof fn flattening_is_total(entry: ShelleyLedgerPredFailureView)
    ensures
        flatten(entry) is Unknown <==> !has_specific_reason(entry),
        flatten(entry) is Unknown ==> flatten(entry)->Unknown_0 == innermost_name(entry),
        flatten(entry) is BadInputsUtxo || flatten(entry) is ValueNotConserved || flatten(entry)
            is MissingVKeyWitnesses || flatten(entry) is MissingScriptWitnesses
            <==> has_specific_reason(entry),
{
}

fn unknown(name: &'static str) -> (r: RejectReason)
    ensures
        r@ == RejectReasonView::Unknown(name@),
{
    RejectReason::Unknown(name.to_owned())
}

impl RejectReason {
    /// The reason that a rejection entry stands for. No entry is left without
    /// one: what has no reason of its own becomes `Unknown`.
    pub fn from(value: ShelleyLedgerPredFailure) -> (r: RejectReason)
        ensures
            r@ == flatten(value@),
    {
        match value {
            ShelleyLedgerPredFailure::UtxowFailure(utxow) => match utxow {
                BabbageUtxowPredFailure::AlonzoInBabbageUtxowPredFailure(alonzo) => match alonzo {
                    AlonzoUtxowPredFailure::ShelleyInAlonzoUtxowPredfailure(shelley) => {
                        match shelley {
                            ShelleyUtxowPredFailure::MissingVKeyWitnessesUTXOW(missing) => {
                                RejectReason::MissingVKeyWitnesses(missing)
                            },
                            ShelleyUtxowPredFailure::MissingScriptWitnessesUTXOW(missing) => {
                                RejectReason::MissingScriptWitnesses(missing)
                            },
                            other => unknown(other.name()),
                        }
                    },
                    other => unknown(other.name()),
                },
                BabbageUtxowPredFailure::UtxoFailure(utxo) => match utxo {
                    BabbageUtxoPredFailure::AlonzoInBabbageUtxoPredFailure(alonzo) => match alonzo {
                        AlonzoUtxoPredFailure::BadInputsUtxo(inputs) => {
                            RejectReason::BadInputsUtxo(inputs)
                        },
                        AlonzoUtxoPredFailure::ValueNotConservedUTxO {
                            consumed_value,
                            produced_value,
                        } => RejectReason::ValueNotConserved {
                            consumed: consumed_value,
                            produced: produced_value,
                        },
                        other => unknown(other.name()),
                    },
                    other => unknown(other.name()),
                },
                other => unknown(other.name()),
            },
            other => unknown(other.name()),
        }
    }
}

/// The reasons that a run of entries stands for.
pub open spec fn flattened(entries: Seq<ShelleyLedgerPredFailureView>) -> Seq<RejectReasonView> {
    entries.map_values(|e: ShelleyLedgerPredFailureView| flatten(e))
}

/// The reasons of a rejection: one for every entry that was decoded, in the
/// order of the wire, and for every entry that was skipped the cause.
#[derive(Debug, Clone, PartialEq, Eq)]
pub struct TxRejectionReasons {
    pub reasons: Vec<RejectReason>,
    pub skipped: Vec<DecodeError>,
}

impl TxRejectionReasons {
    /// That `self` holds the reasons of `errors`.
    pub open spec fn tells(self, errors: TxApplyErrorsView) -> bool {
        views_of(self.reasons@) == flattened(errors.non_script_errors) && self.skipped@
            == errors.skipped
    }

    /// Turns what was decoded into reasons, entry by entry.
    pub fn of(errors: TxApplyErrors) -> (r: TxRejectionReasons)
        ensures
            r.tells(errors@),
    {
        let TxApplyErrors { non_script_errors, skipped } = errors;
        let ghost entries = non_script_errors@;
        let mut reasons: Vec<RejectReason> = Vec::new();
        for failure in it: non_script_errors
            invariant
                it.seq() == entries,
                reasons@.len() == it.index(),
                forall|i: int| 0 <= i < it.index() ==> (#[trigger] reasons@[i])@ == flatten(entries[i]@),
        {
            reasons.push(RejectReason::from(failure));
        }
        assert(views_of(reasons@) =~= flattened(views_of(entries)));
        TxRejectionReasons { reasons, skipped }
    }

    /// Decodes the answer of a node to a rejected transaction and flattens its
    /// entries. It succeeds exactly where [`TxApplyErrors::decode`] succeeds on
    /// the bytes, from their start and with no scope open.
    pub fn decode(bytes: &[u8]) -> (r: Result<TxRejectionReasons, DecodeError>)
        ensures
            match TxApplyErrors::parse(bytes@, 0, Seq::empty()).result {
                Ok(errors) => r matches Ok(found) && found.tells(errors),
                Err(e) => r matches Err(f) && f == e,
            },
    {
        let mut d = Cursor::new(bytes);
        let mut ctx: Vec<OuterScope> = Vec::new();
        assert(ctx@ =~= Seq::<OuterScope>::empty());
        match TxApplyErrors::decode(&mut d, &mut ctx) {
            Ok(errors) => Ok(Self::of(errors)),
            Err(e) => Err(e),
        }
    }

    /// Whether every entry of the rejection was decoded.
    pub fn fully_decoded(&self) -> (b: bool)
        ensures
            b == (self.skipped@.len() == 0),
    {
        self.skipped.len() == 0
    }

    /// The number of entries that were skipped.
    pub fn unparsed(&self) -> (n: usize)
        ensures
            n == self.skipped@.len(),
    {
        self.skipped.len()
    }

    /// Decodes the raw reason of a rejection.
    pub fn try_from(bytes: RejectReasonBytes) -> (r: Result<TxRejectionReasons, DecodeError>)
        ensures
            match TxApplyErrors::parse(bytes.0@, 0, Seq::empty()).result {
                Ok(errors) => r matches Ok(found) && found.tells(errors),
                Err(e) => r matches Err(f) && f == e,
            },
    {
        Self::decode(bytes.0.as_slice())
    }
}

} // verus!
