//! Loading or creating the signing identity of a device.
//!
//! A device keeps an identity record naming the public key of its signer; the signer
//! itself lives in the device's MLS store. An [`IdentityFlow`] decides, step by step,
//! what to do: it hands out an [`IdentityAction`], the caller performs it and answers
//! with an [`IdentityEvent`].
use vstd::prelude::*;
use crate::codec::{base64_decoding, base64_text, decode_base64, encode_base64, is_base64_text, lemma_base64_text_injective};
use crate::exchange::bytes_outcome;
use crate::text::join;

verus! {

/// What the caller is asked to do next.
pub enum IdentityAction {
    /// Tell whether the device's identity record exists.
    CheckRecord,
    /// Read and parse the identity record.
    ReadRecord,
    /// Look the signer with this public key up in the device's store.
    ReadSigner { public_key: Vec<u8> },
    /// Create the directory that holds the identity record.
    PrepareDirectory,
    /// Generate a new Ed25519 signer.
    GenerateSigner,
    /// Put the generated signer into the device's store.
    StoreSigner,
    /// Write the identity record, naming the public key in base64.
    WriteRecord { public_key_base64: String },
    /// The flow is over: the signer is ready, or the message says why not.
    Finish(Result<(), String>),
}

/// What the caller reports back.
pub enum IdentityEvent {
    /// Whether the identity record exists.
    RecordPresent(bool),
    /// The public key named by the identity record, in base64.
    Record { public_key_base64: String },
    /// Whether the store holds a signer with the requested public key.
    SignerFound(bool),
    /// A signer was generated; this is its public key.
    SignerGenerated { public_key: Vec<u8> },
    /// The requested step succeeded.
    Done,
    /// The requested step failed; this is the outside error's message.
    Failed(String),
}

enum IdentityStage {
    Checking,
    Reading,
    LookingUp,
    Preparing,
    Generating,
    Storing { public_key: Vec<u8> },
    Writing,
    Finished,
}

/// The state of loading or creating one device's identity.
pub struct IdentityFlow {
    device: String,
    stage: IdentityStage,
}

/// The model of an [`IdentityAction`].
pub enum IdentityActionModel {
    CheckRecord,
    ReadRecord,
    ReadSigner { public_key: Seq<u8> },
    PrepareDirectory,
    GenerateSigner,
    StoreSigner,
    WriteRecord { public_key_base64: Seq<char> },
    Finish(Result<(), Seq<char>>),
}

/// The model of an [`IdentityEvent`].
pub enum IdentityEventModel {
    RecordPresent(bool),
    Record { public_key_base64: Seq<char> },
    SignerFound(bool),
    SignerGenerated { public_key: Seq<u8> },
    Done,
    Failed(Seq<char>),
}

/// The stages of an identity flow.
pub enum IdentityStageModel {
    Checking,
    Reading,
    LookingUp,
    Preparing,
    Generating,
    Storing { public_key: Seq<u8> },
    Writing,
    Finished,
}

/// The model of an [`IdentityFlow`].
pub struct IdentityFlowModel {
    pub device: Seq<char>,
    pub stage: IdentityStageModel,
}

impl View for IdentityAction {
    type V = IdentityActionModel;

    open spec fn view(&self) -> IdentityActionModel {
        match self {
            IdentityAction::CheckRecord => IdentityActionModel::CheckRecord,
            IdentityAction::ReadRecord => IdentityActionModel::ReadRecord,
            IdentityAction::ReadSigner { public_key } => IdentityActionModel::ReadSigner { public_key: public_key@ },
            IdentityAction::PrepareDirectory => IdentityActionModel::PrepareDirectory,
            IdentityAction::GenerateSigner => IdentityActionModel::GenerateSigner,
            IdentityAction::StoreSigner => IdentityActionModel::StoreSigner,
            IdentityAction::WriteRecord { public_key_base64 } => IdentityActionModel::WriteRecord {
                public_key_base64: public_key_base64@,
            },
            IdentityAction::Finish(Ok(())) => IdentityActionModel::Finish(Ok(())),
            IdentityAction::Finish(Err(e)) => IdentityActionModel::Finish(Err(e@)),
        }
    }
}

impl View for IdentityEvent {
    type V = IdentityEventModel;

    open spec fn view(&self) -> IdentityEventModel {
        match self {
            IdentityEvent::RecordPresent(b) => IdentityEventModel::RecordPresent(*b),
            IdentityEvent::Record { public_key_base64 } => IdentityEventModel::Record {
                public_key_base64: public_key_base64@,
            },
            IdentityEvent::SignerFound(b) => IdentityEventModel::SignerFound(*b),
            IdentityEvent::SignerGenerated { public_key } => IdentityEventModel::SignerGenerated {
                public_key: public_key@,
            },
            IdentityEvent::Done => IdentityEventModel::Done,
            IdentityEvent::Failed(e) => IdentityEventModel::Failed(e@),
        }
    }
}

impl View for IdentityFlow {
    type V = IdentityFlowModel;

    closed spec fn view(&self) -> IdentityFlowModel {
        IdentityFlowModel {
            device: self.device@,
            stage: match &self.stage {
                IdentityStage::Checking => IdentityStageModel::Checking,
                IdentityStage::Reading => IdentityStageModel::Reading,
                IdentityStage::LookingUp => IdentityStageModel::LookingUp,
                IdentityStage::Preparing => IdentityStageModel::Preparing,
                IdentityStage::Generating => IdentityStageModel::Generating,
                IdentityStage::Storing { public_key } => IdentityStageModel::Storing { public_key: public_key@ },
                IdentityStage::Writing => IdentityStageModel::Writing,
                IdentityStage::Finished => IdentityStageModel::Finished,
            },
        }
    }
}

/// The message given when the record names a signer that the store does not hold.
pub open spec fn signer_missing_message(device: Seq<char>) -> Seq<char> {
    "persisted signer missing for device "@ + device
}

/// Public keys short enough to be written in base64.
pub open spec fn key_fits(public_key: Seq<u8>) -> bool {
    public_key.len() <= usize::MAX / 4
}

/// Which events a flow in a given stage can take.
pub open spec fn identity_accepts(flow: IdentityFlowModel, event: IdentityEventModel) -> bool {
    match (flow.stage, event) {
        (IdentityStageModel::Finished, _) => false,
        (_, IdentityEventModel::Failed(_)) => true,
        (IdentityStageModel::Checking, IdentityEventModel::RecordPresent(_)) => true,
        (IdentityStageModel::Reading, IdentityEventModel::Record { .. }) => true,
        (IdentityStageModel::LookingUp, IdentityEventModel::SignerFound(_)) => true,
        (IdentityStageModel::Preparing, IdentityEventModel::Done) => true,
        (IdentityStageModel::Generating, IdentityEventModel::SignerGenerated { public_key }) => key_fits(public_key),
        (IdentityStageModel::Storing { public_key }, IdentityEventModel::Done) => key_fits(public_key),
        (IdentityStageModel::Writing, IdentityEventModel::Done) => true,
        _ => false,
    }
}

/// How a flow begins: by asking whether the identity record exists.
pub open spec fn identity_start(device: Seq<char>) -> (IdentityFlowModel, IdentityActionModel) {
    (IdentityFlowModel { device, stage: IdentityStageModel::Checking }, IdentityActionModel::CheckRecord)
}

/// The flow once it has ended with `outcome`.
pub open spec fn identity_finish(device: Seq<char>, outcome: Result<(), Seq<char>>) -> (IdentityFlowModel, IdentityActionModel) {
    (IdentityFlowModel { device, stage: IdentityStageModel::Finished }, IdentityActionModel::Finish(outcome))
}

/// The decision on the identity record's key, given what base64 decoding made of it.
pub open spec fn record_decision(device: Seq<char>, decoded: Result<Seq<u8>, Seq<char>>) -> (IdentityFlowModel, IdentityActionModel) {
    match decoded {
        Ok(public_key) => (
            IdentityFlowModel { device, stage: IdentityStageModel::LookingUp },
            IdentityActionModel::ReadSigner { public_key },
        ),
        Err(e) => identity_finish(device, Err(e)),
    }
}

/// One step of the flow.
pub open spec fn identity_step(flow: IdentityFlowModel, event: IdentityEventModel) -> (IdentityFlowModel, IdentityActionModel) {
    let device = flow.device;
    let go = |stage: IdentityStageModel, action: IdentityActionModel| (IdentityFlowModel { device, stage }, action);
    match (flow.stage, event) {
        (IdentityStageModel::Checking, IdentityEventModel::RecordPresent(true)) =>
            go(IdentityStageModel::Reading, IdentityActionModel::ReadRecord),
        (IdentityStageModel::Checking, IdentityEventModel::RecordPresent(false)) =>
            go(IdentityStageModel::Preparing, IdentityActionModel::PrepareDirectory),
        (IdentityStageModel::Reading, IdentityEventModel::Record { public_key_base64 }) =>
            record_decision(device, base64_decoding(public_key_base64)),
        (IdentityStageModel::LookingUp, IdentityEventModel::SignerFound(found)) =>
            if found {
                identity_finish(device, Ok(()))
            } else {
                identity_finish(device, Err(signer_missing_message(device)))
            },
        (IdentityStageModel::Preparing, IdentityEventModel::Done) =>
            go(IdentityStageModel::Generating, IdentityActionModel::GenerateSigner),
        (IdentityStageModel::Generating, IdentityEventModel::SignerGenerated { public_key }) =>
            go(IdentityStageModel::Storing { public_key }, IdentityActionModel::StoreSigner),
        (IdentityStageModel::Generating, IdentityEventModel::Failed(e)) =>
            identity_finish(device, Err("new signer: "@ + e)),
        (IdentityStageModel::Storing { public_key }, IdentityEventModel::Done) =>
            go(IdentityStageModel::Writing, IdentityActionModel::WriteRecord { public_key_base64: base64_text(public_key) }),
        (IdentityStageModel::Storing { .. }, IdentityEventModel::Failed(e)) =>
            identity_finish(device, Err("store signer: "@ + e)),
        (IdentityStageModel::Writing, IdentityEventModel::Done) =>
            identity_finish(device, Ok(())),
        (_, IdentityEventModel::Failed(e)) => identity_finish(device, Err(e)),
        _ => (flow, IdentityActionModel::Finish(Err(Seq::empty()))),
    }
}

/// The flow after a sequence of events, with the actions it handed out on the way.
pub open spec fn identity_run(flow: IdentityFlowModel, events: Seq<IdentityEventModel>) -> (IdentityFlowModel, Seq<IdentityActionModel>)
    decreases events.len(),
{
    if events.len() == 0 {
        (flow, Seq::empty())
    } else {
        let (next, action) = identity_step(flow, events[0]);
        let (last, rest) = identity_run(next, events.drop_first());
        (last, seq![action] + rest)
    }
}

/// Whether an action changes anything on disk.
pub open spec fn identity_action_writes(action: IdentityActionModel) -> bool {
    match action {
        IdentityActionModel::PrepareDirectory => true,
        IdentityActionModel::GenerateSigner => true,
        IdentityActionModel::StoreSigner => true,
        IdentityActionModel::WriteRecord { .. } => true,
        _ => false,
    }
}

impl IdentityFlow {
    /// Begins loading or creating the identity of `device`.
    pub fn start(device: &str) -> (r: (IdentityFlow, IdentityAction))
        ensures
            (r.0@, r.1@) == identity_start(device@),
    {
        (IdentityFlow { device: String::from_str(device), stage: IdentityStage::Checking }, IdentityAction::CheckRecord)
    }

    /// The device whose identity this flow handles.
    pub fn device(&self) -> (r: &String)
        ensures
            r@ == self@.device,
    {
        &self.device
    }

    /// Whether the flow can take `event` now.
    pub fn accepts(&self, event: &IdentityEvent) -> (r: bool)
        ensures
            r == identity_accepts(self@, event@),
    {
        match (&self.stage, event) {
            (IdentityStage::Finished, _) => false,
            (_, IdentityEvent::Failed(_)) => true,
            (IdentityStage::Checking, IdentityEvent::RecordPresent(_)) => true,
            (IdentityStage::Reading, IdentityEvent::Record { .. }) => true,
            (IdentityStage::LookingUp, IdentityEvent::SignerFound(_)) => true,
            (IdentityStage::Preparing, IdentityEvent::Done) => true,
            (IdentityStage::Generating, IdentityEvent::SignerGenerated { public_key }) => public_key.len() <= usize::MAX / 4,
            (IdentityStage::Storing { public_key }, IdentityEvent::Done) => public_key.len() <= usize::MAX / 4,
            (IdentityStage::Writing, IdentityEvent::Done) => true,
            _ => false,
        }
    }

    fn finish(device: String, outcome: Result<(), String>) -> (r: (IdentityFlow, IdentityAction))
        ensures
            r.0@.device == device@,
            r.0@.stage == IdentityStageModel::Finished,
            r.1@ == IdentityActionModel::Finish(match outcome { Ok(()) => Ok(()), Err(e) => Err::<(), Seq<char>>(e@) }),
    {
        (IdentityFlow { device, stage: IdentityStage::Finished }, IdentityAction::Finish(outcome))
    }

    /// Decides on the identity record's key, once the record is read, given what base64
    /// decoding made of it: the signer with that key is looked up, or the flow ends with the
    /// decoder's message.
    pub fn record_read(self, decoded: Result<Vec<u8>, String>) -> (r: (IdentityFlow, IdentityAction))
        requires
            self@.stage is Reading,
        ensures
            (r.0@, r.1@) == record_decision(self@.device, bytes_outcome(decoded)),
    {
        let IdentityFlow { device, .. } = self;
        match decoded {
            Ok(public_key) => (IdentityFlow { device, stage: IdentityStage::LookingUp }, IdentityAction::ReadSigner { public_key }),
            Err(e) => Self::finish(device, Err(e)),
        }
    }

    /// Takes the caller's report on the last action and decides the next one.
    pub fn advance(self, event: IdentityEvent) -> (r: (IdentityFlow, IdentityAction))
        requires
            identity_accepts(self@, event@),
        ensures
            (r.0@, r.1@) == identity_step(self@, event@),
            forall|key: Seq<u8>|
                #![trigger base64_text(key)]
                (self@.stage == IdentityStageModel::Reading && event@ == (IdentityEventModel::Record {
                    public_key_base64: base64_text(key),
                })) ==> r.1@ == (IdentityActionModel::ReadSigner { public_key: key }),
    {
        let ghost before = self@;
        let ghost ev = event@;
        let IdentityFlow { device, stage } = self;
        match (stage, event) {
            (IdentityStage::Checking, IdentityEvent::RecordPresent(present)) => {
                if present {
                    (IdentityFlow { device, stage: IdentityStage::Reading }, IdentityAction::ReadRecord)
                } else {
                    (IdentityFlow { device, stage: IdentityStage::Preparing }, IdentityAction::PrepareDirectory)
                }
            },
            (IdentityStage::Reading, IdentityEvent::Record { public_key_base64 }) => {
                let decoded = decode_base64(public_key_base64.as_str());
                proof {
                    assert forall|key: Seq<u8>| #[trigger] base64_text(key) == public_key_base64@ implies
                        decoded matches Ok(v) && v@ == key by {
                        assert(is_base64_text(public_key_base64@));
                        lemma_base64_text_injective(decoded->Ok_0@, key);
                    }
                }
                IdentityFlow { device, stage: IdentityStage::Reading }.record_read(decoded)
            },
            (IdentityStage::LookingUp, IdentityEvent::SignerFound(found)) => {
                if found {
                    Self::finish(device, Ok(()))
                } else {
                    let message = join("persisted signer missing for device ", device.as_str());
                    Self::finish(device, Err(message))
                }
            },
            (IdentityStage::Preparing, IdentityEvent::Done) => {
                (IdentityFlow { device, stage: IdentityStage::Generating }, IdentityAction::GenerateSigner)
            },
            (IdentityStage::Generating, IdentityEvent::SignerGenerated { public_key }) => {
                (IdentityFlow { device, stage: IdentityStage::Storing { public_key } }, IdentityAction::StoreSigner)
            },
            (IdentityStage::Generating, IdentityEvent::Failed(e)) => {
                Self::finish(device, Err(join("new signer: ", e.as_str())))
            },
            (IdentityStage::Storing { public_key }, IdentityEvent::Done) => {
                let public_key_base64 = encode_base64(public_key.as_slice());
                (IdentityFlow { device, stage: IdentityStage::Writing }, IdentityAction::WriteRecord { public_key_base64 })
            },
            (IdentityStage::Storing { .. }, IdentityEvent::Failed(e)) => {
                Self::finish(device, Err(join("store signer: ", e.as_str())))
            },
            (IdentityStage::Writing, IdentityEvent::Done) => Self::finish(device, Ok(())),
            (_, IdentityEvent::Failed(e)) => Self::finish(device, Err(e)),
            (_, _) => {
                proof {
                    assert(false);
                }
                Self::finish(device, Ok(()))
            },
        }
    }
}

/// Every failure ends the flow, and its message is the one the flow reports.
pub proof fn lemma_identity_failure_ends(flow: IdentityFlowModel, message: Seq<char>)
    requires
        identity_accepts(flow, IdentityEventModel::Failed(message)),
    ensures
        identity_step(flow, IdentityEventModel::Failed(message)).0.stage == IdentityStageModel::Finished,
        identity_step(flow, IdentityEventModel::Failed(message)).1 matches IdentityActionModel::Finish(Err(_)),
{
}

/// A device whose identity record exists never gets a new signer: whatever happens next,
/// the flow reads the record, looks the signer up and ends, without writing anything.
pub proof fn lemma_existing_record_is_only_read(device: Seq<char>, events: Seq<IdentityEventModel>)
    requires
        events.len() > 0,
        events[0] == IdentityEventModel::RecordPresent(true),
    ensures
        forall|i: int| 0 <= i < identity_run(identity_start(device).0, events).1.len()
            ==> !identity_action_writes(#[trigger] identity_run(identity_start(device).0, events).1[i]),
{
    let first = identity_start(device).0;
    let (next, action) = identity_step(first, events[0]);
    assert(next.stage == IdentityStageModel::Reading);
    lemma_reading_never_writes(next, events.drop_first());
    let rest = identity_run(next, events.drop_first()).1;
    let all = identity_run(first, events).1;
    assert(all == seq![action] + rest);
    assert forall|i: int| 0 <= i < all.len() implies !identity_action_writes(#[trigger] all[i]) by {
        if i > 0 {
            assert(all[i] == rest[i - 1]);
        }
    }
}

proof fn lemma_reading_never_writes(flow: IdentityFlowModel, events: Seq<IdentityEventModel>)
    requires
        flow.stage == IdentityStageModel::Reading || flow.stage == IdentityStageModel::LookingUp
            || flow.stage == IdentityStageModel::Finished,
    ensures
        forall|i: int| 0 <= i < identity_run(flow, events).1.len()
            ==> !identity_action_writes(#[trigger] identity_run(flow, events).1[i]),
    decreases events.len(),
{
    if events.len() > 0 {
        let (next, action) = identity_step(flow, events[0]);
        lemma_reading_never_writes(next, events.drop_first());
        let rest = identity_run(next, events.drop_first()).1;
        let all = identity_run(flow, events).1;
        assert(all == seq![action] + rest);
        assert forall|i: int| 0 <= i < all.len() implies !identity_action_writes(#[trigger] all[i]) by {
            if i > 0 {
                assert(all[i] == rest[i - 1]);
            }
        }
    }
}

/// A device without an identity record, when every step succeeds, gets a new signer that is
/// stored before the record is written, and the record names that signer's public key.
pub proof fn lemma_new_identity_records_its_key(device: Seq<char>, public_key: Seq<u8>)
    ensures
        identity_run(
            identity_start(device).0,
            seq![
                IdentityEventModel::RecordPresent(false),
                IdentityEventModel::Done,
                IdentityEventModel::SignerGenerated { public_key },
                IdentityEventModel::Done,
                IdentityEventModel::Done,
            ],
        ) == (
            IdentityFlowModel { device, stage: IdentityStageModel::Finished },
            seq![
                IdentityActionModel::PrepareDirectory,
                IdentityActionModel::GenerateSigner,
                IdentityActionModel::StoreSigner,
                IdentityActionModel::WriteRecord { public_key_base64: base64_text(public_key) },
                IdentityActionModel::Finish(Ok(())),
            ],
        ),
{
    let events = seq![
        IdentityEventModel::RecordPresent(false),
        IdentityEventModel::Done,
        IdentityEventModel::SignerGenerated { public_key },
        IdentityEventModel::Done,
        IdentityEventModel::Done,
    ];
    reveal_with_fuel(identity_run, 6);
    assert(events.drop_first() =~= events.subrange(1, 5));
    assert(events.subrange(1, 5).drop_first() =~= events.subrange(2, 5));
    assert(events.subrange(2, 5).drop_first() =~= events.subrange(3, 5));
    assert(events.subrange(3, 5).drop_first() =~= events.subrange(4, 5));
    assert(events.subrange(4, 5).drop_first() =~= Seq::<IdentityEventModel>::empty());
    let r = identity_run(identity_start(device).0, events);
    assert(r.1 =~= seq![
        IdentityActionModel::PrepareDirectory,
        IdentityActionModel::GenerateSigner,
        IdentityActionModel::StoreSigner,
        IdentityActionModel::WriteRecord { public_key_base64: base64_text(public_key) },
        IdentityActionModel::Finish(Ok(())),
    ]);
}

} // verus!
