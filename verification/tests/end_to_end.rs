use std::collections::BTreeMap;

use openmls::prelude::{
    BasicCredential, Ciphersuite, CredentialWithKey, GroupId, KeyPackage, LeafNodeIndex, MlsGroup,
    MlsGroupCreateConfig, MlsGroupJoinConfig, ProcessedMessageContent, StagedWelcome,
};
use openmls_basic_credential::SignatureKeyPair;
use openmls_rust_crypto::OpenMlsRustCrypto;
use openmls_traits::types::SignatureScheme;
use openmls_traits::OpenMlsProvider;
use superapp_openmls::exchange::{Action, Content, Event, GroupView, Member, Reply, Request, Slot};
use superapp_openmls::hex::hex_id;
use superapp_openmls::identity::{IdentityAction, IdentityEvent, IdentityFlow};
use superapp_openmls::session::Session;

const SUITE: Ciphersuite = Ciphersuite::MLS_128_DHKEMX25519_AES128GCM_SHA256_Ed25519;

/// Devices kept in memory: a store per device directory, and the identity records.
#[derive(Default)]
struct World {
    stores: BTreeMap<String, OpenMlsRustCrypto>,
    records: BTreeMap<String, String>,
}

struct Opened {
    dir: String,
    name: String,
    signer: Option<SignatureKeyPair>,
    group: Option<MlsGroup>,
}

struct Runner<'a> {
    world: &'a mut World,
    primary: Option<Opened>,
    secondary: Option<Opened>,
    key_packages: Vec<KeyPackage>,
    staged: Option<StagedWelcome>,
    entries: Vec<String>,
}

fn view_of(group: &MlsGroup) -> GroupView {
    GroupView {
        epoch: group.epoch().as_u64(),
        members: group
            .members()
            .map(|m| Member { index: m.index.u32(), identity: m.credential.serialized_content().to_vec() })
            .collect(),
    }
}

fn credential(name: &str, signer: &SignatureKeyPair) -> CredentialWithKey {
    CredentialWithKey {
        credential: BasicCredential::new(name.as_bytes().to_vec()).into(),
        signature_key: signer.to_public_vec().into(),
    }
}

fn dbg<E: std::fmt::Debug>(e: E) -> String {
    format!("{e:?}")
}

fn open_identity(world: &mut World, name: &str) -> Result<Opened, String> {
    let dir = hex_id(name);
    world.stores.entry(dir.clone()).or_default();
    let provider = &world.stores[&dir];
    let mut signer: Option<SignatureKeyPair> = None;
    let (mut flow, mut action) = IdentityFlow::start(name);
    loop {
        let event = match action {
            IdentityAction::CheckRecord => IdentityEvent::RecordPresent(world.records.contains_key(&dir)),
            IdentityAction::ReadRecord => IdentityEvent::Record { public_key_base64: world.records[&dir].clone() },
            IdentityAction::ReadSigner { public_key } => {
                signer = SignatureKeyPair::read(provider.storage(), &public_key, SignatureScheme::ED25519);
                IdentityEvent::SignerFound(signer.is_some())
            }
            IdentityAction::PrepareDirectory => IdentityEvent::Done,
            IdentityAction::GenerateSigner => {
                let generated = SignatureKeyPair::new(SignatureScheme::ED25519).unwrap();
                let public_key = generated.public().to_vec();
                signer = Some(generated);
                IdentityEvent::SignerGenerated { public_key }
            }
            IdentityAction::StoreSigner => {
                signer.as_ref().unwrap().store(provider.storage()).unwrap();
                IdentityEvent::Done
            }
            IdentityAction::WriteRecord { public_key_base64 } => {
                world.records.insert(dir.clone(), public_key_base64);
                IdentityEvent::Done
            }
            IdentityAction::Finish(Ok(())) => {
                return Ok(Opened { dir, name: name.to_string(), signer, group: None });
            }
            IdentityAction::Finish(Err(e)) => return Err(e),
        };
        assert!(flow.accepts(&event));
        let (f, a) = flow.advance(event);
        flow = f;
        action = a;
    }
}

impl<'a> Runner<'a> {
    fn slot(&mut self, slot: Slot) -> &mut Opened {
        match slot {
            Slot::Primary => self.primary.as_mut().unwrap(),
            Slot::Secondary => self.secondary.as_mut().unwrap(),
        }
    }

    fn perform(&mut self, action: Action) -> Event {
        match action {
            Action::OpenDevice { slot, device } => match open_identity(self.world, &device) {
                Ok(opened) => {
                    match slot {
                        Slot::Primary => self.primary = Some(opened),
                        Slot::Secondary => self.secondary = Some(opened),
                    }
                    Event::Done
                }
                Err(e) => Event::Failed(e),
            },
            Action::ListDevices => {
                if self.world.stores.is_empty() {
                    return Event::Listed(None);
                }
                self.entries = self.world.stores.keys().cloned().collect();
                Event::Listed(Some(self.entries.iter().map(|_| None).collect()))
            }
            Action::CheckEntry { index } => Event::Present(self.world.records.contains_key(&self.entries[index])),
            Action::OpenEntry { index } => {
                let dir = self.entries[index].clone();
                self.secondary = Some(Opened { dir, name: String::new(), signer: None, group: None });
                Event::Done
            }
            Action::LoadGroup { slot, group_id } => {
                let opened = self.slot(slot);
                let dir = opened.dir.clone();
                let provider = &self.world.stores[&dir];
                match MlsGroup::load(provider.storage(), &GroupId::from_slice(group_id.as_bytes())) {
                    Ok(Some(group)) => {
                        let view = view_of(&group);
                        let opened = match slot {
                            Slot::Primary => self.primary.as_mut().unwrap(),
                            Slot::Secondary => self.secondary.as_mut().unwrap(),
                        };
                        opened.group = Some(group);
                        Event::Group(Some(view))
                    }
                    Ok(None) => Event::Group(None),
                    Err(e) => Event::Failed(dbg(e)),
                }
            }
            Action::CreateGroup { group_id } => {
                let opened = self.primary.as_mut().unwrap();
                let provider = &self.world.stores[&opened.dir];
                let config = MlsGroupCreateConfig::builder().ciphersuite(SUITE).use_ratchet_tree_extension(true).build();
                let signer = opened.signer.as_ref().unwrap();
                match MlsGroup::new_with_group_id(provider, signer, &config, GroupId::from_slice(group_id.as_bytes()), credential(&opened.name, signer)) {
                    Ok(group) => {
                        let view = view_of(&group);
                        opened.group = Some(group);
                        Event::Group(Some(view))
                    }
                    Err(e) => Event::Failed(dbg(e)),
                }
            }
            Action::BuildKeyPackage => {
                let opened = self.secondary.as_ref().unwrap();
                let provider = &self.world.stores[&opened.dir];
                let signer = opened.signer.as_ref().unwrap();
                match KeyPackage::builder().build(SUITE, provider, signer, credential(&opened.name, signer)) {
                    Ok(bundle) => {
                        self.key_packages.push(bundle.key_package().clone());
                        Event::Done
                    }
                    Err(e) => Event::Failed(dbg(e)),
                }
            }
            Action::AddMembers => {
                let packages = std::mem::take(&mut self.key_packages);
                let opened = self.primary.as_mut().unwrap();
                let provider = &self.world.stores[&opened.dir];
                let signer = opened.signer.as_ref().unwrap();
                match opened.group.as_mut().unwrap().add_members(provider, signer, &packages) {
                    Ok((commit, welcome, _)) => Event::Added { commit: commit.to_bytes().map_err(dbg), welcome: welcome.to_bytes().map_err(dbg) },
                    Err(e) => Event::Failed(dbg(e)),
                }
            }
            Action::RemoveMember { index } => {
                let opened = self.primary.as_mut().unwrap();
                let provider = &self.world.stores[&opened.dir];
                let signer = opened.signer.as_ref().unwrap();
                match opened.group.as_mut().unwrap().remove_members(provider, signer, &[LeafNodeIndex::new(index)]) {
                    Ok((commit, _, _)) => Event::Removed { commit: commit.to_bytes().map_err(dbg) },
                    Err(e) => Event::Failed(dbg(e)),
                }
            }
            Action::MergePending => {
                let opened = self.primary.as_mut().unwrap();
                let provider = &self.world.stores[&opened.dir];
                let group = opened.group.as_mut().unwrap();
                match group.merge_pending_commit(provider) {
                    Ok(()) => Event::Group(Some(view_of(group))),
                    Err(e) => Event::Failed(dbg(e)),
                }
            }
            Action::StageWelcome { welcome } => {
                let opened = self.secondary.as_ref().unwrap();
                let provider = &self.world.stores[&opened.dir];
                let join = MlsGroupJoinConfig::builder().use_ratchet_tree_extension(true).build();
                match StagedWelcome::new_from_welcome(provider, &join, welcome, None) {
                    Ok(staged) => {
                        self.staged = Some(staged);
                        Event::Done
                    }
                    Err(e) => Event::Failed(dbg(e)),
                }
            }
            Action::JoinStaged => {
                let staged = self.staged.take().unwrap();
                let opened = self.secondary.as_mut().unwrap();
                let provider = &self.world.stores[&opened.dir];
                match staged.into_group(provider) {
                    Ok(group) => {
                        opened.group = Some(group);
                        Event::Done
                    }
                    Err(e) => Event::Failed(dbg(e)),
                }
            }
            Action::ProcessMessage { slot, message } => {
                let opened = match slot {
                    Slot::Primary => self.primary.as_mut().unwrap(),
                    Slot::Secondary => self.secondary.as_mut().unwrap(),
                };
                let provider = &self.world.stores[&opened.dir];
                let group = opened.group.as_mut().unwrap();
                match group.process_message(provider, message) {
                    Ok(processed) => {
                        let content = processed.into_content();
                        let debug = format!("{content:?}");
                        let content = match content {
                            ProcessedMessageContent::ApplicationMessage(app) => Content::Application(app.into_bytes()),
                            ProcessedMessageContent::StagedCommitMessage(staged) => Content::Commit { commit: *staged, debug },
                            _ => Content::Other(debug),
                        };
                        Event::Processed { content, epoch: group.epoch().as_u64() }
                    }
                    Err(e) => Event::Failed(dbg(e)),
                }
            }
            Action::MergeStaged { commit } => {
                let opened = self.secondary.as_mut().unwrap();
                let provider = &self.world.stores[&opened.dir];
                match opened.group.as_mut().unwrap().merge_staged_commit(provider, commit) {
                    Ok(()) => Event::Done,
                    Err(e) => Event::Failed(dbg(e)),
                }
            }
            Action::CreateMessage { plaintext } => {
                let opened = self.primary.as_mut().unwrap();
                let provider = &self.world.stores[&opened.dir];
                let signer = opened.signer.as_ref().unwrap();
                let group = opened.group.as_mut().unwrap();
                match group.create_message(provider, signer, &plaintext) {
                    Ok(message) => Event::Created { wire: message.to_bytes().map_err(dbg), epoch: group.epoch().as_u64() },
                    Err(e) => Event::Failed(dbg(e)),
                }
            }
            Action::Finish(_) => panic!("no action after the answer"),
        }
    }
}

fn run(world: &mut World, request: Request) -> Result<Reply, String> {
    let mut runner = Runner { world, primary: None, secondary: None, key_packages: vec![], staged: None, entries: vec![] };
    let (mut session, mut action) = Session::start(request);
    loop {
        if let Action::Finish(outcome) = action {
            return outcome;
        }
        let event = runner.perform(action);
        assert!(session.accepts(&event));
        let (s, a) = session.advance(event);
        session = s;
        action = a;
    }
}

fn init(world: &mut World, members: &[&str]) -> Result<Reply, String> {
    run(world, Request::Init { group_id: "room".to_string(), members: members.iter().map(|m| m.to_string()).collect() })
}

fn group(reply: Result<Reply, String>) -> (u64, Vec<String>) {
    match reply {
        Ok(Reply::Group { epoch, members }) => (epoch, members),
        Ok(_) => panic!("expected a group reply"),
        Err(e) => panic!("request failed: {e}"),
    }
}

fn encrypt(world: &mut World, sender: &str, plaintext_base64: &str) -> String {
    let request = Request::Encrypt { group_id: "room".to_string(), sender_device_id: sender.to_string(), plaintext_base64: plaintext_base64.to_string() };
    match run(world, request) {
        Ok(Reply::Wire { wire_base64, .. }) => wire_base64,
        other => panic!("encrypt failed: {:?}", other.err()),
    }
}

fn decrypt(world: &mut World, receiver: &str, wire_base64: &str) -> Result<Reply, String> {
    run(world, Request::Decrypt { group_id: "room".to_string(), receiver_device_id: receiver.to_string(), wire_base64: wire_base64.to_string() })
}

fn plaintext(reply: Result<Reply, String>) -> String {
    match reply {
        Ok(Reply::Plaintext { plaintext_base64, .. }) => plaintext_base64,
        Ok(_) => panic!("expected a plaintext reply"),
        Err(e) => panic!("decrypt failed: {e}"),
    }
}

fn names(list: &[&str]) -> Vec<String> {
    list.iter().map(|s| s.to_string()).collect()
}

#[test]
fn bridge_init_and_message_round_trip() {
    let mut world = World::default();
    let (epoch, members) = group(init(&mut world, &["alice", "bob"]));
    assert_eq!(epoch, 1);
    assert_eq!(members, names(&["alice", "bob"]));
    let wire = encrypt(&mut world, "alice", "ZXBvY2gtb25l");
    assert_eq!(plaintext(decrypt(&mut world, "bob", &wire)), "ZXBvY2gtb25l");
}

#[test]
fn bridge_init_twice_keeps_the_group() {
    let mut world = World::default();
    let first = group(init(&mut world, &["alice", "bob"]));
    let second = group(init(&mut world, &["alice", "bob", "carol"]));
    assert_eq!(first, second);
}

#[test]
fn bridge_single_member_group_starts_at_epoch_zero() {
    let mut world = World::default();
    assert_eq!(group(init(&mut world, &["alice"])), (0, names(&["alice"])));
}

#[test]
fn bridge_membership_changes_move_every_member_forward() {
    let mut world = World::default();
    group(init(&mut world, &["alice", "bob"]));
    let add = Request::AddMember { group_id: "room".to_string(), actor_device_id: "alice".to_string(), new_device_id: "carol".to_string() };
    let (epoch, members) = group(run(&mut world, add));
    assert_eq!(epoch, 2);
    assert_eq!(members, names(&["alice", "bob", "carol"]));
    let info = Request::GroupInfo { group_id: "room".to_string(), device_id: Some("bob".to_string()) };
    assert_eq!(group(run(&mut world, info)), (2, names(&["alice", "bob", "carol"])));
    let info = Request::GroupInfo { group_id: "room".to_string(), device_id: Some("carol".to_string()) };
    assert_eq!(group(run(&mut world, info)), (2, names(&["alice", "bob", "carol"])));
    let again = Request::AddMember { group_id: "room".to_string(), actor_device_id: "bob".to_string(), new_device_id: "carol".to_string() };
    assert_eq!(run(&mut world, again).err(), Some("member already exists".to_string()));
}

#[test]
fn bridge_removed_member_cannot_read_later_messages() {
    let mut world = World::default();
    group(init(&mut world, &["alice", "bob", "carol"]));
    let remove = Request::RemoveMember { group_id: "room".to_string(), actor_device_id: "alice".to_string(), remove_device_id: "bob".to_string() };
    let (epoch, members) = group(run(&mut world, remove));
    assert_eq!(epoch, 2);
    assert_eq!(members, names(&["alice", "carol"]));
    let wire = encrypt(&mut world, "alice", "YWZ0ZXItYm9iLXJlbW92YWw=");
    assert_eq!(plaintext(decrypt(&mut world, "carol", &wire)), "YWZ0ZXItYm9iLXJlbW92YWw=");
    assert!(decrypt(&mut world, "bob", &wire).is_err());
}

#[test]
fn bridge_new_member_cannot_read_earlier_messages() {
    let mut world = World::default();
    group(init(&mut world, &["alice", "bob"]));
    let before = encrypt(&mut world, "alice", "YmVmb3JlLWNoYXJsaWU=");
    let add = Request::AddMember { group_id: "room".to_string(), actor_device_id: "alice".to_string(), new_device_id: "charlie".to_string() };
    group(run(&mut world, add));
    assert!(decrypt(&mut world, "charlie", &before).is_err());
    let after = encrypt(&mut world, "alice", "YWZ0ZXItY2hhcmxpZQ==");
    assert_eq!(plaintext(decrypt(&mut world, "charlie", &after)), "YWZ0ZXItY2hhcmxpZQ==");
}

#[test]
fn bridge_group_info_finds_a_device_by_itself() {
    let mut world = World::default();
    let info = Request::GroupInfo { group_id: "room".to_string(), device_id: None };
    assert_eq!(run(&mut world, info).err(), Some("group room not found".to_string()));
    group(init(&mut world, &["bob", "alice"]));
    let info = Request::GroupInfo { group_id: "room".to_string(), device_id: None };
    assert_eq!(group(run(&mut world, info)), (1, names(&["bob", "alice"])));
}

#[test]
fn bridge_refuses_self_removal_and_unknown_groups() {
    let mut world = World::default();
    group(init(&mut world, &["alice", "bob"]));
    let remove = Request::RemoveMember { group_id: "room".to_string(), actor_device_id: "alice".to_string(), remove_device_id: "alice".to_string() };
    assert_eq!(run(&mut world, remove).err(), Some("actor cannot remove itself through this bridge operation".to_string()));
    let other = Request::Encrypt { group_id: "elsewhere".to_string(), sender_device_id: "alice".to_string(), plaintext_base64: "aGk=".to_string() };
    assert_eq!(run(&mut world, other).err(), Some("group elsewhere not found for device alice".to_string()));
}
