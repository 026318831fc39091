//! Reading MLS messages off the wire.
//!
//! The MLS values that come out of decoding are handed on to the caller untouched; what
//! the library decides on is whether decoding worked and what kind of message it was.
use vstd::prelude::*;
use openmls::prelude::{MlsMessageBodyIn, MlsMessageIn, ProtocolMessage, StagedCommit, Welcome};
use tls_codec::Deserialize;

verus! {

#[verifier::external_type_specification]
#[verifier::external_body]
pub struct ExWelcome(Welcome);

#[verifier::external_type_specification]
#[verifier::external_body]
pub struct ExProtocolMessage(ProtocolMessage);

#[verifier::external_type_specification]
#[verifier::external_body]
pub struct ExStagedCommit(StagedCommit);

/// Why bytes could not be read as a protocol message.
pub enum ProtocolFault {
    /// The bytes are no MLS message; the decoder's message.
    Malformed(String),
    /// The bytes are an MLS message of another kind; the conversion's message.
    NotProtocol(String),
}

/// The model of a [`ProtocolFault`].
pub enum ProtocolFaultModel {
    Malformed(Seq<char>),
    NotProtocol(Seq<char>),
}

impl View for ProtocolFault {
    type V = ProtocolFaultModel;

    open spec fn view(&self) -> ProtocolFaultModel {
        match self {
            ProtocolFault::Malformed(e) => ProtocolFaultModel::Malformed(e@),
            ProtocolFault::NotProtocol(e) => ProtocolFaultModel::NotProtocol(e@),
        }
    }
}

/// What a protocol-message reading outcome says, leaving the message itself aside.
pub open spec fn protocol_outcome(r: Result<ProtocolMessage, ProtocolFault>) -> Result<(), ProtocolFaultModel> {
    match r {
        Ok(_) => Ok(()),
        Err(fault) => Err(fault@),
    }
}

/// What a welcome reading outcome says, leaving the welcome itself aside: whether there was
/// one, or the decoder's message.
pub open spec fn welcome_outcome(r: Result<Option<Welcome>, String>) -> Result<bool, Seq<char>> {
    match r {
        Ok(Some(_)) => Ok(true),
        Ok(None) => Ok(false),
        Err(e) => Err(e@),
    }
}

/// What reading bytes as an MLS message and asking for its welcome gives: whether it
/// was a welcome, or the decoder's message.
pub uninterp spec fn welcome_decoding(wire: Seq<u8>) -> Result<bool, Seq<char>>;

/// What reading bytes as an MLS message and converting it into a protocol message
/// (a public or private message) gives.
pub uninterp spec fn protocol_decoding(wire: Seq<u8>) -> Result<(), ProtocolFaultModel>;

/// Reads `wire` as an MLS message (`MlsMessageIn::tls_deserialize_exact`) and takes the
/// welcome out of it (`MlsMessageIn::extract`), if it is one. The message in between is an
/// MLS value that nothing here reads, so the two calls share one name.
///
/// Trusted: the outcome is the one named by `welcome_decoding`; the welcome itself is passed
/// on untouched and nothing is claimed of it.
#[verifier::external_body]
pub(crate) fn decode_welcome(wire: &[u8]) -> (r: Result<Option<Welcome>, String>)
    ensures
        match r {
            Ok(Some(_)) => welcome_decoding(wire@) == Ok::<bool, Seq<char>>(true),
            Ok(None) => welcome_decoding(wire@) == Ok::<bool, Seq<char>>(false),
            Err(e) => welcome_decoding(wire@) == Err::<bool, Seq<char>>(e@),
        },
{
    match MlsMessageIn::tls_deserialize_exact(wire) {
        Err(e) => Err(format!("{e:?}")),
        Ok(message) => match message.extract() {
            MlsMessageBodyIn::Welcome(welcome) => Ok(Some(welcome)),
            MlsMessageBodyIn::PublicMessage(_) => Ok(None),
            MlsMessageBodyIn::PrivateMessage(_) => Ok(None),
            MlsMessageBodyIn::GroupInfo(_) => Ok(None),
            MlsMessageBodyIn::KeyPackage(_) => Ok(None),
        },
    }
}

/// Reads `wire` as an MLS message (`MlsMessageIn::tls_deserialize_exact`) and converts it
/// into a protocol message (`MlsMessageIn::try_into_protocol_message`). The message in between
/// is an MLS value that nothing here reads, so the two calls share one name.
///
/// Trusted: the outcome is the one named by `protocol_decoding`; the protocol message itself
/// is passed on untouched and nothing is claimed of it.
#[verifier::external_body]
pub(crate) fn decode_protocol(wire: &[u8]) -> (r: Result<ProtocolMessage, ProtocolFault>)
    ensures
        match r {
            Ok(_) => protocol_decoding(wire@) == Ok::<(), ProtocolFaultModel>(()),
            Err(fault) => protocol_decoding(wire@) == Err::<(), ProtocolFaultModel>(fault@),
        },
{
    match MlsMessageIn::tls_deserialize_exact(wire) {
        Err(e) => Err(ProtocolFault::Malformed(format!("{e:?}"))),
        Ok(message) => message.try_into_protocol_message().map_err(|e| ProtocolFault::NotProtocol(format!("{e:?}"))),
    }
}

} // verus!
