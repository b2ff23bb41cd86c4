//! The failures a bridge can report, and how far each one reaches.

use vstd::prelude::*;

verus! {

/// Why a bridge operation was refused or gave up.
#[derive(Clone, Copy, Debug, PartialEq, Eq, Structural)]
pub enum BridgeError {
    /// The URL or the broadcast path is missing or malformed.
    Config,
    /// The session could not be established or was lost.
    Connect,
    /// The codec, or its profile or level, has no counterpart on the other side.
    UnsupportedCodec,
    /// The capability names a kind of media that is neither video nor audio.
    UnsupportedMediaKind,
    /// The broadcast never produced a catalog.
    NoCatalog,
    /// Reading or writing an established track failed.
    TrackIo,
    /// A buffer arrived that cannot be taken.
    Flow,
    /// The caller did something the bridge's state does not allow.
    ProtocolViolation,
}

/// How much of a bridge an error takes down with it.
#[derive(Clone, Copy, Debug, PartialEq, Eq, Structural)]
pub enum ErrorScope {
    /// Setup is abandoned before any network activity.
    Setup,
    /// The whole bridge is unusable.
    Bridge,
    /// Only the track concerned stops; its siblings and the session go on.
    Track,
}

impl BridgeError {
    /// The reach of each error.
    pub open spec fn spec_scope(self) -> ErrorScope {
        match self {
            BridgeError::Config => ErrorScope::Setup,
            BridgeError::Connect => ErrorScope::Bridge,
            BridgeError::NoCatalog => ErrorScope::Bridge,
            BridgeError::UnsupportedCodec => ErrorScope::Track,
            BridgeError::UnsupportedMediaKind => ErrorScope::Track,
            BridgeError::TrackIo => ErrorScope::Track,
            BridgeError::Flow => ErrorScope::Track,
            BridgeError::ProtocolViolation => ErrorScope::Track,
        }
    }

    /// The reach of this error.
    pub fn scope(&self) -> (scope: ErrorScope)
        ensures
            scope == self.spec_scope(),
    {
        match self {
            BridgeError::Config => ErrorScope::Setup,
            BridgeError::Connect | BridgeError::NoCatalog => ErrorScope::Bridge,
            _ => ErrorScope::Track,
        }
    }

    /// The cause in words.
    pub open spec fn spec_message(self) -> Seq<char> {
        match self {
            BridgeError::Config => "the URL or the broadcast path is missing or invalid"@,
            BridgeError::Connect => "the session could not be established or was lost"@,
            BridgeError::UnsupportedCodec => "the codec, profile or level is not supported"@,
            BridgeError::UnsupportedMediaKind => "the media is neither video nor audio"@,
            BridgeError::NoCatalog => "the broadcast has no catalog"@,
            BridgeError::TrackIo => "reading or writing the track failed"@,
            BridgeError::Flow => "the buffer cannot be taken"@,
            BridgeError::ProtocolViolation => "the bridge is in no state for this"@,
        }
    }

    /// The cause in words, for the host's error report.
    pub fn message(&self) -> (text: &'static str)
        ensures
            text@ == self.spec_message(),
    {
        match self {
            BridgeError::Config => "the URL or the broadcast path is missing or invalid",
            BridgeError::Connect => "the session could not be established or was lost",
            BridgeError::UnsupportedCodec => "the codec, profile or level is not supported",
            BridgeError::UnsupportedMediaKind => "the media is neither video nor audio",
            BridgeError::NoCatalog => "the broadcast has no catalog",
            BridgeError::TrackIo => "reading or writing the track failed",
            BridgeError::Flow => "the buffer cannot be taken",
            BridgeError::ProtocolViolation => "the bridge is in no state for this",
        }
    }

    /// True when sibling tracks and the session survive this error.
    pub fn is_track_local(&self) -> (local: bool)
        ensures
            local == (self.spec_scope() == ErrorScope::Track),
    {
        match self.scope() {
            ErrorScope::Track => true,
            _ => false,
        }
    }
}

} // verus!
