//! One probe, from connecting to its outcome.
//!
//! A probe never touches a socket or a file. It hands its caller an
//! [`Action`], the caller performs it and reports what happened as an
//! [`Event`], and the probe answers with the next action. The stages follow
//! one another in a fixed order and never go back:
//! connecting, handshaking, awaiting the response, stripping its frame,
//! validating the payload, and one of three outcomes.

use crate::buffer::{filled, put_slice, remaining};
use crate::error::ProbeError;
use crate::frame::{payload_start, strip_frame};
use crate::packet::{
    handshake_bytes, handshake_fits, handshake_packet, status_request_bytes,
    status_request_packet,
};
use crate::payload::{
    favicon_image, favicon_image_bytes, first_rejection, image_path, output_dir, passes_filter,
    payload_path, screen, Rejection, MOTD,
};
use bytes::{Bytes, BytesMut};
use vstd::prelude::*;
use vstd::utf8::encode_utf8;

verus! {

/// How long a read may stay idle before the response counts as complete, in
/// milliseconds.
pub const IDLE_TIMEOUT_MS: u64 = 500;

/// The size of the scratch buffer of one read.
pub const SCRATCH_SIZE: usize = 255;

/// The room reserved for a response up front. A response may grow beyond
/// it.
pub const RESPONSE_CAPACITY: usize = 0xFFFFF;

/// The phases of a probe.
#[derive(Clone, Copy, Debug, PartialEq, Eq, Structural)]
pub enum Phase {
    Connecting,
    Handshaking,
    AwaitingResponse,
    Stripping,
    Validating,
    Accepted,
    Rejected,
    Failed,
}

/// Where a probe stands: its phase, the step within it, and what that step
/// has to keep.
#[derive(Debug, PartialEq, Eq)]
pub enum Stage {
    /// The connection is being opened.
    Connecting,
    /// The handshake packet is being written.
    SendingHandshake,
    /// The status request is being written.
    SendingRequest,
    /// A read is under way. Holds the response collected so far.
    Reading(BytesMut),
    /// Reading is over and the write half is being closed. Holds the
    /// response.
    Closing(BytesMut),
    /// The payload text is being decoded.
    Decoding,
    /// The payload passed the filter and its document is being written.
    /// Holds the favicon.
    SavingPayload(String),
    /// The image is being written.
    SavingImage,
    /// Both artifacts are written.
    Accepted,
    /// The payload failed the filter. Nothing was written.
    Rejected(Rejection),
    /// The probe failed.
    Failed(ProbeError),
}

/// A probe of one endpoint.
#[derive(Debug, PartialEq, Eq)]
pub struct Probe {
    pub host: String,
    pub port: u16,
    pub protocol_version: u32,
    pub stage: Stage,
}

/// What happened when the caller performed the last action.
#[derive(Debug, PartialEq, Eq)]
pub enum Event<'a> {
    /// The connection is open.
    Connected,
    /// The endpoint refused, timed out or could not be resolved.
    ConnectFailed,
    /// The bytes were written.
    Written,
    /// The write failed.
    WriteFailed,
    /// The read returned these bytes; none when the peer has closed.
    Read(&'a [u8]),
    /// The read stayed idle for the whole timeout.
    ReadTimedOut,
    /// The read failed.
    ReadFailed,
    /// The write half is closed.
    Closed,
    /// Closing the write half failed.
    CloseFailed,
    /// The payload text decoded to this payload.
    Decoded(MOTD),
    /// The payload text is not a status document.
    DecodeFailed,
    /// The file was written.
    Saved,
    /// The file could not be written.
    SaveFailed,
}

/// What the caller has to do next.
#[derive(Debug, PartialEq, Eq)]
pub enum Action {
    /// Open a connection to the probe's host and port.
    Connect,
    /// Write these bytes in one write.
    Write(BytesMut),
    /// Read once into the scratch buffer, waiting no longer than the idle
    /// timeout.
    Read,
    /// Close the write half of the connection.
    Close,
    /// Decode this text as a status document.
    Decode(Bytes),
    /// Write the payload, pretty-printed, to `path`.
    SavePayload { path: String, payload: MOTD },
    /// Write the image to `path`.
    SaveImage { path: String, image: Vec<u8> },
    /// Nothing: the probe has reached its outcome.
    Done,
    /// Nothing: the event did not answer the pending action, and the probe
    /// has not moved.
    Ignored,
}

/// The phase that a stage belongs to.
pub open spec fn stage_phase(stage: Stage) -> Phase {
    match stage {
        Stage::Connecting => Phase::Connecting,
        Stage::SendingHandshake => Phase::Handshaking,
        Stage::SendingRequest => Phase::Handshaking,
        Stage::Reading(_) => Phase::AwaitingResponse,
        Stage::Closing(_) => Phase::Stripping,
        Stage::Decoding => Phase::Validating,
        Stage::SavingPayload(_) => Phase::Validating,
        Stage::SavingImage => Phase::Validating,
        Stage::Accepted => Phase::Accepted,
        Stage::Rejected(_) => Phase::Rejected,
        Stage::Failed(_) => Phase::Failed,
    }
}

/// The place of a phase in the order of a probe. The three outcomes share
/// the last place.
pub open spec fn phase_rank(phase: Phase) -> nat {
    match phase {
        Phase::Connecting => 0,
        Phase::Handshaking => 1,
        Phase::AwaitingResponse => 2,
        Phase::Stripping => 3,
        Phase::Validating => 4,
        Phase::Accepted => 5,
        Phase::Rejected => 5,
        Phase::Failed => 5,
    }
}

/// Whether a stage is an outcome.
pub open spec fn is_outcome(stage: Stage) -> bool {
    stage is Accepted || stage is Rejected || stage is Failed
}

/// The probe fails with `error` and asks for nothing more.
pub open spec fn fails_with(post: Stage, action: Action, error: ProbeError) -> bool {
    post == Stage::Failed(error) && action == Action::Done
}

/// The bytes of a text on the wire and in a favicon.
pub open spec fn text_bytes(text: Seq<char>) -> Seq<u8> {
    encode_utf8(text)
}

/// What an event makes of a probe: whether `post` and `action` are the
/// stage and the action that follow when `event` reaches `probe`.
pub open spec fn transition(probe: Probe, event: Event, post: Stage, action: Action) -> bool {
    match probe.stage {
        Stage::Connecting => match event {
            Event::Connected => if handshake_fits(
                probe.protocol_version,
                text_bytes(probe.host@),
            ) {
                &&& post == Stage::SendingHandshake
                &&& action matches Action::Write(packet)
                &&& filled(packet) == handshake_bytes(
                    probe.protocol_version,
                    text_bytes(probe.host@),
                    probe.port,
                )
            } else {
                fails_with(post, action, ProbeError::PacketTooLarge)
            },
            Event::ConnectFailed => fails_with(post, action, ProbeError::ConnectError),
            _ => post == probe.stage && action == Action::Ignored,
        },
        Stage::SendingHandshake => match event {
            Event::Written => {
                &&& post == Stage::SendingRequest
                &&& action matches Action::Write(packet)
                &&& filled(packet) == status_request_bytes()
            },
            Event::WriteFailed => fails_with(post, action, ProbeError::WriteError),
            _ => post == probe.stage && action == Action::Ignored,
        },
        Stage::SendingRequest => match event {
            Event::Written => {
                &&& post matches Stage::Reading(response)
                &&& filled(response) == Seq::<u8>::empty()
                &&& action == Action::Read
            },
            Event::WriteFailed => fails_with(post, action, ProbeError::WriteError),
            _ => post == probe.stage && action == Action::Ignored,
        },
        Stage::Reading(response) => match event {
            Event::Read(chunk) => if chunk@.len() > 0 {
                &&& post matches Stage::Reading(grown)
                &&& filled(grown) == filled(response) + chunk@
                &&& action == Action::Read
            } else {
                post == Stage::Closing(response) && action == Action::Close
            },
            Event::ReadTimedOut => post == Stage::Closing(response) && action == Action::Close,
            Event::ReadFailed => fails_with(post, action, ProbeError::ReadError),
            _ => post == probe.stage && action == Action::Ignored,
        },
        Stage::Closing(response) => match event {
            Event::Closed => match payload_start(filled(response)) {
                Some(at) => {
                    &&& post == Stage::Decoding
                    &&& action matches Action::Decode(text)
                    &&& remaining(text) == filled(response).skip(at)
                },
                None => fails_with(post, action, ProbeError::FrameUnderrun),
            },
            Event::CloseFailed => fails_with(post, action, ProbeError::WriteError),
            _ => post == probe.stage && action == Action::Ignored,
        },
        Stage::Decoding => match event {
            Event::Decoded(payload) => match first_rejection(payload, probe.protocol_version) {
                Some(rejection) => post == Stage::Rejected(rejection) && action == Action::Done,
                None => {
                    &&& payload.favicon matches Some(favicon)
                    &&& post == Stage::SavingPayload(favicon)
                    &&& action matches Action::SavePayload { path, payload: document }
                    &&& document == payload
                    &&& path@ == output_dir() + probe.host@ + ".json"@
                },
            },
            Event::DecodeFailed => fails_with(post, action, ProbeError::PayloadDecodeError),
            _ => post == probe.stage && action == Action::Ignored,
        },
        Stage::SavingPayload(favicon) => match event {
            Event::Saved => match favicon_image_bytes(text_bytes(favicon@)) {
                Some(bytes) => {
                    &&& post == Stage::SavingImage
                    &&& action matches Action::SaveImage { path, image }
                    &&& image@ == bytes
                    &&& path@ == output_dir() + probe.host@ + ".png"@
                },
                None => fails_with(post, action, ProbeError::FaviconDecodeError),
            },
            Event::SaveFailed => fails_with(post, action, ProbeError::PersistError),
            _ => post == probe.stage && action == Action::Ignored,
        },
        Stage::SavingImage => match event {
            Event::Saved => post == Stage::Accepted && action == Action::Done,
            Event::SaveFailed => fails_with(post, action, ProbeError::PersistError),
            _ => post == probe.stage && action == Action::Ignored,
        },
        Stage::Accepted => post == probe.stage && action == Action::Done,
        Stage::Rejected(_) => post == probe.stage && action == Action::Done,
        Stage::Failed(_) => post == probe.stage && action == Action::Done,
    }
}

impl Stage {
    /// The phase that this stage belongs to.
    pub fn phase(&self) -> (phase: Phase)
        ensures
            phase == stage_phase(*self),
    {
        match self {
            Stage::Connecting => Phase::Connecting,
            Stage::SendingHandshake => Phase::Handshaking,
            Stage::SendingRequest => Phase::Handshaking,
            Stage::Reading(_) => Phase::AwaitingResponse,
            Stage::Closing(_) => Phase::Stripping,
            Stage::Decoding => Phase::Validating,
            Stage::SavingPayload(_) => Phase::Validating,
            Stage::SavingImage => Phase::Validating,
            Stage::Accepted => Phase::Accepted,
            Stage::Rejected(_) => Phase::Rejected,
            Stage::Failed(_) => Phase::Failed,
        }
    }
}

impl Probe {
    /// A probe of `host` and `port` that announces `protocol_version`, and
    /// its first action: to connect.
    pub fn start(host: String, port: u16, protocol_version: u32) -> (out: (Probe, Action))
        ensures
            out.0.host == host,
            out.0.port == port,
            out.0.protocol_version == protocol_version,
            out.0.stage == Stage::Connecting,
            out.1 == Action::Connect,
    {
        (Probe { host, port, protocol_version, stage: Stage::Connecting }, Action::Connect)
    }

    /// The phase that the probe is in.
    pub fn phase(&self) -> (phase: Phase)
        ensures
            phase == stage_phase(self.stage),
    {
        self.stage.phase()
    }

    /// Whether the probe has reached its outcome.
    pub fn is_finished(&self) -> (finished: bool)
        ensures
            finished == is_outcome(self.stage),
    {
        match &self.stage {
            Stage::Accepted => true,
            Stage::Rejected(_) => true,
            Stage::Failed(_) => true,
            _ => false,
        }
    }

    /// Takes the probe one step on: `event` tells how the pending action
    /// went, and the answer is the probe after it and the next action.
    pub fn step(self, event: Event<'_>) -> (out: (Probe, Action))
        ensures
            out.0.host == self.host,
            out.0.port == self.port,
            out.0.protocol_version == self.protocol_version,
            transition(self, event, out.0.stage, out.1),
    {
        let Probe { host, port, protocol_version, stage } = self;
        let (next, action): (Stage, Action) = match stage {
            Stage::Connecting => match event {
                Event::Connected => match handshake_packet(protocol_version, host.as_str(), port) {
                    Ok(packet) => (Stage::SendingHandshake, Action::Write(packet)),
                    Err(e) => (Stage::Failed(e), Action::Done),
                },
                Event::ConnectFailed => (Stage::Failed(ProbeError::ConnectError), Action::Done),
                _ => (Stage::Connecting, Action::Ignored),
            },
            Stage::SendingHandshake => match event {
                Event::Written => (Stage::SendingRequest, Action::Write(status_request_packet())),
                Event::WriteFailed => (Stage::Failed(ProbeError::WriteError), Action::Done),
                _ => (Stage::SendingHandshake, Action::Ignored),
            },
            Stage::SendingRequest => match event {
                Event::Written => (
                    Stage::Reading(BytesMut::with_capacity(RESPONSE_CAPACITY)),
                    Action::Read,
                ),
                Event::WriteFailed => (Stage::Failed(ProbeError::WriteError), Action::Done),
                _ => (Stage::SendingRequest, Action::Ignored),
            },
            Stage::Reading(response) => match event {
                Event::Read(chunk) => {
                    if chunk.len() > 0 {
                        let mut response = response;
                        put_slice(&mut response, chunk);
                        (Stage::Reading(response), Action::Read)
                    } else {
                        (Stage::Closing(response), Action::Close)
                    }
                },
                Event::ReadTimedOut => (Stage::Closing(response), Action::Close),
                Event::ReadFailed => (Stage::Failed(ProbeError::ReadError), Action::Done),
                _ => (Stage::Reading(response), Action::Ignored),
            },
            Stage::Closing(response) => match event {
                Event::Closed => match strip_frame(response.freeze()) {
                    Ok(text) => (Stage::Decoding, Action::Decode(text)),
                    Err(e) => (Stage::Failed(e), Action::Done),
                },
                Event::CloseFailed => (Stage::Failed(ProbeError::WriteError), Action::Done),
                _ => (Stage::Closing(response), Action::Ignored),
            },
            Stage::Decoding => match event {
                Event::Decoded(payload) => {
                    let kept: Result<String, Rejection> = match screen(
                        &payload,
                        protocol_version,
                    ) {
                        Ok(favicon) => Ok(favicon.clone()),
                        Err(rejection) => Err(rejection),
                    };
                    match kept {
                        Ok(favicon) => (
                            Stage::SavingPayload(favicon),
                            Action::SavePayload { path: payload_path(host.as_str()), payload },
                        ),
                        Err(rejection) => (Stage::Rejected(rejection), Action::Done),
                    }
                },
                Event::DecodeFailed => (
                    Stage::Failed(ProbeError::PayloadDecodeError),
                    Action::Done,
                ),
                _ => (Stage::Decoding, Action::Ignored),
            },
            Stage::SavingPayload(favicon) => match event {
                Event::Saved => match favicon_image(favicon.as_str()) {
                    Ok(image) => (
                        Stage::SavingImage,
                        Action::SaveImage { path: image_path(host.as_str()), image },
                    ),
                    Err(e) => (Stage::Failed(e), Action::Done),
                },
                Event::SaveFailed => (Stage::Failed(ProbeError::PersistError), Action::Done),
                _ => (Stage::SavingPayload(favicon), Action::Ignored),
            },
            Stage::SavingImage => match event {
                Event::Saved => (Stage::Accepted, Action::Done),
                Event::SaveFailed => (Stage::Failed(ProbeError::PersistError), Action::Done),
                _ => (Stage::SavingImage, Action::Ignored),
            },
            Stage::Accepted => (Stage::Accepted, Action::Done),
            Stage::Rejected(rejection) => (Stage::Rejected(rejection), Action::Done),
            Stage::Failed(error) => (Stage::Failed(error), Action::Done),
        };
        (Probe { host, port, protocol_version, stage: next }, action)
    }
}

/// A step never takes a probe back to an earlier phase.
pub proof fn lemma_phases_only_advance(probe: Probe, event: Event, post: Stage, action: Action)
    requires
        transition(probe, event, post, action),
    ensures
        phase_rank(stage_phase(probe.stage)) <= phase_rank(stage_phase(post)),
{
}

/// An outcome is final: whatever is reported to a probe that has reached
/// one, the probe stays as it is and asks for nothing.
pub proof fn lemma_outcome_is_final(probe: Probe, event: Event, post: Stage, action: Action)
    requires
        transition(probe, event, post, action),
        is_outcome(probe.stage),
    ensures
        post == probe.stage,
        action == Action::Done,
{
}

/// A probe asks for nothing more exactly when it has reached its outcome.
pub proof fn lemma_done_at_outcome(probe: Probe, event: Event, post: Stage, action: Action)
    requires
        transition(probe, event, post, action),
    ensures
        action == Action::Done <==> is_outcome(post),
{
}

/// The action that a step hands out is the one that the stage it leads to
/// waits for, unless the event was ignored.
pub proof fn lemma_action_fits_stage(probe: Probe, event: Event, post: Stage, action: Action)
    requires
        transition(probe, event, post, action),
        action != Action::Ignored,
    ensures
        action is Connect <==> post is Connecting,
        action is Write <==> post is SendingHandshake || post is SendingRequest,
        action is Read <==> post is Reading,
        action is Close <==> post is Closing,
        action is Decode <==> post is Decoding,
        action is SavePayload <==> post is SavingPayload,
        action is SaveImage <==> post is SavingImage,
        action is Done <==> is_outcome(post),
{
}

/// An ignored event changes nothing, and no event is ignored that answers
/// the pending action of a stage.
pub proof fn lemma_ignored_keeps_stage(probe: Probe, event: Event, post: Stage, action: Action)
    requires
        transition(probe, event, post, action),
        action == Action::Ignored,
    ensures
        post == probe.stage,
        !is_outcome(probe.stage),
{
}

/// Files are asked for only on behalf of a payload that passed the filter:
/// a decoded payload that fails it ends the probe as rejected, with nothing
/// to write, and one that passes it is handed back to be written.
pub proof fn lemma_filter_guards_artifacts(
    probe: Probe,
    payload: MOTD,
    post: Stage,
    action: Action,
)
    requires
        probe.stage == Stage::Decoding,
        transition(probe, Event::Decoded(payload), post, action),
    ensures
        passes_filter(payload, probe.protocol_version) <==> action is SavePayload,
        !passes_filter(payload, probe.protocol_version) <==> post is Rejected && action
            == Action::Done,
{
}

/// A failed read discards what was collected: the probe ends as failed and
/// keeps no response.
pub proof fn lemma_read_failure_discards(probe: Probe, post: Stage, action: Action)
    requires
        probe.stage is Reading,
        transition(probe, Event::ReadFailed, post, action),
    ensures
        post == Stage::Failed(ProbeError::ReadError),
        action == Action::Done,
{
}

} // verus!
