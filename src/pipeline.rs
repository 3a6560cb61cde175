use vstd::prelude::*;

use crate::audio_query::{assemble, AudioQuery, Prosody};
use crate::error::VVSpeechError;
use crate::metas::{all_have_styles, get_appropriate_id, name_view, resolves, Meta};

verus! {

/// A request that the caller sends to the engine.
#[derive(Debug)]
pub enum Request<P, F> {
    /// Ask for the default audio query of `text` for style `speaker`.
    DefaultQuery { speaker: u32, text: String },
    /// Ask for the accent phrases of the phonetic notation `text`.
    AccentPhrases { speaker: u32, text: String },
    /// Ask for the audio of `query`, spoken in style `speaker`.
    Synthesis { speaker: u32, query: AudioQuery<P, F> },
}

/// The engine's answer to the last request; `None` when the engine could not
/// be reached, answered with a failure status, or sent data that did not
/// decode.
#[derive(Debug)]
pub enum Reply<P, F> {
    DefaultQuery(Option<AudioQuery<P, F>>),
    AccentPhrases(Option<Vec<P>>),
    Synthesis(Option<Vec<u8>>),
}

/// What the caller does next.
#[derive(Debug)]
pub enum Action<P, F> {
    /// Send this request and hand the reply to `step`.
    Send(Request<P, F>),
    /// The run is done: play or save these audio bytes.
    Deliver(Vec<u8>),
    /// The run failed: report this error and stop.
    Abort(VVSpeechError),
}

/// Where one synthesis run stands.
#[derive(Debug)]
pub enum Stage<P, F> {
    /// The default query was asked for; `phonetic_text` holds the text in
    /// phonetic notation when the run is in phonetic mode.
    AwaitingQuery { speaker: u32, phonetic_text: Option<String>, prosody: Prosody<F> },
    /// The accent phrases of the phonetic text were asked for.
    AwaitingPhrases { speaker: u32, query: AudioQuery<P, F>, prosody: Prosody<F> },
    /// The audio was asked for.
    AwaitingAudio,
    /// The run has delivered or aborted; nothing more is sent.
    Over,
}

impl<P, F> Stage<P, F> {
    /// The error that ends the run when the awaited reply does not come.
    pub open spec fn failure(self) -> VVSpeechError {
        match self {
            Stage::AwaitingQuery { .. } => VVSpeechError::GetAudioQueryFailed,
            Stage::AwaitingPhrases { .. } => VVSpeechError::GetAccentPhrasesFailed,
            _ => VVSpeechError::GetAudioFailed,
        }
    }

    /// `reply` is a successful answer to the request this stage awaits.
    pub open spec fn answered_by(self, reply: Reply<P, F>) -> bool {
        match self {
            Stage::AwaitingQuery { .. } => reply matches Reply::DefaultQuery(Some(_)),
            Stage::AwaitingPhrases { .. } => reply matches Reply::AccentPhrases(Some(_)),
            Stage::AwaitingAudio => reply matches Reply::Synthesis(Some(_)),
            Stage::Over => false,
        }
    }
}

/// The run stops with error `e`.
pub open spec fn halts<P, F>(next: Stage<P, F>, action: Action<P, F>, e: VVSpeechError) -> bool {
    next is Over && action == Action::<P, F>::Abort(e)
}

/// How a run begins: the speaker is resolved, and either the run aborts with
/// the resolution error or the default query is asked for, for the text in
/// plain mode and for the empty text in phonetic mode.
pub open spec fn begins<P, F>(
    metas: Seq<Meta>,
    speaker_id: Option<u32>,
    speaker_name: Option<Seq<char>>,
    text: String,
    is_kana: bool,
    prosody: Prosody<F>,
    next: Stage<P, F>,
    action: Action<P, F>,
) -> bool {
    match action {
        Action::Abort(e) => next is Over && resolves(metas, speaker_id, speaker_name, Err(e)),
        Action::Send(Request::DefaultQuery { speaker, text: asked }) => {
            &&& resolves(metas, speaker_id, speaker_name, Ok(speaker))
            &&& next == Stage::<P, F>::AwaitingQuery {
                speaker,
                phonetic_text: if is_kana { Some(text) } else { None },
                prosody,
            }
            &&& asked@ == if is_kana { Seq::<char>::empty() } else { text@ }
        },
        _ => false,
    }
}

/// One transition of a run from `stage` on `reply`.
pub open spec fn transition<P, F>(
    stage: Stage<P, F>,
    reply: Reply<P, F>,
    next: Stage<P, F>,
    action: Action<P, F>,
) -> bool {
    if !stage.answered_by(reply) {
        halts(next, action, stage.failure())
    } else {
        match (stage, reply) {
            (
                Stage::AwaitingQuery { speaker, phonetic_text, prosody },
                Reply::DefaultQuery(Some(query)),
            ) => match phonetic_text {
                Some(text) => {
                    &&& next == Stage::AwaitingPhrases { speaker, query, prosody }
                    &&& action == Action::Send(Request::<P, F>::AccentPhrases { speaker, text })
                },
                None => {
                    &&& next is AwaitingAudio
                    &&& action == Action::Send(
                        Request::Synthesis { speaker, query: query.assembled(None, prosody) },
                    )
                },
            },
            (
                Stage::AwaitingPhrases { speaker, query, prosody },
                Reply::AccentPhrases(Some(phrases)),
            ) => {
                &&& next is AwaitingAudio
                &&& action == Action::Send(
                    Request::Synthesis { speaker, query: query.assembled(Some(phrases), prosody) },
                )
            },
            (Stage::AwaitingAudio, Reply::Synthesis(Some(audio))) => {
                &&& next is Over
                &&& action == Action::<P, F>::Deliver(audio)
            },
            _ => false,
        }
    }
}

/// Starts a synthesis run: resolves the speaker and asks for the default
/// query.
pub fn start<P, F>(
    metas: &[Meta],
    speaker_id: &Option<u32>,
    speaker_name: &Option<String>,
    text: String,
    is_kana: bool,
    prosody: Prosody<F>,
) -> (r: (Stage<P, F>, Action<P, F>))
    requires
        all_have_styles(metas@),
    ensures
        begins(metas@, *speaker_id, name_view(*speaker_name), text, is_kana, prosody, r.0, r.1),
{
    match get_appropriate_id(metas, speaker_id, speaker_name) {
        Err(e) => (Stage::Over, Action::Abort(e)),
        Ok(speaker) => {
            if is_kana {
                (
                    Stage::AwaitingQuery { speaker, phonetic_text: Some(text), prosody },
                    Action::Send(Request::DefaultQuery { speaker, text: String::new() }),
                )
            } else {
                (
                    Stage::AwaitingQuery { speaker, phonetic_text: None, prosody },
                    Action::Send(Request::DefaultQuery { speaker, text }),
                )
            }
        },
    }
}

/// Advances a run by the engine's reply to the last request.
pub fn step<P, F>(stage: Stage<P, F>, reply: Reply<P, F>) -> (r: (Stage<P, F>, Action<P, F>))
    requires
        !(stage is Over),
    ensures
        transition(stage, reply, r.0, r.1),
{
    match stage {
        Stage::AwaitingQuery { speaker, phonetic_text, prosody } => match reply {
            Reply::DefaultQuery(Some(query)) => match phonetic_text {
                Some(text) => (
                    Stage::AwaitingPhrases { speaker, query, prosody },
                    Action::Send(Request::AccentPhrases { speaker, text }),
                ),
                None => (
                    Stage::AwaitingAudio,
                    Action::Send(
                        Request::Synthesis { speaker, query: assemble(query, None, prosody) },
                    ),
                ),
            },
            _ => (Stage::Over, Action::Abort(VVSpeechError::GetAudioQueryFailed)),
        },
        Stage::AwaitingPhrases { speaker, query, prosody } => match reply {
            Reply::AccentPhrases(Some(phrases)) => (
                Stage::AwaitingAudio,
                Action::Send(
                    Request::Synthesis { speaker, query: assemble(query, Some(phrases), prosody) },
                ),
            ),
            _ => (Stage::Over, Action::Abort(VVSpeechError::GetAccentPhrasesFailed)),
        },
        Stage::AwaitingAudio => match reply {
            Reply::Synthesis(Some(audio)) => (Stage::Over, Action::Deliver(audio)),
            _ => (Stage::Over, Action::Abort(VVSpeechError::GetAudioFailed)),
        },
        Stage::Over => (Stage::Over, Action::Abort(VVSpeechError::GetAudioFailed)),
    }
}

/// A reply that does not bring what the stage asked for (the engine failed,
/// or its data did not decode) ends the run at once with that stage's
/// error: nothing further is sent and no audio is delivered.
pub proof fn law_failure_halts<P, F>(
    stage: Stage<P, F>,
    reply: Reply<P, F>,
    next: Stage<P, F>,
    action: Action<P, F>,
)
    requires
        !(stage is Over),
        !stage.answered_by(reply),
        transition(stage, reply, next, action),
    ensures
        next is Over,
        action == Action::<P, F>::Abort(stage.failure()),
{
}

/// Audio is delivered only on a successful answer to the synthesis request,
/// and then it is exactly the audio that came back.
pub proof fn law_delivery_only_after_synthesis<P, F>(
    stage: Stage<P, F>,
    reply: Reply<P, F>,
    next: Stage<P, F>,
    audio: Vec<u8>,
)
    requires
        transition(stage, reply, next, Action::Deliver(audio)),
    ensures
        stage is AwaitingAudio,
        reply == Reply::<P, F>::Synthesis(Some(audio)),
        next is Over,
{
}

/// In phonetic mode, the query sent for synthesis carries exactly the accent
/// phrases fetched for the phonetic text, never those of the default query;
/// its sampling parameters and phonetic string are the default query's, and
/// its prosody is the caller's.
pub proof fn law_phonetic_run_sends_fetched_phrases<P, F>(
    speaker: u32,
    query: AudioQuery<P, F>,
    prosody: Prosody<F>,
    phrases: Vec<P>,
    next: Stage<P, F>,
    action: Action<P, F>,
)
    requires
        transition(
            Stage::AwaitingPhrases { speaker, query, prosody },
            Reply::AccentPhrases(Some(phrases)),
            next,
            action,
        ),
    ensures
        action matches Action::Send(Request::Synthesis { speaker: s, query: sent }) && s == speaker
            && sent.accent_phrases == phrases && sent.output_sampling_rate
            == query.output_sampling_rate && sent.output_stereo == query.output_stereo && sent.kana
            == query.kana && sent.prosody() == prosody,
{
}

} // verus!
