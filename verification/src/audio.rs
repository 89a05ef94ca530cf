//! The bookkeeping of call audio: which calls have an audio session, and what
//! the audio devices are asked to do when one starts or stops.

use crate::call::view_of;
use crate::commands::SipError;
use crate::config::clone_text;
use crate::ident::{engine_call_id, uuid_value};
use crate::text::str_eq;
use std::sync::Arc;
use vstd::prelude::*;

verus! {

/// The audio controls of the user interface. Audio follows the calls by
/// itself, so there is nothing for them to switch.
#[derive(Debug, Clone, Copy, PartialEq, Eq)]
pub struct AudioControls;

impl AudioControls {
    /// The controls; `_client` is what they would act on, if they had to.
    pub fn new(_client: Arc<()>) -> (r: Self) {
        AudioControls
    }

    /// The microphone is never muted from here.
    pub fn is_microphone_muted(&self) -> (r: bool)
        ensures
            !r,
    {
        false
    }

    /// The speaker is never muted from here.
    pub fn is_speaker_muted(&self) -> (r: bool)
        ensures
            !r,
    {
        false
    }

    /// No audio is started from here.
    pub fn is_audio_active(&self) -> (r: bool)
        ensures
            !r,
    {
        false
    }

    /// Audio is always enabled.
    pub fn is_audio_enabled(&self) -> (r: bool)
        ensures
            r,
    {
        true
    }

    /// Leaves the microphone as it is, and says that it is not muted.
    pub fn toggle_microphone_mute(&self) -> (r: bool)
        ensures
            !r,
    {
        false
    }

    /// Leaves the speaker as it is, and says that it is not muted.
    pub fn toggle_speaker_mute(&self) -> (r: bool)
        ensures
            !r,
    {
        false
    }
}

/// The audio settings of a session.
#[derive(Debug, PartialEq, Eq)]
pub struct AudioConfig {
    /// Whether calls get audio at all.
    pub enabled: bool,
    pub echo_cancellation: bool,
    pub noise_suppression: bool,
    pub auto_gain_control: bool,
    /// The microphone to use; the default one where none is named.
    pub input_device_id: Option<String>,
    /// The speaker to use; the default one where none is named.
    pub output_device_id: Option<String>,
    pub microphone_muted: bool,
    pub speaker_muted: bool,
}

/// The mathematical model of an [`AudioConfig`].
#[verifier::ext_equal]
pub struct AudioConfigView {
    pub enabled: bool,
    pub echo_cancellation: bool,
    pub noise_suppression: bool,
    pub auto_gain_control: bool,
    pub input_device_id: Option<Seq<char>>,
    pub output_device_id: Option<Seq<char>>,
    pub microphone_muted: bool,
    pub speaker_muted: bool,
}

impl View for AudioConfig {
    type V = AudioConfigView;

    open spec fn view(&self) -> AudioConfigView {
        AudioConfigView {
            enabled: self.enabled,
            echo_cancellation: self.echo_cancellation,
            noise_suppression: self.noise_suppression,
            auto_gain_control: self.auto_gain_control,
            input_device_id: view_of(self.input_device_id),
            output_device_id: view_of(self.output_device_id),
            microphone_muted: self.microphone_muted,
            speaker_muted: self.speaker_muted,
        }
    }
}

impl Clone for AudioConfig {
    fn clone(&self) -> (r: Self)
        ensures
            r@ == self@,
    {
        AudioConfig {
            enabled: self.enabled,
            echo_cancellation: self.echo_cancellation,
            noise_suppression: self.noise_suppression,
            auto_gain_control: self.auto_gain_control,
            input_device_id: clone_text(&self.input_device_id),
            output_device_id: clone_text(&self.output_device_id),
            microphone_muted: self.microphone_muted,
            speaker_muted: self.speaker_muted,
        }
    }
}

/// The settings a session starts with: audio on, with all processing, on the
/// default devices, nothing muted.
pub open spec fn default_audio() -> AudioConfigView {
    AudioConfigView {
        enabled: true,
        echo_cancellation: true,
        noise_suppression: true,
        auto_gain_control: true,
        input_device_id: None,
        output_device_id: None,
        microphone_muted: false,
        speaker_muted: false,
    }
}

impl Default for AudioConfig {
    fn default() -> (r: Self)
        ensures
            r@ == default_audio(),
    {
        AudioConfig {
            enabled: true,
            echo_cancellation: true,
            noise_suppression: true,
            auto_gain_control: true,
            input_device_id: None,
            output_device_id: None,
            microphone_muted: false,
            speaker_muted: false,
        }
    }
}

impl AudioConfig {
    pub fn new() -> (r: Self)
        ensures
            r@ == default_audio(),
    {
        AudioConfig {
            enabled: true,
            echo_cancellation: true,
            noise_suppression: true,
            auto_gain_control: true,
            input_device_id: None,
            output_device_id: None,
            microphone_muted: false,
            speaker_muted: false,
        }
    }

    pub fn with_enabled(self, enabled: bool) -> (r: Self)
        ensures
            r@ == (AudioConfigView { enabled, ..self@ }),
    {
        let mut config = self;
        config.enabled = enabled;
        config
    }

    pub fn with_echo_cancellation(self, enabled: bool) -> (r: Self)
        ensures
            r@ == (AudioConfigView { echo_cancellation: enabled, ..self@ }),
    {
        let mut config = self;
        config.echo_cancellation = enabled;
        config
    }

    pub fn with_noise_suppression(self, enabled: bool) -> (r: Self)
        ensures
            r@ == (AudioConfigView { noise_suppression: enabled, ..self@ }),
    {
        let mut config = self;
        config.noise_suppression = enabled;
        config
    }

    pub fn with_auto_gain_control(self, enabled: bool) -> (r: Self)
        ensures
            r@ == (AudioConfigView { auto_gain_control: enabled, ..self@ }),
    {
        let mut config = self;
        config.auto_gain_control = enabled;
        config
    }

    pub fn with_input_device(self, device_id: Option<String>) -> (r: Self)
        ensures
            r@ == (AudioConfigView { input_device_id: view_of(device_id), ..self@ }),
    {
        let mut config = self;
        config.input_device_id = device_id;
        config
    }

    pub fn with_output_device(self, device_id: Option<String>) -> (r: Self)
        ensures
            r@ == (AudioConfigView { output_device_id: view_of(device_id), ..self@ }),
    {
        let mut config = self;
        config.output_device_id = device_id;
        config
    }

    pub fn with_microphone_muted(self, muted: bool) -> (r: Self)
        ensures
            r@ == (AudioConfigView { microphone_muted: muted, ..self@ }),
    {
        let mut config = self;
        config.microphone_muted = muted;
        config
    }

    pub fn with_speaker_muted(self, muted: bool) -> (r: Self)
        ensures
            r@ == (AudioConfigView { speaker_muted: muted, ..self@ }),
    {
        let mut config = self;
        config.speaker_muted = muted;
        config
    }
}

/// The audio session of one call.
#[derive(Debug, PartialEq, Eq)]
pub struct CallAudioSession {
    /// The call the session belongs to.
    pub call_id: String,
    /// The number by which the engine knows the call.
    pub number: u128,
    /// The microphone in use, where it is not the default one.
    pub input_device: Option<String>,
    /// The speaker in use, where it is not the default one.
    pub output_device: Option<String>,
    /// When the session started, in milliseconds since the Unix epoch.
    pub started_at: i64,
}

/// The mathematical model of a [`CallAudioSession`].
#[verifier::ext_equal]
pub struct CallAudioSessionView {
    pub call_id: Seq<char>,
    pub number: u128,
    pub input_device: Option<Seq<char>>,
    pub output_device: Option<Seq<char>>,
    pub started_at: i64,
}

impl View for CallAudioSession {
    type V = CallAudioSessionView;

    open spec fn view(&self) -> CallAudioSessionView {
        CallAudioSessionView {
            call_id: self.call_id@,
            number: self.number,
            input_device: view_of(self.input_device),
            output_device: view_of(self.output_device),
            started_at: self.started_at,
        }
    }
}

/// What the audio devices are asked to do. A call is named by the number the
/// engine knows it by.
#[derive(Debug, PartialEq, Eq)]
pub enum AudioRequest {
    /// Start playing and capturing for the call, on the devices named, or on
    /// the default ones.
    Start { call_id: u128, input_device: Option<String>, output_device: Option<String> },
    /// Stop playing and capturing for the call.
    Stop { call_id: u128 },
}

/// The mathematical model of an [`AudioRequest`].
#[verifier::ext_equal]
pub enum AudioRequestView {
    Start { call_id: u128, input_device: Option<Seq<char>>, output_device: Option<Seq<char>> },
    Stop { call_id: u128 },
}

impl View for AudioRequest {
    type V = AudioRequestView;

    open spec fn view(&self) -> AudioRequestView {
        match *self {
            AudioRequest::Start { call_id, input_device, output_device } => AudioRequestView::Start {
                call_id,
                input_device: view_of(input_device),
                output_device: view_of(output_device),
            },
            AudioRequest::Stop { call_id } => AudioRequestView::Stop { call_id },
        }
    }
}

/// Figures on the audio of a session.
#[derive(Debug, Clone, Copy, PartialEq, Eq)]
pub struct AudioStats {
    pub microphone_muted: bool,
    pub speaker_muted: bool,
    /// How many calls have an audio session.
    pub active_sessions: usize,
    pub frames_processed: u64,
    /// Whether any processing of the signal is switched on.
    pub processing_enabled: bool,
}

/// The figures before anything has happened.
pub open spec fn fresh_stats() -> AudioStats {
    AudioStats {
        microphone_muted: false,
        speaker_muted: false,
        active_sessions: 0,
        frames_processed: 0,
        processing_enabled: true,
    }
}

impl AudioStats {
    /// See [`fresh_stats`].
    pub fn new() -> (r: Self)
        ensures
            r == fresh_stats(),
    {
        AudioStats {
            microphone_muted: false,
            speaker_muted: false,
            active_sessions: 0,
            frames_processed: 0,
            processing_enabled: true,
        }
    }
}

/// The models of the sessions in a list.
pub open spec fn session_views(sessions: Seq<CallAudioSession>) -> Seq<CallAudioSessionView> {
    Seq::new(sessions.len(), |i: int| sessions[i]@)
}

/// Whether the call `call_id` has a session among `sessions`.
pub open spec fn has_session(sessions: Seq<CallAudioSessionView>, call_id: Seq<char>) -> bool {
    exists|i: int| 0 <= i < sessions.len() && #[trigger] sessions[i].call_id == call_id
}

/// No call has two sessions.
pub open spec fn one_session_each(sessions: Seq<CallAudioSessionView>) -> bool {
    forall|i: int, j: int|
        0 <= i < j < sessions.len() ==> #[trigger] sessions[i].call_id != #[trigger] sessions[j].call_id
}

/// `sessions` without the one of the call `call_id`.
pub open spec fn without_session(sessions: Seq<CallAudioSessionView>, call_id: Seq<char>) -> Seq<
    CallAudioSessionView,
>
    decreases sessions.len(),
{
    if sessions.len() == 0 {
        Seq::empty()
    } else {
        let before = without_session(sessions.drop_last(), call_id);
        if sessions.last().call_id == call_id {
            before
        } else {
            before.push(sessions.last())
        }
    }
}

/// Whether the signal is processed under `config`; without audio the
/// question is not asked and the answer stays as it was.
pub open spec fn processing_under(config: AudioConfigView, before: bool) -> bool {
    if config.enabled {
        config.echo_cancellation || config.noise_suppression || config.auto_gain_control
    } else {
        before
    }
}

/// The state of the audio of a session.
#[verifier::ext_equal]
pub struct AudioManagerView {
    pub config: AudioConfigView,
    pub sessions: Seq<CallAudioSessionView>,
    pub stats: AudioStats,
}

/// What holds of the audio of a session at all times: no call has two
/// sessions, and the figures count the sessions there are.
pub open spec fn audio_wf(a: AudioManagerView) -> bool {
    &&& one_session_each(a.sessions)
    &&& a.stats.active_sessions == a.sessions.len()
}

/// What starting audio for the call `call_id` asks of the devices, where
/// `number` is what is read from `call_id`: nothing without audio or where
/// the call has a session already; an error where no number is read.
pub open spec fn start_request(
    a: AudioManagerView,
    call_id: Seq<char>,
    number: Option<u128>,
) -> Result<Option<AudioRequestView>, SipError> {
    if !a.config.enabled || has_session(a.sessions, call_id) {
        Ok(None)
    } else {
        match number {
            Some(call) => Ok(
                Some(
                    AudioRequestView::Start {
                        call_id: call,
                        input_device: a.config.input_device_id,
                        output_device: a.config.output_device_id,
                    },
                ),
            ),
            None => Err(SipError::InvalidIdentifier),
        }
    }
}

/// The first session of the call `call_id` among `sessions`.
pub open spec fn session_of(sessions: Seq<CallAudioSessionView>, call_id: Seq<char>) -> Option<
    CallAudioSessionView,
>
    decreases sessions.len(),
{
    if sessions.len() == 0 {
        None
    } else if sessions[0].call_id == call_id {
        Some(sessions[0])
    } else {
        session_of(sessions.skip(1), call_id)
    }
}

/// What stopping audio for the call `call_id` asks of the devices: to stop
/// for the call's number; nothing where the call has no session.
pub open spec fn stop_request(a: AudioManagerView, call_id: Seq<char>) -> Option<AudioRequestView> {
    match session_of(a.sessions, call_id) {
        Some(session) => Some(AudioRequestView::Stop { call_id: session.number }),
        None => None,
    }
}

/// What stopping every session asks of the devices: one stop for each, in
/// the order the sessions began.
pub open spec fn stops_for(sessions: Seq<CallAudioSessionView>) -> Seq<AudioRequestView> {
    Seq::new(sessions.len(), |i: int| AudioRequestView::Stop { call_id: sessions[i].number })
}

/// The models of the requests in a list.
pub open spec fn request_views(requests: Seq<AudioRequest>) -> Seq<AudioRequestView> {
    Seq::new(requests.len(), |i: int| requests[i]@)
}

/// The audio of a session: its settings, the calls that have audio, and
/// figures on them.
#[derive(Debug)]
pub struct AudioManager {
    config: AudioConfig,
    sessions: Vec<CallAudioSession>,
    stats: AudioStats,
}

impl View for AudioManager {
    type V = AudioManagerView;

    closed spec fn view(&self) -> AudioManagerView {
        AudioManagerView {
            config: self.config@,
            sessions: session_views(self.sessions@),
            stats: self.stats,
        }
    }
}

proof fn lemma_without_absent(sessions: Seq<CallAudioSessionView>, call_id: Seq<char>)
    requires
        !has_session(sessions, call_id),
    ensures
        without_session(sessions, call_id) == sessions,
    decreases sessions.len(),
{
    if sessions.len() > 0 {
        assert(sessions[sessions.len() - 1].call_id != call_id);
        assert forall|i: int| 0 <= i < sessions.drop_last().len() implies #[trigger] sessions.drop_last()[i].call_id
            != call_id by {
            assert(sessions[i].call_id != call_id);
        }
        lemma_without_absent(sessions.drop_last(), call_id);
        assert(sessions.drop_last().push(sessions.last()) =~= sessions);
    } else {
        assert(sessions =~= Seq::empty());
    }
}

/// Removing a call's session leaves the others as they were: the call has
/// none afterwards, no call has two, and one session fewer is left where the
/// call had one.
pub proof fn lemma_without_session(sessions: Seq<CallAudioSessionView>, call_id: Seq<char>)
    requires
        one_session_each(sessions),
    ensures
        !has_session(without_session(sessions, call_id), call_id),
        one_session_each(without_session(sessions, call_id)),
        forall|other: Seq<char>|
            other != call_id ==> (has_session(without_session(sessions, call_id), other)
                <==> has_session(sessions, other)),
        without_session(sessions, call_id).len() == (if has_session(sessions, call_id) {
            sessions.len() - 1
        } else {
            sessions.len() as int
        }),
    decreases sessions.len(),
{
    let rest = without_session(sessions, call_id);
    if sessions.len() > 0 {
        let front = sessions.drop_last();
        let last = sessions.last();
        assert forall|i: int, j: int| 0 <= i < j < front.len() implies #[trigger] front[i].call_id
            != #[trigger] front[j].call_id by {
            assert(sessions[i].call_id != sessions[j].call_id);
        }
        lemma_without_session(front, call_id);
        let before = without_session(front, call_id);
        assert forall|i: int| 0 <= i < front.len() implies #[trigger] front[i].call_id
            != last.call_id by {
            assert(sessions[i].call_id != sessions[sessions.len() - 1].call_id);
        }
        if last.call_id == call_id {
            assert(!has_session(front, call_id));
            lemma_without_absent(front, call_id);
            assert(has_session(sessions, call_id)) by {
                assert(sessions[sessions.len() - 1].call_id == call_id);
            }
            assert forall|other: Seq<char>| other != call_id implies (has_session(rest, other)
                <==> has_session(sessions, other)) by {
                if has_session(sessions, other) {
                    let i = choose|i: int| 0 <= i < sessions.len() && #[trigger] sessions[i].call_id == other;
                    assert(front[i].call_id == other);
                }
                if has_session(front, other) {
                    let i = choose|i: int| 0 <= i < front.len() && #[trigger] front[i].call_id == other;
                    assert(sessions[i].call_id == other);
                }
            }
        } else {
            assert(rest == before.push(last));
            assert(!has_session(rest, call_id)) by {
                if has_session(rest, call_id) {
                    let i = choose|i: int| 0 <= i < rest.len() && #[trigger] rest[i].call_id == call_id;
                    if i < before.len() {
                        assert(before[i].call_id == call_id);
                    }
                }
            }
            assert(!has_session(before, last.call_id)) by {
                if has_session(before, last.call_id) {
                    assert(has_session(front, last.call_id));
                    let i = choose|i: int| 0 <= i < front.len() && #[trigger] front[i].call_id == last.call_id;
                }
            }
            assert forall|i: int, j: int| 0 <= i < j < rest.len() implies #[trigger] rest[i].call_id
                != #[trigger] rest[j].call_id by {
                if j == before.len() {
                    if rest[i].call_id == last.call_id {
                        assert(before[i].call_id == last.call_id);
                    }
                } else {
                    assert(before[i].call_id != before[j].call_id);
                }
            }
            assert forall|other: Seq<char>| other != call_id implies (has_session(rest, other)
                <==> has_session(sessions, other)) by {
                if has_session(rest, other) {
                    let i = choose|i: int| 0 <= i < rest.len() && #[trigger] rest[i].call_id == other;
                    if i < before.len() {
                        assert(before[i].call_id == other);
                        assert(has_session(front, other));
                        let k = choose|k: int| 0 <= k < front.len() && #[trigger] front[k].call_id == other;
                        assert(sessions[k].call_id == other);
                    } else {
                        assert(sessions[sessions.len() - 1].call_id == other);
                    }
                }
                if has_session(sessions, other) {
                    let i = choose|i: int| 0 <= i < sessions.len() && #[trigger] sessions[i].call_id == other;
                    if i < front.len() {
                        assert(front[i].call_id == other);
                        assert(has_session(front, other));
                        assert(has_session(before, other));
                        let k = choose|k: int| 0 <= k < before.len() && #[trigger] before[k].call_id == other;
                        assert(rest[k].call_id == other);
                    } else {
                        assert(rest[rest.len() - 1].call_id == other);
                    }
                }
            }
            if has_session(sessions, call_id) {
                let i = choose|i: int| 0 <= i < sessions.len() && #[trigger] sessions[i].call_id == call_id;
                assert(front[i].call_id == call_id);
            }
            if has_session(front, call_id) {
                let i = choose|i: int| 0 <= i < front.len() && #[trigger] front[i].call_id == call_id;
                assert(sessions[i].call_id == call_id);
            }
        }
    }
}

impl AudioManager {
    /// The audio of a session under `config`, with no call having audio yet.
    pub fn new(config: AudioConfig) -> (r: Self)
        ensures
            r@ == (AudioManagerView {
                config: config@,
                sessions: Seq::empty(),
                stats: AudioStats {
                    processing_enabled: processing_under(config@, true),
                    ..fresh_stats()
                },
            }),
            audio_wf(r@),
    {
        let mut stats = AudioStats::new();
        if config.enabled {
            stats.processing_enabled = config.echo_cancellation || config.noise_suppression
                || config.auto_gain_control;
        }
        let r = AudioManager { config, sessions: Vec::new(), stats };
        assert(session_views(r.sessions@) =~= Seq::empty());
        r
    }

    /// The settings.
    pub fn get_config(&self) -> (r: AudioConfig)
        ensures
            r@ == self@.config,
    {
        self.config.clone()
    }

    /// The figures.
    pub fn get_stats(&self) -> (r: AudioStats)
        ensures
            r == self@.stats,
    {
        self.stats
    }

    /// Replaces the settings.
    pub fn update_config(&mut self, config: AudioConfig)
        ensures
            final(self)@ == (AudioManagerView {
                config: config@,
                stats: AudioStats {
                    processing_enabled: processing_under(
                        config@,
                        old(self)@.stats.processing_enabled,
                    ),
                    ..old(self)@.stats
                },
                ..old(self)@
            }),
            audio_wf(old(self)@) ==> audio_wf(final(self)@),
    {
        if config.enabled {
            self.stats.processing_enabled = config.echo_cancellation || config.noise_suppression
                || config.auto_gain_control;
        }
        self.config = config;
    }

    /// Where the call's first session stands in the list, if it has one.
    fn position(&self, call_id: &str) -> (r: Option<usize>)
        ensures
            r is Some <==> has_session(self@.sessions, call_id@),
            r is Some ==> r->0 < self.sessions@.len() && self.sessions@[r->0 as int].call_id@
                == call_id@,
            r is Some ==> forall|j: int|
                0 <= j < r->0 ==> (#[trigger] self.sessions@[j]).call_id@ != call_id@,
    {
        let mut i: usize = 0;
        while i < self.sessions.len()
            invariant
                i <= self.sessions.len(),
                forall|j: int| 0 <= j < i ==> (#[trigger] self.sessions@[j]).call_id@ != call_id@,
            decreases self.sessions.len() - i,
        {
            if str_eq(self.sessions[i].call_id.as_str(), call_id) {
                assert(session_views(self.sessions@)[i as int].call_id == call_id@);
                return Some(i);
            }
            i = i + 1;
        }
        assert forall|j: int| 0 <= j < self@.sessions.len() implies #[trigger] self@.sessions[j].call_id
            != call_id@ by {
            assert(self.sessions@[j].call_id@ != call_id@);
        }
        None
    }

    /// Whether the call has an audio session.
    pub fn is_call_audio_active(&self, call_id: &str) -> (r: bool)
        ensures
            r == has_session(self@.sessions, call_id@),
    {
        self.position(call_id).is_some()
    }

    /// The calls that have an audio session, in the order the sessions began.
    pub fn get_active_calls(&self) -> (r: Vec<String>)
        ensures
            r@.len() == self@.sessions.len(),
            forall|i: int| 0 <= i < r@.len() ==> #[trigger] r@[i]@ == self@.sessions[i].call_id,
    {
        let mut calls: Vec<String> = Vec::new();
        let mut i: usize = 0;
        while i < self.sessions.len()
            invariant
                i <= self.sessions.len(),
                calls@.len() == i,
                forall|j: int| 0 <= j < i ==> #[trigger] calls@[j]@ == self.sessions@[j].call_id@,
            decreases self.sessions.len() - i,
        {
            calls.push(self.sessions[i].call_id.clone());
            i = i + 1;
        }
        calls
    }

    /// See [`start_request`]. The session itself is recorded once the devices
    /// have started: see [`Self::call_audio_started`].
    pub fn start_call_audio_for(&self, call_id: &str, number: Option<u128>) -> (r: Result<
        Option<AudioRequest>,
        SipError,
    >)
        ensures
            match r {
                Ok(request) => start_request(self@, call_id@, number) == Ok::<
                    Option<AudioRequestView>,
                    SipError,
                >(view_of(request)),
                Err(e) => start_request(self@, call_id@, number) == Err::<
                    Option<AudioRequestView>,
                    SipError,
                >(e),
            },
    {
        if !self.config.enabled || self.is_call_audio_active(call_id) {
            return Ok(None);
        }
        match number {
            Some(call) => Ok(
                Some(
                    AudioRequest::Start {
                        call_id: call,
                        input_device: clone_text(&self.config.input_device_id),
                        output_device: clone_text(&self.config.output_device_id),
                    },
                ),
            ),
            None => Err(SipError::InvalidIdentifier),
        }
    }

    /// What starting audio for the call `call_id` asks of the devices, with
    /// the number that is read from `call_id`.
    pub fn start_call_audio(&self, call_id: &str) -> (r: Result<Option<AudioRequest>, SipError>)
        ensures
            match r {
                Ok(request) => start_request(self@, call_id@, uuid_value(call_id@)) == Ok::<
                    Option<AudioRequestView>,
                    SipError,
                >(view_of(request)),
                Err(e) => start_request(self@, call_id@, uuid_value(call_id@)) == Err::<
                    Option<AudioRequestView>,
                    SipError,
                >(e),
            },
    {
        let number = match engine_call_id(call_id) {
            Ok(call) => Some(call),
            Err(_) => None,
        };
        self.start_call_audio_for(call_id, number)
    }

    /// Records that the devices have started for `session`'s call. A call
    /// that has a session keeps the one it has.
    pub fn call_audio_started(&mut self, session: CallAudioSession)
        ensures
            audio_wf(old(self)@) ==> audio_wf(final(self)@),
            audio_wf(old(self)@) ==> final(self)@ == (if has_session(
                old(self)@.sessions,
                session@.call_id,
            ) {
                old(self)@
            } else {
                AudioManagerView {
                    sessions: old(self)@.sessions.push(session@),
                    stats: AudioStats {
                        active_sessions: (old(self)@.sessions.len() + 1) as usize,
                        ..old(self)@.stats
                    },
                    ..old(self)@
                }
            }),
            has_session(final(self)@.sessions, session@.call_id),
    {
        if self.position(session.call_id.as_str()).is_none() {
            let ghost before = self@.sessions;
            let ghost added = session@;
            self.sessions.push(session);
            self.stats.active_sessions = self.sessions.len();
            proof {
                assert(session_views(self.sessions@) =~= before.push(added));
                assert(self@.sessions[before.len() as int].call_id == added.call_id);
                if one_session_each(before) {
                    assert forall|i: int, j: int| 0 <= i < j < self@.sessions.len() implies #[trigger] self@.sessions[i].call_id
                        != #[trigger] self@.sessions[j].call_id by {
                        if j == before.len() {
                            assert(before[i].call_id != added.call_id);
                        } else {
                            assert(before[i].call_id != before[j].call_id);
                        }
                    }
                }
            }
        }
    }

    /// Drops the call's session, and says what that asks of the devices: see
    /// [`stop_request`].
    pub fn stop_call_audio(&mut self, call_id: &str) -> (r: Option<AudioRequest>)
        ensures
            view_of(r) == stop_request(old(self)@, call_id@),
            r is Some <==> has_session(old(self)@.sessions, call_id@),
            audio_wf(old(self)@) ==> audio_wf(final(self)@),
            audio_wf(old(self)@) ==> !has_session(final(self)@.sessions, call_id@),
            audio_wf(old(self)@) ==> final(self)@ == (AudioManagerView {
                sessions: without_session(old(self)@.sessions, call_id@),
                stats: AudioStats {
                    active_sessions: without_session(old(self)@.sessions, call_id@).len() as usize,
                    ..old(self)@.stats
                },
                ..old(self)@
            }),
    {
        let ghost before = self@.sessions;
        proof {
            if one_session_each(before) {
                lemma_without_session(before, call_id@);
            }
        }
        match self.position(call_id) {
            None => {
                proof {
                    lemma_without_absent(before, call_id@);
                    lemma_session_of_absent(before, call_id@);
                }
                None
            },
            Some(at) => {
                let number = self.sessions[at].number;
                proof {
                    assert forall|j: int| 0 <= j < at implies #[trigger] before[j].call_id
                        != call_id@ by {
                        assert(self.sessions@[j].call_id@ != call_id@);
                    }
                    assert(before[at as int] == self.sessions@[at as int]@);
                    lemma_session_of_first(before, call_id@, at as int);
                }
                self.sessions.remove(at);
                self.stats.active_sessions = self.sessions.len();
                proof {
                    if one_session_each(before) {
                        lemma_remove_at(before, at as int, call_id@);
                    }
                    assert(session_views(self.sessions@) =~= before.remove(at as int));
                }
                Some(AudioRequest::Stop { call_id: number })
            },
        }
    }

    /// Drops every session, and says what that asks of the devices: see
    /// [`stops_for`].
    pub fn stop_all_sessions(&mut self) -> (r: Vec<AudioRequest>)
        ensures
            final(self)@ == (AudioManagerView {
                sessions: Seq::empty(),
                stats: AudioStats { active_sessions: 0, ..old(self)@.stats },
                ..old(self)@
            }),
            audio_wf(final(self)@),
            request_views(r@) == stops_for(old(self)@.sessions),
    {
        let mut requests: Vec<AudioRequest> = Vec::new();
        let mut i: usize = 0;
        while i < self.sessions.len()
            invariant
                i <= self.sessions.len(),
                requests@.len() == i,
                forall|j: int|
                    0 <= j < i ==> (#[trigger] requests@[j])@ == (AudioRequestView::Stop {
                        call_id: self.sessions@[j].number,
                    }),
            decreases self.sessions.len() - i,
        {
            requests.push(AudioRequest::Stop { call_id: self.sessions[i].number });
            i = i + 1;
        }
        assert(request_views(requests@) =~= stops_for(self@.sessions));
        self.sessions = Vec::new();
        self.stats.active_sessions = 0;
        assert(session_views(self.sessions@) =~= Seq::empty());
        requests
    }

    /// Mutes or unmutes the microphone. The setting is one for all calls:
    /// `call_id`, the call it was asked for, does not enter into it.
    pub fn set_microphone_mute(&mut self, call_id: &str, muted: bool)
        ensures
            final(self)@ == (AudioManagerView {
                config: AudioConfigView { microphone_muted: muted, ..old(self)@.config },
                stats: AudioStats { microphone_muted: muted, ..old(self)@.stats },
                ..old(self)@
            }),
    {
        self.config.microphone_muted = muted;
        self.stats.microphone_muted = muted;
    }

    /// Mutes or unmutes the speaker. The setting is one for all calls:
    /// `call_id`, the call it was asked for, does not enter into it.
    pub fn set_speaker_mute(&mut self, call_id: &str, muted: bool)
        ensures
            final(self)@ == (AudioManagerView {
                config: AudioConfigView { speaker_muted: muted, ..old(self)@.config },
                stats: AudioStats { speaker_muted: muted, ..old(self)@.stats },
                ..old(self)@
            }),
    {
        self.config.speaker_muted = muted;
        self.stats.speaker_muted = muted;
    }
}

proof fn lemma_session_of_absent(sessions: Seq<CallAudioSessionView>, call_id: Seq<char>)
    requires
        !has_session(sessions, call_id),
    ensures
        session_of(sessions, call_id) is None,
    decreases sessions.len(),
{
    if sessions.len() > 0 {
        assert(sessions[0].call_id != call_id);
        assert forall|i: int| 0 <= i < sessions.skip(1).len() implies #[trigger] sessions.skip(
            1,
        )[i].call_id != call_id by {
            assert(sessions[i + 1].call_id != call_id);
        }
        lemma_session_of_absent(sessions.skip(1), call_id);
    }
}

proof fn lemma_session_of_first(sessions: Seq<CallAudioSessionView>, call_id: Seq<char>, at: int)
    requires
        0 <= at < sessions.len(),
        sessions[at].call_id == call_id,
        forall|j: int| 0 <= j < at ==> #[trigger] sessions[j].call_id != call_id,
    ensures
        session_of(sessions, call_id) == Some(sessions[at]),
    decreases at,
{
    if at > 0 {
        assert(sessions[0].call_id != call_id);
        let rest = sessions.skip(1);
        assert(rest[at - 1] == sessions[at]);
        assert forall|j: int| 0 <= j < at - 1 implies #[trigger] rest[j].call_id != call_id by {
            assert(sessions[j + 1].call_id != call_id);
        }
        lemma_session_of_first(rest, call_id, at - 1);
    }
}

proof fn lemma_remove_at(sessions: Seq<CallAudioSessionView>, at: int, call_id: Seq<char>)
    requires
        one_session_each(sessions),
        0 <= at < sessions.len(),
        sessions[at].call_id == call_id,
    ensures
        without_session(sessions, call_id) == sessions.remove(at),
    decreases sessions.len(),
{
    let front = sessions.drop_last();
    if at == sessions.len() - 1 {
        assert forall|i: int| 0 <= i < front.len() implies #[trigger] front[i].call_id != call_id by {
            assert(sessions[i].call_id != sessions[at].call_id);
        }
        lemma_without_absent(front, call_id);
        assert(sessions.remove(at) =~= front);
    } else {
        assert forall|i: int, j: int| 0 <= i < j < front.len() implies #[trigger] front[i].call_id
            != #[trigger] front[j].call_id by {
            assert(sessions[i].call_id != sessions[j].call_id);
        }
        assert(front[at].call_id == call_id);
        lemma_remove_at(front, at, call_id);
        assert(sessions[at].call_id != sessions[sessions.len() - 1].call_id);
        assert(sessions.remove(at) =~= front.remove(at).push(sessions.last()));
    }
}

} // verus!
